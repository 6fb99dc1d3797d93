use super::application::prefixed;
use super::application::spec_opt_value_tokens;
use super::application::ToArgVector;
use super::application::ZenityApplication;
use super::spec_trimmed;
use super::trim_str;
use crate::numfmt::isize_to_string;
use crate::numfmt::spec_decimal;
use crate::numfmt::spec_decimal_signed;
use crate::numfmt::u64_to_string;
use crate::numfmt::usize_to_string;
use chrono::Datelike;
use vstd::prelude::*;
use vstd::string::*;

verus! {

/// A calendar month, rendered into the `--month` token by its number.
#[derive(Debug, Clone, Copy, PartialEq, Eq, Structural)]
pub enum Month {
    January,
    Feburary,
    March,
    April,
    May,
    June,
    July,
    August,
    September,
    October,
    November,
    December,
}

impl Month {
    /// The month's number: 1 for January through 12 for December.
    pub open spec fn spec_number(&self) -> int {
        match self {
            Month::January => 1,
            Month::Feburary => 2,
            Month::March => 3,
            Month::April => 4,
            Month::May => 5,
            Month::June => 6,
            Month::July => 7,
            Month::August => 8,
            Month::September => 9,
            Month::October => 10,
            Month::November => 11,
            Month::December => 12,
        }
    }

    /// The month's number, as rendered into the `--month` token.
    pub fn as_number(&self) -> (n: u8)
        ensures
            n as int == self.spec_number(),
    {
        match self {
            Month::January => 1,
            Month::Feburary => 2,
            Month::March => 3,
            Month::April => 4,
            Month::May => 5,
            Month::June => 6,
            Month::July => 7,
            Month::August => 8,
            Month::September => 9,
            Month::October => 10,
            Month::November => 11,
            Month::December => 12,
        }
    }
}

/// A calendar date as plain values: the year and the one-based month and day
/// numbers of the proleptic Gregorian calendar.
#[derive(Debug, Clone, Copy, PartialEq, Eq, Structural)]
pub struct Date {
    /// The year number.
    pub year: i32,
    /// The month number, 1 through 12.
    pub month: u8,
    /// The day-of-month number, 1 through 31.
    pub day: u8,
}

impl Date {
    /// Well-formedness: the month and day numbers lie in their calendar
    /// ranges. Every date that parsing produces satisfies this.
    pub open spec fn wf(&self) -> bool {
        &&& 1 <= self.month <= 12
        &&& 1 <= self.day <= 31
    }
}

impl DeepView for Date {
    type V = Date;

    open spec fn deep_view(&self) -> Date {
        *self
    }
}

/// What date parsing returns for given text and format: the year, month and
/// day numbers of the parsed date, or `None` when the text does not match
/// the format.
pub uninterp spec fn spec_parsed_date(s: Seq<char>, fmt: Seq<char>) -> Option<(int, int, int)>;

/// Relies on `chrono::NaiveDate::parse_from_str`, with the `Datelike`
/// accessors `year`, `month` and `day` reading the result out: parsing
/// depends on the text and the format alone; a parsed month lies in 1..=12
/// and a parsed day in 1..=31, as chrono documents of the accessors; the
/// error carries chrono's own message.
#[verifier::external_body]
fn parse_date_with_format(s: &str, fmt: &str) -> (r: Result<(i32, u32, u32), String>)
    ensures
        match r {
            Ok(d) => {
                &&& spec_parsed_date(s@, fmt@) == Some((d.0 as int, d.1 as int, d.2 as int))
                &&& 1 <= d.1 <= 12
                &&& 1 <= d.2 <= 31
            },
            Err(_) => spec_parsed_date(s@, fmt@) is None,
        },
{
    match chrono::NaiveDate::parse_from_str(s, fmt) {
        Ok(d) => Ok((d.year(), d.month(), d.day())),
        Err(e) => Err(format!("{}", e)),
    }
}

/// Configuration for a calendar dialog, in which the user picks a date.
#[derive(Debug, Clone)]
pub struct Calendar {
    /// The body text
    pub text: Option<String>,
    /// The day of the month to display as the default input. If it is larger
    /// than what is possible for the selected month, the tool ignores it.
    pub day: Option<usize>,
    /// The month to display as the default input
    pub month: Option<Month>,
    /// The year to display as the default input
    pub year: Option<isize>,
    /// The output format for the date the user selects. Parsing expects the
    /// same format, so a custom format cannot be combined meaningfully with
    /// structured date parsing.
    pub format: Option<String>,
}

impl Default for Calendar {
    /// The same configuration as [`Calendar::new`]: every option unset.
    fn default() -> (r: Self)
        ensures
            r == (Calendar {
                text: None::<String>,
                day: None::<usize>,
                month: None::<Month>,
                year: None::<isize>,
                format: None::<String>,
            }),
    {
        Calendar::new()
    }
}

impl Calendar {
    /// The format string that output parsing expects: the configured one, or
    /// the day/month/2-digit-year default.
    pub open spec fn spec_format(&self) -> Seq<char> {
        match self.format {
            Some(f) => f@,
            None => "%d/%m/%y"@,
        }
    }

    /// A configuration with every option unset, as [`Default`] also yields.
    pub fn new() -> (r: Self)
        ensures
            r == (Calendar {
                text: None::<String>,
                day: None::<usize>,
                month: None::<Month>,
                year: None::<isize>,
                format: None::<String>,
            }),
    {
        Calendar { text: None, day: None, month: None, year: None, format: None }
    }

    /// Set the body text.
    pub fn with_text(self, text: String) -> (r: Self)
        ensures
            r == (Calendar { text: Some(text), ..self }),
    {
        Calendar { text: Some(text), ..self }
    }

    /// Set the day to display as the default input.
    pub fn with_day(self, day: usize) -> (r: Self)
        ensures
            r == (Calendar { day: Some(day), ..self }),
    {
        Calendar { day: Some(day), ..self }
    }

    /// Set the month to display as the default input.
    pub fn with_month(self, month: Month) -> (r: Self)
        ensures
            r == (Calendar { month: Some(month), ..self }),
    {
        Calendar { month: Some(month), ..self }
    }

    /// Set the year to display as the default input.
    pub fn with_year(self, year: isize) -> (r: Self)
        ensures
            r == (Calendar { year: Some(year), ..self }),
    {
        Calendar { year: Some(year), ..self }
    }

    /// Set the format for the returned date, strftime style, for example
    /// `%A %d/%m/%y`. The same format then drives output parsing, so setting
    /// one forgoes the default day/month/2-digit-year form.
    pub fn with_format(self, format: String) -> (r: Self)
        ensures
            r == (Calendar { format: Some(format), ..self }),
    {
        Calendar { format: Some(format), ..self }
    }
}

impl ZenityApplication for Calendar {
    type Return = Date;

    open spec fn spec_parse(&self, stdout: Seq<char>) -> Option<Date> {
        match spec_parsed_date(spec_trimmed(stdout), self.spec_format()) {
            Some(d) => Some(Date { year: d.0 as i32, month: d.1 as u8, day: d.2 as u8 }),
            None => None,
        }
    }

    fn parse(&self, stdout: &str) -> Result<Date, crate::error::Error> {
        let trimmed = trim_str(stdout);
        let parsed = match &self.format {
            Some(f) => parse_date_with_format(trimmed, f.as_str()),
            None => parse_date_with_format(trimmed, "%d/%m/%y"),
        };
        match parsed {
            Ok(d) => Ok(Date { year: d.0, month: d.1 as u8, day: d.2 as u8 }),
            Err(msg) => Err(crate::error::Error::ParseResultFailure(msg)),
        }
    }
}

impl ToArgVector for Calendar {
    open spec fn spec_kind_flag(&self) -> Seq<char> {
        "--calendar"@
    }

    open spec fn spec_argv(&self) -> Seq<Seq<char>> {
        seq!["--calendar"@] + spec_opt_value_tokens("--text="@, self.text.deep_view())
            + spec_opt_value_tokens(
            "--day="@,
            (match self.day {
                Some(d) => Some(spec_decimal(d as nat)),
                None => None,
            }),
        )
            + spec_opt_value_tokens(
            "--month="@,
            (match self.month {
                Some(m) => Some(spec_decimal(m.spec_number() as nat)),
                None => None,
            }),
        )
            + spec_opt_value_tokens(
            "--year="@,
            (match self.year {
                Some(y) => Some(spec_decimal_signed(y as int)),
                None => None,
            }),
        )
            + spec_opt_value_tokens("--date-format="@, self.format.deep_view())
    }

    fn to_argv(&self) -> (args: Vec<String>) {
        let mut args: Vec<String> = Vec::new();
        args.push(String::from_str("--calendar"));
        if let Some(text) = &self.text {
            args.push(prefixed("--text=", text.as_str()));
        }
        if let Some(day) = &self.day {
            args.push(prefixed("--day=", usize_to_string(*day).as_str()));
        }
        if let Some(month) = &self.month {
            args.push(prefixed("--month=", u64_to_string(month.as_number() as u64).as_str()));
        }
        if let Some(year) = &self.year {
            args.push(prefixed("--year=", isize_to_string(*year).as_str()));
        }
        if let Some(format) = &self.format {
            args.push(prefixed("--date-format=", format.as_str()));
        }
        proof {
            assert(args.deep_view() =~~= self.spec_argv());
        }
        args
    }
}

} // verus!

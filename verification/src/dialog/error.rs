use super::application::prefixed;
use super::application::spec_flag_tokens;
use super::application::spec_opt_value_tokens;
use super::application::ToArgVector;
use super::application::ZenityApplication;
use vstd::prelude::*;
use vstd::string::*;

verus! {

/// Configuration for a dialog that warns the user of an error.
#[derive(Debug, Clone)]
pub struct Error {
    /// The body text
    pub text: Option<String>,
    /// Prevent word wrap
    pub no_wrap: bool,
    /// Disable markup support
    pub no_markup: bool,
}

impl ZenityApplication for Error {
    type Return = String;

    open spec fn spec_parse(&self, stdout: Seq<char>) -> Option<Seq<char>> {
        Some(stdout)
    }

    fn parse(&self, stdout: &str) -> Result<String, crate::error::Error> {
        Ok(stdout.to_owned())
    }
}

impl ToArgVector for Error {
    open spec fn spec_kind_flag(&self) -> Seq<char> {
        "--error"@
    }

    open spec fn spec_argv(&self) -> Seq<Seq<char>> {
        seq!["--error"@] + spec_opt_value_tokens("--text="@, self.text.deep_view())
            + spec_flag_tokens("--no-wrap"@, self.no_wrap)
            + spec_flag_tokens("--no-markup"@, self.no_markup)
    }

    fn to_argv(&self) -> (args: Vec<String>) {
        let mut args: Vec<String> = Vec::new();
        args.push(String::from_str("--error"));
        if let Some(text) = &self.text {
            args.push(prefixed("--text=", text.as_str()));
        }
        if self.no_wrap {
            args.push(String::from_str("--no-wrap"));
        }
        if self.no_markup {
            args.push(String::from_str("--no-markup"));
        }
        proof {
            assert(args.deep_view() =~~= self.spec_argv());
        }
        args
    }
}

impl Default for Error {
    /// The same configuration as [`Error::new`]: every option unset.
    fn default() -> (r: Self)
        ensures
            r == (Error { text: None::<String>, no_wrap: false, no_markup: false }),
    {
        Error::new()
    }
}

impl Error {
    /// A configuration with every option unset.
    pub fn new() -> (r: Self)
        ensures
            r == (Error { text: None::<String>, no_wrap: false, no_markup: false }),
    {
        Error { text: None, no_wrap: false, no_markup: false }
    }

    /// Set the body text.
    pub fn with_text(self, text: String) -> (r: Self)
        ensures
            r == (Error { text: Some(text), ..self }),
    {
        Error { text: Some(text), ..self }
    }

    /// Prevent word wrap.
    pub fn set_no_wrap(self) -> (r: Self)
        ensures
            r == (Error { no_wrap: true, ..self }),
    {
        Error { no_wrap: true, ..self }
    }

    /// Disable markup support.
    pub fn set_no_markup(self) -> (r: Self)
        ensures
            r == (Error { no_markup: true, ..self }),
    {
        Error { no_markup: true, ..self }
    }
}

} // verus!

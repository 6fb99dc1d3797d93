use super::application::prefixed;
use super::application::spec_flag_tokens;
use super::application::spec_opt_value_tokens;
use super::application::ToArgVector;
use super::application::ZenityApplication;
use vstd::prelude::*;
use vstd::string::*;

verus! {

/// Configuration for a plain informational dialog.
#[derive(Debug, Clone)]
pub struct Info {
    /// The body text
    pub text: Option<String>,
    /// Custom label for the ok button
    pub ok_label: Option<String>,
    /// Prevent word wrap
    pub no_wrap: bool,
    /// Disable markup support
    pub no_markup: bool,
    /// Show ellipses for texts that are too long to display
    pub ellipsize: bool,
}

impl ZenityApplication for Info {
    type Return = String;

    open spec fn spec_parse(&self, stdout: Seq<char>) -> Option<Seq<char>> {
        Some(stdout)
    }

    fn parse(&self, stdout: &str) -> Result<String, crate::error::Error> {
        Ok(stdout.to_owned())
    }
}

impl ToArgVector for Info {
    open spec fn spec_kind_flag(&self) -> Seq<char> {
        "--info"@
    }

    open spec fn spec_argv(&self) -> Seq<Seq<char>> {
        seq!["--info"@] + spec_opt_value_tokens("--text="@, self.text.deep_view())
            + spec_opt_value_tokens("--ok-label="@, self.ok_label.deep_view())
            + spec_flag_tokens("--no-wrap"@, self.no_wrap)
            + spec_flag_tokens("--no-markup"@, self.no_markup)
            + spec_flag_tokens("--ellipsize"@, self.ellipsize)
    }

    fn to_argv(&self) -> (args: Vec<String>) {
        let mut args: Vec<String> = Vec::new();
        args.push(String::from_str("--info"));
        if let Some(text) = &self.text {
            args.push(prefixed("--text=", text.as_str()));
        }
        if let Some(ok_label) = &self.ok_label {
            args.push(prefixed("--ok-label=", ok_label.as_str()));
        }
        if self.no_wrap {
            args.push(String::from_str("--no-wrap"));
        }
        if self.no_markup {
            args.push(String::from_str("--no-markup"));
        }
        if self.ellipsize {
            args.push(String::from_str("--ellipsize"));
        }
        proof {
            assert(args.deep_view() =~~= self.spec_argv());
        }
        args
    }
}

impl Default for Info {
    /// The same configuration as [`Info::new`]: every option unset.
    fn default() -> (r: Self)
        ensures
            r == (Info {
                text: None::<String>,
                ok_label: None::<String>,
                no_wrap: false,
                no_markup: false,
                ellipsize: false,
            }),
    {
        Info::new()
    }
}

impl Info {
    /// A configuration with every option unset.
    pub fn new() -> (r: Self)
        ensures
            r == (Info {
                text: None::<String>,
                ok_label: None::<String>,
                no_wrap: false,
                no_markup: false,
                ellipsize: false,
            }),
    {
        Info { text: None, ok_label: None, no_wrap: false, no_markup: false, ellipsize: false }
    }

    /// Set the body text.
    pub fn with_text(self, text: String) -> (r: Self)
        ensures
            r == (Info { text: Some(text), ..self }),
    {
        Info { text: Some(text), ..self }
    }

    /// Set a custom label for the ok button.
    pub fn with_ok_label(self, ok_label: String) -> (r: Self)
        ensures
            r == (Info { ok_label: Some(ok_label), ..self }),
    {
        Info { ok_label: Some(ok_label), ..self }
    }

    /// Prevent word wrap.
    pub fn set_no_wrap(self) -> (r: Self)
        ensures
            r == (Info { no_wrap: true, ..self }),
    {
        Info { no_wrap: true, ..self }
    }

    /// Disable markup support.
    pub fn set_no_markup(self) -> (r: Self)
        ensures
            r == (Info { no_markup: true, ..self }),
    {
        Info { no_markup: true, ..self }
    }

    /// Show ellipses for texts that are too long to display.
    pub fn set_ellipsize(self) -> (r: Self)
        ensures
            r == (Info { ellipsize: true, ..self }),
    {
        Info { ellipsize: true, ..self }
    }
}

} // verus!

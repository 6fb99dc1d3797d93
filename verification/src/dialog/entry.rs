use super::application::prefixed;
use super::application::spec_flag_tokens;
use super::application::spec_opt_value_tokens;
use super::application::ToArgVector;
use super::application::ZenityApplication;
use vstd::prelude::*;
use vstd::string::*;

verus! {

/// Configuration for a text-entry dialog.
#[derive(Debug, Clone)]
pub struct Entry {
    /// The body text
    pub text: Option<String>,
    /// Text to prefill the input with
    pub entry_text: Option<String>,
    /// Hide the content of the input, as for a password
    pub hide_text: bool,
}

impl ZenityApplication for Entry {
    type Return = String;

    open spec fn spec_parse(&self, stdout: Seq<char>) -> Option<Seq<char>> {
        Some(stdout)
    }

    fn parse(&self, stdout: &str) -> Result<String, crate::error::Error> {
        Ok(stdout.to_owned())
    }
}

impl ToArgVector for Entry {
    open spec fn spec_kind_flag(&self) -> Seq<char> {
        "--entry"@
    }

    open spec fn spec_argv(&self) -> Seq<Seq<char>> {
        seq!["--entry"@] + spec_opt_value_tokens("--text="@, self.text.deep_view())
            + spec_opt_value_tokens("--entry-text="@, self.entry_text.deep_view())
            + spec_flag_tokens("--hide-text"@, self.hide_text)
    }

    fn to_argv(&self) -> (args: Vec<String>) {
        let mut args: Vec<String> = Vec::new();
        args.push(String::from_str("--entry"));
        if let Some(text) = &self.text {
            args.push(prefixed("--text=", text.as_str()));
        }
        if let Some(entry_text) = &self.entry_text {
            args.push(prefixed("--entry-text=", entry_text.as_str()));
        }
        if self.hide_text {
            args.push(String::from_str("--hide-text"));
        }
        proof {
            assert(args.deep_view() =~~= self.spec_argv());
        }
        args
    }
}

impl Default for Entry {
    /// The same configuration as [`Entry::new`]: every option unset.
    fn default() -> (r: Self)
        ensures
            r == (Entry { text: None::<String>, entry_text: None::<String>, hide_text: false }),
    {
        Entry::new()
    }
}

impl Entry {
    /// A configuration with every option unset.
    pub fn new() -> (r: Self)
        ensures
            r == (Entry { text: None::<String>, entry_text: None::<String>, hide_text: false }),
    {
        Entry { text: None, entry_text: None, hide_text: false }
    }

    /// Set the body text.
    pub fn with_text(self, text: String) -> (r: Self)
        ensures
            r == (Entry { text: Some(text), ..self }),
    {
        Entry { text: Some(text), ..self }
    }

    /// Prefill the input with the given text.
    pub fn with_entry_text(self, entry_text: String) -> (r: Self)
        ensures
            r == (Entry { entry_text: Some(entry_text), ..self }),
    {
        Entry { entry_text: Some(entry_text), ..self }
    }

    /// Hide the content of the text input, as for a password input.
    pub fn set_hide_text(self) -> (r: Self)
        ensures
            r == (Entry { hide_text: true, ..self }),
    {
        Entry { hide_text: true, ..self }
    }
}

} // verus!

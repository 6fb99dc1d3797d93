use vstd::prelude::*;
use vstd::string::*;

verus! {

/// The failures that may occur when launching a dialog and interpreting its
/// response. Each variant except [`Error::MissingExitCode`] carries a
/// human-readable detail string describing the underlying failure.
#[derive(Debug, Clone, PartialEq)]
pub enum Error {
    /// The `zenity` executable could not be located, distinguished from other
    /// spawn failures so callers can detect a missing installation.
    ZenityNotInstalled(String),
    /// Any other failure to spawn or communicate with the subprocess.
    UnexpectedIoError(String),
    /// The captured stdout bytes are not valid UTF-8.
    InvalidUtf8FromStdout(String),
    /// The process terminated without a retrievable exit status.
    MissingExitCode,
    /// A kind-specific output parser rejected the captured text.
    ParseResultFailure(String),
}

/// The message text of each error kind, before its detail string.
pub open spec fn spec_message_prefix(e: Error) -> Seq<char> {
    match e {
        Error::ZenityNotInstalled(_) => "Zenity is not installed: "@,
        Error::UnexpectedIoError(_) => "Unexpected io error occured: "@,
        Error::InvalidUtf8FromStdout(_) => "Failed to decode stdout as utf-8: "@,
        Error::MissingExitCode => "Zenity failed to return an exit code."@,
        Error::ParseResultFailure(_) => "Failed to parse the output: "@,
    }
}

/// The full message text: the kind's prefix followed by its detail string.
pub open spec fn spec_message(e: Error) -> Seq<char> {
    match e {
        Error::ZenityNotInstalled(d) => spec_message_prefix(e) + d@,
        Error::UnexpectedIoError(d) => spec_message_prefix(e) + d@,
        Error::InvalidUtf8FromStdout(d) => spec_message_prefix(e) + d@,
        Error::MissingExitCode => spec_message_prefix(e),
        Error::ParseResultFailure(d) => spec_message_prefix(e) + d@,
    }
}

impl Error {
    /// A human-readable description of the failure.
    pub fn message(&self) -> (r: String)
        ensures
            r@ == spec_message(*self),
    {
        match self {
            Error::ZenityNotInstalled(d) => String::from_str("Zenity is not installed: ").concat(
                d.as_str(),
            ),
            Error::UnexpectedIoError(d) => String::from_str("Unexpected io error occured: ")
                .concat(d.as_str()),
            Error::InvalidUtf8FromStdout(d) => String::from_str(
                "Failed to decode stdout as utf-8: ",
            ).concat(d.as_str()),
            Error::MissingExitCode => String::from_str("Zenity failed to return an exit code."),
            Error::ParseResultFailure(d) => String::from_str("Failed to parse the output: ")
                .concat(d.as_str()),
        }
    }
}

} // verus!

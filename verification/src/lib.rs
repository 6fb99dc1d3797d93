//! A typed configuration and invocation layer over `zenity`, a command-line
//! tool that renders dialog boxes.
//!
//! A caller describes the desired dialog as a strongly typed configuration
//! value (kind, title, icon, size, timeout, body text, extra button), renders
//! it into a command-line argument vector with [`ZenityDialog::get_argv`], and
//! maps the tool's exit code and captured output back into a typed
//! [`ZenityOutput`] with [`ZenityDialog::classify_output`]. Spawning the
//! subprocess itself is left to the caller.

mod arg;
/// Configuration types for the supported kinds of dialog.
pub mod dialog;
mod error;
/// Verified decimal rendering of the integers that appear in tokens.
pub mod numfmt;

pub use crate::arg::has_dash_prefix;
pub use crate::arg::spec_render;
pub use crate::arg::strip_dash_prefix;
pub use crate::arg::Arg;
pub use crate::arg::ArgModel;
pub use crate::dialog::ZenityDialog;
pub use crate::dialog::ZenityDialogExtButton;
pub use crate::dialog::ZenityOutput;
pub use crate::dialog::ZenityOutputExtButton;
pub use crate::error::spec_message;
pub use crate::error::spec_message_prefix;
pub use crate::error::Error;

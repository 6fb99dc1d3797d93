mod application;
mod calendar;
mod entry;
mod error;
mod info;

pub use application::lemma_optional_field_tokens;
pub use application::spec_flag_tokens;
pub use application::spec_opt_value_tokens;
pub use application::ToArgVector;
pub use application::ZenityApplication;
pub use calendar::Calendar;
pub use calendar::Date;
pub use calendar::Month;
pub use entry::Entry;
pub use error::Error;
pub use info::Info;

use self::application::prefixed;
use crate::arg::spec_render;
use crate::arg::Arg;
use crate::numfmt::spec_decimal;
use crate::numfmt::u64_to_string;
use crate::numfmt::usize_to_string;
use vstd::prelude::*;
use vstd::string::*;

verus! {

/// An icon for a dialog. [`Icon::Error`], [`Icon::Info`], [`Icon::Question`]
/// and [`Icon::Warning`] are the standard icons; [`Icon::IconPath`] carries
/// the path of a custom icon.
#[derive(Debug, Clone, PartialEq)]
pub enum Icon {
    /// An error icon
    Error,
    /// An info icon
    Info,
    /// A question icon
    Question,
    /// A warning icon
    Warning,
    /// A path to a custom icon
    IconPath(String),
}

impl Icon {
    /// The text the icon renders to: a fixed lowercase tag, or the custom
    /// icon's path.
    pub open spec fn spec_render(&self) -> Seq<char> {
        match self {
            Icon::Error => "error"@,
            Icon::Info => "info"@,
            Icon::Question => "question"@,
            Icon::Warning => "warning"@,
            Icon::IconPath(path) => path@,
        }
    }

    /// Render the icon for the `--icon-name` token.
    pub fn render(&self) -> (r: String)
        ensures
            r@ == self.spec_render(),
    {
        match self {
            Icon::Error => String::from_str("error"),
            Icon::Info => String::from_str("info"),
            Icon::Question => String::from_str("question"),
            Icon::Warning => String::from_str("warning"),
            Icon::IconPath(path) => path.clone(),
        }
    }
}

/// What `str::trim` returns: the text with leading and trailing whitespace
/// removed, a function of the characters alone.
pub uninterp spec fn spec_trimmed(s: Seq<char>) -> Seq<char>;

/// Relies on `str::trim`: it returns the text with leading and trailing
/// whitespace removed, so it depends on the characters alone and an empty
/// input stays empty.
#[verifier::external_body]
fn trim_str<'a>(s: &'a str) -> (r: &'a str)
    ensures
        r@ == spec_trimmed(s@),
        s@.len() == 0 ==> r@.len() == 0,
{
    s.trim()
}

/// The mathematical content of a [`ZenityOutput`].
#[verifier::ext_equal]
pub enum OutcomeModel<V> {
    /// The user affirmed, with the parsed output when there was any.
    Affirmed { content: Option<V> },
    /// The user rejected, with the trimmed raw output when there was any.
    Rejected { content: Option<Seq<char>> },
    /// An exit code the decision table does not recognize.
    Unknown { exit_code: int, stdout: Seq<char>, stderr: Seq<char> },
}

/// The mathematical content of a [`ZenityOutputExtButton`].
#[verifier::ext_equal]
pub enum OutcomeExtModel<V> {
    /// The user affirmed, with the parsed output when there was any.
    Affirmed { content: Option<V> },
    /// The user rejected, with the trimmed raw output when there was any.
    Rejected { content: Option<Seq<char>> },
    /// The user clicked the extra button; the content is its label.
    ExtButton { content: Seq<char> },
    /// An exit code the decision table does not recognize.
    Unknown { exit_code: int, stdout: Seq<char>, stderr: Seq<char> },
}

/// The user's response to a dialog.
#[derive(Debug, Clone, PartialEq)]
pub enum ZenityOutput<T> {
    /// The user clicked the button that indicates an affirmative response.
    Affirmed {
        /// The tool's parsed output, when it printed any.
        content: Option<T>,
    },
    /// The user clicked a button indicating rejection.
    Rejected {
        /// The tool's trimmed raw output, when it printed any.
        content: Option<String>,
    },
    /// The tool returned an exit code the decision table does not recognize;
    /// the full details are kept so the caller may respond as needed.
    Unknown {
        /// The returned exit code.
        exit_code: i32,
        /// The trimmed content the tool returned to stdout.
        stdout: String,
        /// The content the tool returned to stderr.
        stderr: String,
    },
}

impl<T: DeepView> View for ZenityOutput<T> {
    type V = OutcomeModel<T::V>;

    open spec fn view(&self) -> OutcomeModel<T::V> {
        match self {
            ZenityOutput::Affirmed { content } => OutcomeModel::Affirmed {
                content: content.deep_view(),
            },
            ZenityOutput::Rejected { content } => OutcomeModel::Rejected {
                content: content.deep_view(),
            },
            ZenityOutput::Unknown { exit_code, stdout, stderr } => OutcomeModel::Unknown {
                exit_code: *exit_code as int,
                stdout: stdout@,
                stderr: stderr@,
            },
        }
    }
}

/// The user's response to a dialog configured with an extra button.
#[derive(Debug, Clone, PartialEq)]
pub enum ZenityOutputExtButton<T> {
    /// The user clicked the button that indicates an affirmative response.
    Affirmed {
        /// The tool's parsed output, when it printed any.
        content: Option<T>,
    },
    /// The user clicked a button indicating rejection.
    Rejected {
        /// The tool's trimmed raw output, when it printed any.
        content: Option<String>,
    },
    /// The user clicked the extra button.
    ExtButton {
        /// The content of the extra button: its configured label.
        content: String,
    },
    /// The tool returned an exit code the decision table does not recognize;
    /// the full details are kept so the caller may respond as needed.
    Unknown {
        /// The returned exit code.
        exit_code: i32,
        /// The trimmed content the tool returned to stdout.
        stdout: String,
        /// The content the tool returned to stderr.
        stderr: String,
    },
}

impl<T: DeepView> View for ZenityOutputExtButton<T> {
    type V = OutcomeExtModel<T::V>;

    open spec fn view(&self) -> OutcomeExtModel<T::V> {
        match self {
            ZenityOutputExtButton::Affirmed { content } => OutcomeExtModel::Affirmed {
                content: content.deep_view(),
            },
            ZenityOutputExtButton::Rejected { content } => OutcomeExtModel::Rejected {
                content: content.deep_view(),
            },
            ZenityOutputExtButton::ExtButton { content } => OutcomeExtModel::ExtButton {
                content: content@,
            },
            ZenityOutputExtButton::Unknown { exit_code, stdout, stderr } => OutcomeExtModel::Unknown {
                exit_code: *exit_code as int,
                stdout: stdout@,
                stderr: stderr@,
            },
        }
    }
}

/// A base outcome re-tagged into the extra-button outcome type, field for
/// field.
pub open spec fn spec_lift<V>(out: OutcomeModel<V>) -> OutcomeExtModel<V> {
    match out {
        OutcomeModel::Affirmed { content } => OutcomeExtModel::Affirmed { content },
        OutcomeModel::Rejected { content } => OutcomeExtModel::Rejected { content },
        OutcomeModel::Unknown { exit_code, stdout, stderr } => OutcomeExtModel::Unknown {
            exit_code,
            stdout,
            stderr,
        },
    }
}

/// Extra-button post-processing: a rejection whose content equals the extra
/// button's label becomes [`OutcomeExtModel::ExtButton`]; every other outcome
/// passes through re-tagged, field for field.
pub open spec fn spec_remap<V>(out: OutcomeModel<V>, label: Seq<char>) -> OutcomeExtModel<V> {
    match out {
        OutcomeModel::Rejected { content: Some(s) } => if s == label {
            OutcomeExtModel::ExtButton { content: s }
        } else {
            OutcomeExtModel::Rejected { content: Some(s) }
        },
        _ => spec_lift(out),
    }
}

impl<T: DeepView> ZenityOutputExtButton<T> {
    /// Re-tag a base outcome into the extra-button outcome type, field for
    /// field; the extra-button case is never produced here.
    pub fn from_output(output: ZenityOutput<T>) -> (r: Self)
        ensures
            r@ == spec_lift(output@),
    {
        match output {
            ZenityOutput::Affirmed { content } => ZenityOutputExtButton::Affirmed { content },
            ZenityOutput::Rejected { content } => ZenityOutputExtButton::Rejected { content },
            ZenityOutput::Unknown { exit_code, stdout, stderr } => ZenityOutputExtButton::Unknown {
                exit_code,
                stdout,
                stderr,
            },
        }
    }
}

/// The decision table mapping an invocation's exit code and already-trimmed
/// output to an outcome. The table is keyed on the exit code and on whether
/// the trimmed stdout is empty: 0 affirms, 1 and 256 both reject, and
/// anything else is surfaced verbatim as unknown. `Err` marks the one fatal
/// case: an affirmative response whose output the kind-specific parser
/// rejects.
pub open spec fn spec_classify_trimmed<T: ZenityApplication>(
    app: T,
    exit_code: int,
    trimmed: Seq<char>,
    stderr: Seq<char>,
) -> Result<OutcomeModel<<T::Return as DeepView>::V>, ()> {
    if exit_code == 0 {
        if trimmed.len() == 0 {
            Ok(OutcomeModel::Affirmed { content: None })
        } else {
            match app.spec_parse(trimmed) {
                Some(v) => Ok(OutcomeModel::Affirmed { content: Some(v) }),
                None => Err(()),
            }
        }
    } else if exit_code == 1 || exit_code == 256 {
        if trimmed.len() == 0 {
            Ok(OutcomeModel::Rejected { content: None })
        } else {
            Ok(OutcomeModel::Rejected { content: Some(trimmed) })
        }
    } else {
        Ok(OutcomeModel::Unknown { exit_code: exit_code, stdout: trimmed, stderr: stderr })
    }
}

/// The decision table of [`spec_classify_trimmed`], applied to raw stdout by
/// trimming it first.
pub open spec fn spec_classify<T: ZenityApplication>(
    app: T,
    exit_code: int,
    stdout: Seq<char>,
    stderr: Seq<char>,
) -> Result<OutcomeModel<<T::Return as DeepView>::V>, ()> {
    spec_classify_trimmed(app, exit_code, spec_trimmed(stdout), stderr)
}

/// Law: outcome classification is a pure function of the exit code and the
/// captured stdout and stderr. Identical inputs always yield identical
/// outcomes.
pub proof fn lemma_classify_deterministic<T: ZenityApplication>(
    app1: T,
    app2: T,
    code1: int,
    code2: int,
    stdout1: Seq<char>,
    stdout2: Seq<char>,
    stderr1: Seq<char>,
    stderr2: Seq<char>,
)
    requires
        app1 == app2,
        code1 == code2,
        stdout1 == stdout2,
        stderr1 == stderr2,
    ensures
        spec_classify(app1, code1, stdout1, stderr1) == spec_classify(app2, code2, stdout2, stderr2),
{
}

/// The mathematical content of a [`ZenityDialog`]: the kind configuration,
/// each shared optional field, and the accumulated free-form tokens.
#[verifier::ext_equal]
pub struct DialogModel<T> {
    /// The kind configuration.
    pub application: T,
    /// The title displayed at the top of the dialog.
    pub title: Option<Seq<char>>,
    /// Override for the default icon.
    pub icon: Option<Icon>,
    /// Override for the default width of the dialog.
    pub width: Option<usize>,
    /// Override for the default height of the dialog.
    pub height: Option<usize>,
    /// Seconds after which the dialog closes by itself.
    pub timeout: Option<u64>,
    /// Extra hint text for the user.
    pub modal_hint: Option<Seq<char>>,
    /// The free-form extra tokens, already rendered, in call order.
    pub additional_args: Seq<Seq<char>>,
}

impl<T: ZenityApplication> DialogModel<T> {
    /// The full argument vector: the kind's tokens, then each set shared
    /// field's token in a fixed order, then the free-form extra tokens.
    pub open spec fn spec_argv(&self) -> Seq<Seq<char>> {
        self.application.spec_argv() + application::spec_opt_value_tokens("--title="@, self.title)
            + application::spec_opt_value_tokens(
            "--icon-name="@,
            (match self.icon {
                Some(i) => Some(i.spec_render()),
                None => None,
            }),
        )
            + application::spec_opt_value_tokens(
            "--width="@,
            (match self.width {
                Some(w) => Some(spec_decimal(w as nat)),
                None => None,
            }),
        )
            + application::spec_opt_value_tokens(
            "--height="@,
            (match self.height {
                Some(h) => Some(spec_decimal(h as nat)),
                None => None,
            }),
        )
            + application::spec_opt_value_tokens(
            "--timeout="@,
            (match self.timeout {
                Some(t) => Some(spec_decimal(t as nat)),
                None => None,
            }),
        )
            + application::spec_opt_value_tokens("--modal="@, self.modal_hint)
            + self.additional_args
    }
}

/// The configuration for one dialog invocation: a dialog-kind configuration
/// plus the shared optional fields.
#[derive(Debug, Clone)]
pub struct ZenityDialog<T: ZenityApplication> {
    /// The kind of dialog to display.
    pub application: T,
    /// The title displayed at the top of the dialog.
    pub title: Option<String>,
    /// Override for the default icon.
    pub icon: Option<Icon>,
    /// Override for the default width of the dialog.
    pub width: Option<usize>,
    /// Override for the default height of the dialog.
    pub height: Option<usize>,
    /// Seconds after which the dialog closes by itself, enforced by the tool
    /// through its `--timeout` option.
    pub timeout: Option<u64>,
    /// Extra hint text for the user.
    pub modal_hint: Option<String>,
    additional_args: Vec<String>,
}

impl<T: ZenityApplication> View for ZenityDialog<T> {
    type V = DialogModel<T>;

    closed spec fn view(&self) -> DialogModel<T> {
        DialogModel {
            application: self.application,
            title: self.title.deep_view(),
            icon: self.icon,
            width: self.width,
            height: self.height,
            timeout: self.timeout,
            modal_hint: self.modal_hint.deep_view(),
            additional_args: self.additional_args.deep_view(),
        }
    }
}

impl<T: ZenityApplication> ZenityDialog<T> {
    /// A dialog of the given kind with every shared option unset.
    pub fn new(application: T) -> (r: Self)
        ensures
            r@ == (DialogModel {
                application,
                title: None::<Seq<char>>,
                icon: None::<Icon>,
                width: None::<usize>,
                height: None::<usize>,
                timeout: None::<u64>,
                modal_hint: None::<Seq<char>>,
                additional_args: Seq::<Seq<char>>::empty(),
            }),
    {
        let r = ZenityDialog {
            application,
            title: None,
            icon: None,
            width: None,
            height: None,
            timeout: None,
            modal_hint: None,
            additional_args: Vec::new(),
        };
        proof {
            assert(r@.additional_args =~= Seq::<Seq<char>>::empty());
        }
        r
    }

    /// Provide a custom title for the dialog.
    pub fn with_title(self, title: String) -> (r: Self)
        ensures
            r@ == (DialogModel { title: Some(title@), ..self@ }),
    {
        ZenityDialog { title: Some(title), ..self }
    }

    /// Override the default icon.
    pub fn with_icon(self, icon: Icon) -> (r: Self)
        ensures
            r@ == (DialogModel { icon: Some(icon), ..self@ }),
    {
        ZenityDialog { icon: Some(icon), ..self }
    }

    /// Set a specific width for the dialog.
    pub fn with_width(self, width: usize) -> (r: Self)
        ensures
            r@ == (DialogModel { width: Some(width), ..self@ }),
    {
        ZenityDialog { width: Some(width), ..self }
    }

    /// Set a specific height for the dialog.
    pub fn with_height(self, height: usize) -> (r: Self)
        ensures
            r@ == (DialogModel { height: Some(height), ..self@ }),
    {
        ZenityDialog { height: Some(height), ..self }
    }

    /// Make the dialog close by itself after the given number of seconds.
    pub fn with_timeout(self, timeout: u64) -> (r: Self)
        ensures
            r@ == (DialogModel { timeout: Some(timeout), ..self@ }),
    {
        ZenityDialog { timeout: Some(timeout), ..self }
    }

    /// Render a hint displaying the provided text.
    pub fn with_modal_hint(self, modal_hint: String) -> (r: Self)
        ensures
            r@ == (DialogModel { modal_hint: Some(modal_hint@), ..self@ }),
    {
        ZenityDialog { modal_hint: Some(modal_hint), ..self }
    }

    /// Attach an additional custom argument, for options that have no
    /// dedicated setter. The token is normalized as [`Arg::render`] does, so
    /// the name may be supplied with or without its `--` prefix.
    pub fn with_additional_arg(self, arg: Arg) -> (r: Self)
        ensures
            r@ == (DialogModel {
                additional_args: self@.additional_args.push(spec_render(arg@)),
                ..self@
            }),
    {
        let mut s = self;
        let rendered = arg.render();
        s.additional_args.push(rendered);
        s
    }

    /// Like [`ZenityDialog::with_additional_arg`], but appends a whole vector
    /// of arguments in order.
    pub fn with_additional_args(self, args: Vec<Arg>) -> (r: Self)
        ensures
            r@ == (DialogModel {
                additional_args: self@.additional_args + args@.map_values(
                    |a: Arg| spec_render(a@),
                ),
                ..self@
            }),
    {
        let ghost orig = self@;
        let mut s = self;
        let mut i: usize = 0;
        while i < args.len()
            invariant
                i <= args.len(),
                s@ == (DialogModel {
                    additional_args: orig.additional_args + args@.subrange(0, i as int).map_values(
                        |a: Arg| spec_render(a@),
                    ),
                    ..orig
                }),
            decreases args.len() - i,
        {
            let rendered = (&args[i]).render();
            let ghost before = s.additional_args.deep_view();
            s.additional_args.push(rendered);
            proof {
                assert(s.additional_args.deep_view() =~= before.push(rendered@));
                assert(args@.subrange(0, i + 1 as int) =~= args@.subrange(0, i as int).push(
                    args@[i as int],
                ));
                assert(args@.subrange(0, i + 1 as int).map_values(|a: Arg| spec_render(a@))
                    =~= args@.subrange(0, i as int).map_values(|a: Arg| spec_render(a@)).push(
                    spec_render(args@[i as int]@),
                ));
                assert(s.additional_args.deep_view() =~= orig.additional_args + args@.subrange(
                    0,
                    i + 1 as int,
                ).map_values(|a: Arg| spec_render(a@)));
                assert(s@ =~~= (DialogModel {
                    additional_args: orig.additional_args + args@.subrange(0, i + 1 as int)
                        .map_values(|a: Arg| spec_render(a@)),
                    ..orig
                }));
            }
            i = i + 1;
        }
        proof {
            assert(args@.subrange(0, args@.len() as int) =~= args@);
        }
        s
    }

    /// Render an extra button with the provided text as its label. The
    /// returned wrapper classifies responses into the broader
    /// [`ZenityOutputExtButton`] type.
    pub fn with_extra_button(self, extra_button_label: String) -> (r: ZenityDialogExtButton<T>)
        ensures
            r@ == (DialogExtModel { inner: self@, extra_button_label: extra_button_label@ }),
    {
        ZenityDialogExtButton { inner: self, extra_button_label }
    }

    /// Convert the settings into the full argument vector, draining the
    /// accumulated free-form tokens: the dialog is not safely re-invocable
    /// afterwards.
    #[verifier::rlimit(50)]
    pub fn get_argv(&mut self) -> (args: Vec<String>)
        ensures
            args.deep_view() == old(self)@.spec_argv(),
            final(self)@ == (DialogModel {
                additional_args: Seq::<Seq<char>>::empty(),
                ..old(self)@
            }),
    {
        let mut args = self.application.to_argv();
        if let Some(title) = &self.title {
            args.push(prefixed("--title=", title.as_str()));
        }
        if let Some(icon) = &self.icon {
            args.push(prefixed("--icon-name=", icon.render().as_str()));
        }
        if let Some(width) = &self.width {
            args.push(prefixed("--width=", usize_to_string(*width).as_str()));
        }
        if let Some(height) = &self.height {
            args.push(prefixed("--height=", usize_to_string(*height).as_str()));
        }
        if let Some(timeout) = &self.timeout {
            args.push(prefixed("--timeout=", u64_to_string(*timeout).as_str()));
        }
        if let Some(modal_hint) = &self.modal_hint {
            args.push(prefixed("--modal=", modal_hint.as_str()));
        }
        args.append(&mut self.additional_args);
        proof {
            assert(args.deep_view() =~~= old(self)@.spec_argv());
            assert(self@ =~~= (DialogModel {
                additional_args: Seq::<Seq<char>>::empty(),
                ..old(self)@
            }));
        }
        args
    }

    /// Map a completed invocation's exit code and captured output to a typed
    /// outcome, where the output has already been trimmed of surrounding
    /// whitespace, following the fixed decision table of
    /// [`spec_classify_trimmed`]. The only error case is an affirmative
    /// response whose output the kind-specific parser rejects.
    pub fn classify_trimmed_output(&self, exit_code: i32, trimmed: &str, stderr: String) -> (r:
        Result<ZenityOutput<T::Return>, crate::error::Error>)
        ensures
            match r {
                Ok(out) => spec_classify_trimmed(
                    self@.application,
                    exit_code as int,
                    trimmed@,
                    stderr@,
                ) matches Ok(m) && m == out@,
                Err(e) => spec_classify_trimmed(
                    self@.application,
                    exit_code as int,
                    trimmed@,
                    stderr@,
                ) is Err && e is ParseResultFailure,
            },
    {
        if exit_code == 0 {
            if trimmed.is_empty() {
                Ok(ZenityOutput::Affirmed { content: None })
            } else {
                match self.application.parse(trimmed) {
                    Ok(v) => Ok(ZenityOutput::Affirmed { content: Some(v) }),
                    Err(e) => Err(e),
                }
            }
        } else if exit_code == 1 || exit_code == 256 {
            if trimmed.is_empty() {
                Ok(ZenityOutput::Rejected { content: None })
            } else {
                Ok(ZenityOutput::Rejected { content: Some(trimmed.to_owned()) })
            }
        } else {
            Ok(
                ZenityOutput::Unknown {
                    exit_code,
                    stdout: trimmed.to_owned(),
                    stderr,
                },
            )
        }
    }

    /// Map a completed invocation's exit code and raw captured output to a
    /// typed outcome: stdout is trimmed of surrounding whitespace and then
    /// classified by the fixed decision table of [`spec_classify_trimmed`].
    pub fn classify_output(&self, exit_code: i32, stdout: &str, stderr: String) -> (r: Result<
        ZenityOutput<T::Return>,
        crate::error::Error,
    >)
        ensures
            match r {
                Ok(out) => spec_classify(self@.application, exit_code as int, stdout@, stderr@)
                    matches Ok(m) && m == out@,
                Err(e) => spec_classify(self@.application, exit_code as int, stdout@, stderr@)
                    is Err && e is ParseResultFailure,
            },
    {
        let trimmed = trim_str(stdout);
        self.classify_trimmed_output(exit_code, trimmed, stderr)
    }
}

/// The mathematical content of a [`ZenityDialogExtButton`]: the wrapped
/// dialog and the extra button's label.
#[verifier::ext_equal]
pub struct DialogExtModel<T> {
    /// The wrapped dialog.
    pub inner: DialogModel<T>,
    /// The extra button's label.
    pub extra_button_label: Seq<char>,
}

impl<T: ZenityApplication> DialogExtModel<T> {
    /// The full argument vector: the wrapped dialog's tokens, then the
    /// `--extra-button` token as the final one.
    pub open spec fn spec_argv(&self) -> Seq<Seq<char>> {
        self.inner.spec_argv() + seq!["--extra-button="@ + self.extra_button_label]
    }
}

/// A dialog with an extra button configured. Its responses classify into
/// [`ZenityOutputExtButton`], which adds the extra-button case.
#[derive(Debug, Clone)]
pub struct ZenityDialogExtButton<T: ZenityApplication> {
    inner: ZenityDialog<T>,
    extra_button_label: String,
}

impl<T: ZenityApplication> View for ZenityDialogExtButton<T> {
    type V = DialogExtModel<T>;

    closed spec fn view(&self) -> DialogExtModel<T> {
        DialogExtModel { inner: self.inner@, extra_button_label: self.extra_button_label@ }
    }
}

impl<T: ZenityApplication> ZenityDialogExtButton<T> {
    /// Provide a custom title for the dialog.
    pub fn with_title(self, title: String) -> (r: Self)
        ensures
            r@ == (DialogExtModel {
                inner: DialogModel { title: Some(title@), ..self@.inner },
                ..self@
            }),
    {
        ZenityDialogExtButton { inner: self.inner.with_title(title), ..self }
    }

    /// Override the default icon.
    pub fn with_icon(self, icon: Icon) -> (r: Self)
        ensures
            r@ == (DialogExtModel { inner: DialogModel { icon: Some(icon), ..self@.inner }, ..self@ }),
    {
        ZenityDialogExtButton { inner: self.inner.with_icon(icon), ..self }
    }

    /// Set a specific width for the dialog.
    pub fn with_width(self, width: usize) -> (r: Self)
        ensures
            r@ == (DialogExtModel {
                inner: DialogModel { width: Some(width), ..self@.inner },
                ..self@
            }),
    {
        ZenityDialogExtButton { inner: self.inner.with_width(width), ..self }
    }

    /// Set a specific height for the dialog.
    pub fn with_height(self, height: usize) -> (r: Self)
        ensures
            r@ == (DialogExtModel {
                inner: DialogModel { height: Some(height), ..self@.inner },
                ..self@
            }),
    {
        ZenityDialogExtButton { inner: self.inner.with_height(height), ..self }
    }

    /// Make the dialog close by itself after the given number of seconds.
    pub fn with_timeout(self, timeout: u64) -> (r: Self)
        ensures
            r@ == (DialogExtModel {
                inner: DialogModel { timeout: Some(timeout), ..self@.inner },
                ..self@
            }),
    {
        ZenityDialogExtButton { inner: self.inner.with_timeout(timeout), ..self }
    }

    /// Render a hint displaying the provided text.
    pub fn with_modal_hint(self, modal_hint: String) -> (r: Self)
        ensures
            r@ == (DialogExtModel {
                inner: DialogModel { modal_hint: Some(modal_hint@), ..self@.inner },
                ..self@
            }),
    {
        ZenityDialogExtButton { inner: self.inner.with_modal_hint(modal_hint), ..self }
    }

    /// Attach an additional custom argument, normalized as [`Arg::render`]
    /// does.
    pub fn with_additional_arg(self, arg: Arg) -> (r: Self)
        ensures
            r@ == (DialogExtModel {
                inner: DialogModel {
                    additional_args: self@.inner.additional_args.push(spec_render(arg@)),
                    ..self@.inner
                },
                ..self@
            }),
    {
        ZenityDialogExtButton { inner: self.inner.with_additional_arg(arg), ..self }
    }

    /// Like [`ZenityDialogExtButton::with_additional_arg`], but appends a
    /// whole vector of arguments in order.
    pub fn with_additional_args(self, args: Vec<Arg>) -> (r: Self)
        ensures
            r@ == (DialogExtModel {
                inner: DialogModel {
                    additional_args: self@.inner.additional_args + args@.map_values(
                        |a: Arg| spec_render(a@),
                    ),
                    ..self@.inner
                },
                ..self@
            }),
    {
        ZenityDialogExtButton { inner: self.inner.with_additional_args(args), ..self }
    }

    /// Convert the settings into the full argument vector, with the
    /// `--extra-button` token last, draining the wrapped dialog's free-form
    /// tokens.
    pub fn get_argv(&mut self) -> (args: Vec<String>)
        ensures
            args.deep_view() == old(self)@.spec_argv(),
            final(self)@ == (DialogExtModel {
                inner: DialogModel {
                    additional_args: Seq::<Seq<char>>::empty(),
                    ..old(self)@.inner
                },
                ..old(self)@
            }),
    {
        let mut args = self.inner.get_argv();
        args.push(prefixed("--extra-button=", self.extra_button_label.as_str()));
        proof {
            assert(args.deep_view() =~~= old(self)@.spec_argv());
            assert(self@ =~~= (DialogExtModel {
                inner: DialogModel {
                    additional_args: Seq::<Seq<char>>::empty(),
                    ..old(self)@.inner
                },
                ..old(self)@
            }));
        }
        args
    }

    /// Map a completed invocation's exit code and already-trimmed captured
    /// output to a typed outcome: the base decision table of
    /// [`spec_classify_trimmed`], then the extra-button post-processing of
    /// [`spec_remap`], which turns a rejection carrying exactly the extra
    /// button's label into the extra-button outcome.
    pub fn classify_trimmed_output(&self, exit_code: i32, trimmed: &str, stderr: String) -> (r:
        Result<ZenityOutputExtButton<T::Return>, crate::error::Error>)
        ensures
            match r {
                Ok(out) => spec_classify_trimmed(
                    self@.inner.application,
                    exit_code as int,
                    trimmed@,
                    stderr@,
                ) matches Ok(m) && out@ == spec_remap(m, self@.extra_button_label),
                Err(e) => spec_classify_trimmed(
                    self@.inner.application,
                    exit_code as int,
                    trimmed@,
                    stderr@,
                ) is Err && e is ParseResultFailure,
            },
    {
        match self.inner.classify_trimmed_output(exit_code, trimmed, stderr) {
            Err(e) => Err(e),
            Ok(out) => match out {
                ZenityOutput::Rejected { content: Some(content) } => {
                    if content == self.extra_button_label {
                        Ok(ZenityOutputExtButton::ExtButton { content })
                    } else {
                        Ok(ZenityOutputExtButton::Rejected { content: Some(content) })
                    }
                },
                other => Ok(ZenityOutputExtButton::from_output(other)),
            },
        }
    }

    /// Map a completed invocation's exit code and raw captured output to a
    /// typed outcome: stdout is trimmed of surrounding whitespace, classified
    /// by the base decision table, and post-processed by [`spec_remap`] for
    /// the extra button.
    pub fn classify_output(&self, exit_code: i32, stdout: &str, stderr: String) -> (r: Result<
        ZenityOutputExtButton<T::Return>,
        crate::error::Error,
    >)
        ensures
            match r {
                Ok(out) => spec_classify(
                    self@.inner.application,
                    exit_code as int,
                    stdout@,
                    stderr@,
                ) matches Ok(m) && out@ == spec_remap(m, self@.extra_button_label),
                Err(e) => spec_classify(self@.inner.application, exit_code as int, stdout@, stderr@)
                    is Err && e is ParseResultFailure,
            },
    {
        let trimmed = trim_str(stdout);
        self.classify_trimmed_output(exit_code, trimmed, stderr)
    }
}

} // verus!

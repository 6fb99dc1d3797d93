use crate::error::Error;
use vstd::prelude::*;
use vstd::string::*;

verus! {

/// Tokens contributed by an optional valued field: nothing when the field is
/// unset, the single token `prefix ++ value` when it is set.
pub open spec fn spec_opt_value_tokens(prefix: Seq<char>, value: Option<Seq<char>>) -> Seq<
    Seq<char>,
> {
    match value {
        Some(v) => seq![prefix + v],
        None => Seq::empty(),
    }
}

/// Tokens contributed by a boolean flag field: nothing when the flag is off,
/// the single bare token when it is on.
pub open spec fn spec_flag_tokens(token: Seq<char>, set: bool) -> Seq<Seq<char>> {
    if set {
        seq![token]
    } else {
        Seq::empty()
    }
}

/// Law: an unset optional field contributes no token, and a set one
/// contributes exactly one token, determined by the token prefix and the
/// field's value. Every configuration's token list is built from these two
/// forms, so the law covers each optional field of each dialog kind.
pub proof fn lemma_optional_field_tokens(prefix: Seq<char>)
    ensures
        spec_opt_value_tokens(prefix, None::<Seq<char>>).len() == 0,
        forall|v: Seq<char>| (#[trigger] spec_opt_value_tokens(prefix, Some(v))).len() == 1,
        forall|v: Seq<char>| (#[trigger] spec_opt_value_tokens(prefix, Some(v)))[0] == prefix + v,
        spec_flag_tokens(prefix, false).len() == 0,
        spec_flag_tokens(prefix, true).len() == 1,
        spec_flag_tokens(prefix, true)[0] == prefix,
{
}

/// `prefix ++ value` as an executable string.
pub fn prefixed(prefix: &str, value: &str) -> (r: String)
    ensures
        r@ == prefix@ + value@,
{
    String::from_str(prefix).concat(value)
}

/// The ability of a configuration to render itself into an ordered
/// command-line argument vector for the external tool.
pub trait ToArgVector {
    /// The fixed token identifying the dialog kind, such as `--calendar`.
    spec fn spec_kind_flag(&self) -> Seq<char>;

    /// The full token list this configuration renders to.
    spec fn spec_argv(&self) -> Seq<Seq<char>>;

    /// Render the configuration: the kind flag first, then one token per set
    /// field, in a fixed per-kind order.
    fn to_argv(&self) -> (args: Vec<String>)
        ensures
            args.deep_view() == self.spec_argv(),
            self.spec_argv().len() >= 1,
            self.spec_argv()[0] == self.spec_kind_flag(),
    ;
}

/// A dialog-kind configuration: it renders to tokens and parses the tool's
/// affirmative stdout into its kind-specific value.
pub trait ZenityApplication: ToArgVector {
    /// The value the tool's affirmative output parses into. Usually the raw
    /// string; the calendar kind parses it into a date.
    type Return: DeepView;

    /// What parsing yields, as a function of the raw output text alone:
    /// `None` exactly when parsing fails.
    spec fn spec_parse(&self, stdout: Seq<char>) -> Option<<Self::Return as DeepView>::V>;

    /// Parse the raw output from the tool into the kind-specific value.
    fn parse(&self, stdout: &str) -> (r: Result<Self::Return, Error>)
        ensures
            match r {
                Ok(v) => self.spec_parse(stdout@) == Some(v.deep_view()),
                Err(e) => self.spec_parse(stdout@) is None && e is ParseResultFailure,
            },
    ;
}

} // verus!

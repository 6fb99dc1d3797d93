use vstd::prelude::*;
use vstd::string::*;

verus! {

/// The mathematical content of an [`Arg`]: the raw option name as supplied by
/// the caller and the optional value.
pub struct ArgModel {
    pub name: Seq<char>,
    pub value: Option<Seq<char>>,
}

/// Whether a name already carries the leading `--` option prefix.
pub open spec fn has_dash_prefix(name: Seq<char>) -> bool {
    name.len() >= 2 && name[0] == '-' && name[1] == '-'
}

/// The name with one leading `--` removed, if present.
pub open spec fn strip_dash_prefix(name: Seq<char>) -> Seq<char> {
    if has_dash_prefix(name) {
        name.skip(2)
    } else {
        name
    }
}

/// What rendering an argument yields: exactly one `--` prefix, the normalized
/// name, and `=value` when a value is present.
pub open spec fn spec_render(a: ArgModel) -> Seq<char> {
    match a.value {
        Some(v) => seq!['-', '-'] + strip_dash_prefix(a.name) + seq!['='] + v,
        None => seq!['-', '-'] + strip_dash_prefix(a.name),
    }
}

/// A single command-line token, rendered as `--name` or `--name=value`.
///
/// The name may be supplied with or without a leading `--`: rendering strips
/// one such prefix before re-adding exactly one, so a doubled prefix never
/// occurs. For use with [`crate::ZenityDialog::with_additional_arg`], which
/// passes tokens that have no dedicated setter.
#[derive(Debug, Clone, PartialEq)]
pub struct Arg {
    name: String,
    value: Option<String>,
}

impl View for Arg {
    type V = ArgModel;

    closed spec fn view(&self) -> ArgModel {
        ArgModel { name: self.name@, value: self.value.deep_view() }
    }
}

impl Arg {
    /// A bare flag with no value, such as `--no-wrap`.
    pub fn new(name: String) -> (r: Self)
        ensures
            r@ == (ArgModel { name: name@, value: None::<Seq<char>> }),
    {
        Arg { name, value: None }
    }

    /// A name together with a value, rendered as `--name=value`.
    pub fn with_value(name: String, value: String) -> (r: Self)
        ensures
            r@ == (ArgModel { name: name@, value: Some(value@) }),
    {
        Arg { name, value: Some(value) }
    }

    /// Render the token, normalizing the name to exactly one `--` prefix.
    pub fn render(&self) -> (r: String)
        ensures
            r@ == spec_render(self@),
    {
        proof {
            reveal_strlit("--");
            reveal_strlit("=");
        }
        let name = self.name.as_str();
        let len = name.unicode_len();
        let stripped: &str = if len >= 2 && name.get_char(0) == '-' && name.get_char(1) == '-' {
            name.substring_char(2, len)
        } else {
            name
        };
        proof {
            assert(stripped@ =~= strip_dash_prefix(self@.name));
        }
        let mut out = String::from_str("--");
        out.append(stripped);
        match &self.value {
            Some(v) => {
                out.append("=");
                out.append(v.as_str());
                proof {
                    assert(out@ =~= spec_render(self@));
                }
            },
            None => {
                proof {
                    assert(out@ =~= spec_render(self@));
                }
            },
        }
        out
    }
}

/// Law: however the name was supplied, a rendered token carries exactly one
/// `--` prefix and never a doubled one, provided the name does not itself
/// begin with `--` twice over (after stripping one `--`, another remains).
pub proof fn lemma_render_no_doubled_prefix(a: ArgModel)
    requires
        !has_dash_prefix(strip_dash_prefix(a.name)),
    ensures
        has_dash_prefix(spec_render(a)),
        !has_dash_prefix(spec_render(a).skip(2)),
{
    let r = spec_render(a);
    assert(r[0] == '-' && r[1] == '-');
    let rest = r.skip(2);
    let stripped = strip_dash_prefix(a.name);
    match a.value {
        Some(v) => {
            assert(rest =~= stripped + seq!['='] + v);
            if rest.len() >= 2 {
                if stripped.len() >= 2 {
                    assert(rest[0] == stripped[0] && rest[1] == stripped[1]);
                } else if stripped.len() == 1 {
                    assert(rest[1] == '=');
                } else {
                    assert(rest[0] == '=');
                }
            }
        },
        None => {
            assert(rest =~= stripped);
        },
    }
}

/// Law: prepending `--` to a name that lacks the prefix does not change the
/// rendered token, so callers need not care which form they supply.
pub proof fn lemma_render_prefix_normalized(a: ArgModel)
    requires
        !has_dash_prefix(a.name),
    ensures
        spec_render(ArgModel { name: seq!['-', '-'] + a.name, value: a.value }) == spec_render(a),
{
    let prefixed = seq!['-', '-'] + a.name;
    assert(has_dash_prefix(prefixed));
    assert(strip_dash_prefix(prefixed) =~= a.name);
    assert(spec_render(ArgModel { name: prefixed, value: a.value }) =~= spec_render(a));
}

} // verus!

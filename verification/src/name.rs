//! The policy on stream names: which path segments may become part of a file name.

use vstd::prelude::*;

verus! {

/// Whether `c` is alphanumeric in the sense of `char::is_alphanumeric`:
/// alphabetic or numeric according to the Unicode tables that std carries.
pub uninterp spec fn alphanumeric(c: char) -> bool;

/// Trusted: `char::is_alphanumeric`. The contract only names the answer, which
/// depends on the character alone.
#[verifier::external_body]
fn is_alphanumeric(c: char) -> (yes: bool)
    ensures
        yes == alphanumeric(c),
{
    c.is_alphanumeric()
}

/// A character that may occur in a name: alphanumeric, `-` or `_`.
pub open spec fn name_char(c: char) -> bool {
    alphanumeric(c) || c == '-' || c == '_'
}

/// A name is valid when every one of its characters may occur in a name.
/// The empty name is valid.
pub open spec fn valid_name(name: Seq<char>) -> bool {
    forall|i: int| 0 <= i < name.len() ==> name_char(#[trigger] name[i])
}

/// Decides `name_char` for one character, given whether it is alphanumeric.
pub fn is_name_char(c: char, is_alphanumeric: bool) -> (yes: bool)
    ensures
        yes == (is_alphanumeric || c == '-' || c == '_'),
{
    is_alphanumeric || c == '-' || c == '_'
}

/// Whether `name` satisfies the name policy.
pub fn is_valid_name(name: &str) -> (ok: bool)
    ensures
        ok == valid_name(name@),
{
    let chars = name.chars();
    proof {
        vstd::string::axiom_spec_iter(name);
    }
    for c in it: chars
        invariant
            it.seq() == name@,
            forall|i: int| 0 <= i < it.index() ==> name_char(#[trigger] name@[i]),
    {
        if !is_name_char(c, is_alphanumeric(c)) {
            return false;
        }
    }
    true
}

} // verus!

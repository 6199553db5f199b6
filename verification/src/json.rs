//! JSON text, as serde_json writes it.
//!
//! A payload is a `serde_json::Value` that is carried through unread. What
//! serde_json makes of a value is named here, not described.

use vstd::prelude::*;

verus! {

/// Declares `serde_json::Value`, any JSON value. Nothing of it is read here.
#[verifier::external_type_specification]
#[verifier::external_body]
pub struct ExValue(serde_json::Value);

/// Declares `serde_json::Error`, what serde_json reports when it fails.
#[verifier::external_type_specification]
#[verifier::external_body]
pub struct ExError(serde_json::Error);

/// The indented JSON text of `payload`, or `None` where serde_json cannot
/// serialize it.
pub uninterp spec fn pretty_json_of(payload: serde_json::Value) -> Option<Seq<char>>;

/// The compact JSON text of the object whose one field `key` holds the string
/// `value`, both escaped as JSON asks.
pub uninterp spec fn json_object_of(key: Seq<char>, value: Seq<char>) -> Seq<char>;

/// Trusted: `serde_json::to_string_pretty`. Whether it succeeds, and the text
/// it gives, depend on the value alone.
#[verifier::external_body]
fn to_string_pretty(payload: &serde_json::Value) -> (text: Result<String, serde_json::Error>)
    ensures
        match text {
            Ok(t) => pretty_json_of(*payload) == Some(t@),
            Err(_) => pretty_json_of(*payload) is None,
        },
{
    serde_json::to_string_pretty(payload)
}

/// Whether JSON writes `text` between quotes as it stands: no character of
/// it is a quote, a backslash or a control character below the space.
pub open spec fn unescaped(text: Seq<char>) -> bool {
    forall|i: int|
        0 <= i < text.len() ==> {
            let c = #[trigger] text[i];
            ' ' <= c && c != '"' && c != '\\'
        }
}

/// `{"<key>":"<value>"}`, letter for letter.
pub open spec fn plain_object(key: Seq<char>, value: Seq<char>) -> Seq<char> {
    seq!['{', '"'] + key + seq!['"', ':', '"'] + value + seq!['"', '}']
}

/// Trusted: the `Display` form of the `serde_json::Value` that is an object
/// with the one field `key`, holding the string `value`.
///
/// The text depends on the two strings alone. The compact form puts no space
/// between its parts, and a string is written as it stands unless it holds a
/// quote, a backslash or a character below the space: so says serde_json's
/// table of escapes.
#[verifier::external_body]
pub(crate) fn object_to_string(key: &str, value: &str) -> (text: String)
    ensures
        text@ == json_object_of(key@, value@),
        unescaped(key@) && unescaped(value@) ==> text@ == plain_object(key@, value@),
{
    let mut fields = serde_json::Map::new();
    fields.insert(key.to_owned(), serde_json::Value::String(value.to_owned()));
    serde_json::Value::Object(fields).to_string()
}

/// The indented JSON text of `payload`, or `None` where it has none.
pub fn pretty_text(payload: &serde_json::Value) -> (text: Option<String>)
    ensures
        match text {
            Some(t) => pretty_json_of(*payload) == Some(t@),
            None => pretty_json_of(*payload) is None,
        },
{
    match to_string_pretty(payload) {
        Ok(t) => Some(t),
        Err(_) => None,
    }
}

} // verus!

//! The JSON parser this library relies on, and what it assumes of it.
use vstd::prelude::*;

verus! {

#[verifier::external_type_specification]
#[verifier::external_body]
pub struct ExValue(serde_json::Value);

#[verifier::external_type_specification]
#[verifier::external_body]
pub struct ExError(serde_json::Error);

/// The value that serde_json's parser makes of a text, or `None` where it
/// rejects the text. It depends on the characters of the text alone.
pub uninterp spec fn json_parse(s: Seq<char>) -> Option<serde_json::Value>;

/// Relies on `serde_json::from_str::<serde_json::Value>`: it either accepts
/// the text and builds its value, or rejects it. An empty text, and a text
/// whose first character is a backtick, cannot begin a JSON value and are
/// rejected.
#[verifier::external_body]
pub(crate) fn parse_json(text: &str) -> (r: Result<serde_json::Value, serde_json::Error>)
    ensures
        r is Ok <==> json_parse(text@) is Some,
        r is Ok ==> json_parse(text@) == Some(r->Ok_0),
        text@.len() == 0 ==> r is Err,
        text@.len() > 0 && text@[0] == '`' ==> r is Err,
{
    serde_json::from_str::<serde_json::Value>(text)
}

} // verus!

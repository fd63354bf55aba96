//! The parts of serde_json that the tool executor relies on. Each result is
//! named as a function of the JSON text it was read from.

use vstd::prelude::*;

verus! {

/// The text of serde_json's error for a text that `serde_json::from_str`
/// refuses; `None` for a text that it accepts.
pub uninterp spec fn json_parse_error(doc: Seq<char>) -> Option<Seq<char>>;

/// The string held under `key` in the document, where the document is an
/// object with a string member of that name.
pub uninterp spec fn json_text_member(doc: Seq<char>, key: Seq<char>) -> Option<Seq<char>>;

/// The integer held under `key` in the document, where that member is an
/// integer that fits in an `i64`.
pub uninterp spec fn json_int_member(doc: Seq<char>, key: Seq<char>) -> Option<i64>;

/// Whether the document holds a number of any kind under `key`.
pub uninterp spec fn json_number_member(doc: Seq<char>, key: Seq<char>) -> bool;

/// Relies on serde_json::from_str: whether it accepts the text, and the text
/// of its error where it does not.
#[verifier::external_body]
pub(crate) fn parse_error(doc: &str) -> (r: Option<String>)
    ensures
        crate::model::text_view(r) == json_parse_error(doc@),
{
    match serde_json::from_str::<serde_json::Value>(doc) {
        Ok(_) => None,
        Err(e) => Some(e.to_string()),
    }
}

/// Relies on serde_json::Value::as_str, applied to the member that
/// serde_json::Value::get finds under `key` in the parsed text.
#[verifier::external_body]
pub(crate) fn text_member(doc: &str, key: &str) -> (r: Option<String>)
    ensures
        crate::model::text_view(r) == json_text_member(doc@, key@),
{
    match serde_json::from_str::<serde_json::Value>(doc) {
        Ok(v) => match v.get(key) {
            Some(m) => m.as_str().map(String::from),
            None => None,
        },
        Err(_) => None,
    }
}

/// Relies on serde_json::Value::as_i64, applied to the member that
/// serde_json::Value::get finds under `key` in the parsed text.
#[verifier::external_body]
pub(crate) fn int_member(doc: &str, key: &str) -> (r: Option<i64>)
    ensures
        r == json_int_member(doc@, key@),
{
    match serde_json::from_str::<serde_json::Value>(doc) {
        Ok(v) => match v.get(key) {
            Some(m) => m.as_i64(),
            None => None,
        },
        Err(_) => None,
    }
}

/// Relies on serde_json::Value::is_number, applied to the member that
/// serde_json::Value::get finds under `key` in the parsed text.
#[verifier::external_body]
pub(crate) fn number_member(doc: &str, key: &str) -> (r: bool)
    ensures
        r == json_number_member(doc@, key@),
{
    match serde_json::from_str::<serde_json::Value>(doc) {
        Ok(v) => match v.get(key) {
            Some(m) => m.is_number(),
            None => false,
        },
        Err(_) => false,
    }
}

} // verus!

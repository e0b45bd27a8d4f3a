//! Queries on JSON documents held as text.
use vstd::prelude::*;

verus! {

/// The string found at `pointer` (a JSON Pointer) in the JSON document
/// `text`; none when `text` is not JSON, nothing is there, or what is there
/// is not a string.
pub uninterp spec fn json_string_at(text: Seq<char>, pointer: Seq<char>) -> Option<Seq<char>>;

/// The integer found at `pointer` in the JSON document `text`, if it fits an
/// `i64`.
pub uninterp spec fn json_int_at(text: Seq<char>, pointer: Seq<char>) -> Option<int>;

/// The length of the array found at `pointer` in the JSON document `text`.
pub uninterp spec fn json_array_len_at(text: Seq<char>, pointer: Seq<char>) -> Option<nat>;

/// `text` is one JSON document.
pub uninterp spec fn is_json_text(text: Seq<char>) -> bool;

/// Relies on `serde_json::from_str` into a `serde_json::Value`, then
/// `Value::pointer` and `Value::as_str`: the string at `pointer`, if any.
#[verifier::external_body]
pub(crate) fn string_at(text: &str, pointer: &str) -> (r: Option<String>)
    ensures
        r matches Some(v) ==> json_string_at(text@, pointer@) == Some(v@),
        r is None ==> json_string_at(text@, pointer@) is None,
{
    let doc: serde_json::Value = serde_json::from_str(text).ok()?;
    doc.pointer(pointer)?.as_str().map(String::from)
}

/// Relies on `serde_json::from_str` into a `serde_json::Value`, then
/// `Value::pointer` and `Value::as_i64`: the integer at `pointer`, if any.
#[verifier::external_body]
pub(crate) fn int_at(text: &str, pointer: &str) -> (r: Option<i64>)
    ensures
        r matches Some(v) ==> json_int_at(text@, pointer@) == Some(v as int),
        r is None ==> json_int_at(text@, pointer@) is None,
{
    let doc: serde_json::Value = serde_json::from_str(text).ok()?;
    doc.pointer(pointer)?.as_i64()
}

/// Relies on `serde_json::from_str` into a `serde_json::Value`, then
/// `Value::pointer` and `Value::as_array`: the array's length, if there is
/// an array at `pointer`.
#[verifier::external_body]
pub(crate) fn array_len_at(text: &str, pointer: &str) -> (r: Option<usize>)
    ensures
        r matches Some(n) ==> json_array_len_at(text@, pointer@) == Some(n as nat),
        r is None ==> json_array_len_at(text@, pointer@) is None,
{
    let doc: serde_json::Value = serde_json::from_str(text).ok()?;
    doc.pointer(pointer)?.as_array().map(Vec::len)
}

/// Relies on `serde_json::from_str` into a `serde_json::Value`: whether
/// `text` parses as JSON.
#[verifier::external_body]
pub(crate) fn is_json(text: &str) -> (r: bool)
    ensures
        r == is_json_text(text@),
{
    serde_json::from_str::<serde_json::Value>(text).is_ok()
}

} // verus!

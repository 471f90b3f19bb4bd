//! The JSON documents that `serde_json` parses, and what the library reads of them.
//!
//! A [`serde_json::Value`] is opaque to the verifier. Its contents are named by
//! [`json_view`]; the accessors below are believed, not proved, to return what
//! that view holds.

use vstd::prelude::*;

verus! {

/// A JSON document as a mathematical value.
///
/// A number is held as the bit pattern of the double that `serde_json` reports
/// for it; an object maps each key to the value stored under it.
pub enum JsonView {
    Null,
    Bool(bool),
    Number(u64),
    Text(Seq<char>),
    Array(Seq<JsonView>),
    Object(Map<Seq<char>, JsonView>),
}

/// The value stored under `key`, when the record is an object that has the key.
pub open spec fn member(record: JsonView, key: Seq<char>) -> Option<JsonView> {
    match record {
        JsonView::Object(members) => if members.contains_key(key) {
            Some(members[key])
        } else {
            None
        },
        _ => None,
    }
}

/// Declares `serde_json::Value` as a type whose inside the verifier does not see.
#[verifier::external_type_specification]
#[verifier::external_body]
pub struct ExValue(serde_json::Value);

/// Declares `serde_json::Error` as a type whose inside the verifier does not see.
#[verifier::external_type_specification]
#[verifier::external_body]
pub struct ExError(serde_json::Error);

/// What a parsed document holds.
pub uninterp spec fn json_view(value: serde_json::Value) -> JsonView;

/// The document that `serde_json::from_slice` reads from the given bytes, if it
/// accepts them.
pub uninterp spec fn parsed_json(bytes: Seq<u8>) -> Option<JsonView>;

/// Calls `serde_json::from_slice` for a `Value`. The parser is a function of
/// the bytes alone: it succeeds exactly on the inputs on which [`parsed_json`]
/// is `Some`, and the value it returns holds that document.
#[verifier::external_body]
pub(crate) fn parse_value(bytes: &[u8]) -> (parsed: Result<serde_json::Value, serde_json::Error>)
    ensures
        match parsed {
            Ok(value) => parsed_json(bytes@) == Some(json_view(value)),
            Err(_) => parsed_json(bytes@).is_none(),
        },
{
    serde_json::from_slice(bytes)
}

/// Calls `Value::as_array`: the elements when the value is an array, `None`
/// for every other kind of value.
#[verifier::external_body]
pub(crate) fn value_as_array(value: &serde_json::Value) -> (items: Option<&Vec<serde_json::Value>>)
    ensures
        match items {
            Some(elements) => json_view(*value) == JsonView::Array(
                elements@.map_values(|element: serde_json::Value| json_view(element)),
            ),
            None => !(json_view(*value) is Array),
        },
{
    value.as_array()
}

/// Calls `Value::get` with a string key: the value stored under the key when
/// the receiver is an object that has the key, `None` otherwise.
#[verifier::external_body]
pub(crate) fn value_get<'a>(value: &'a serde_json::Value, key: &str) -> (found: Option<
    &'a serde_json::Value,
>)
    ensures
        match found {
            Some(stored) => member(json_view(*value), key@) == Some(json_view(*stored)),
            None => member(json_view(*value), key@).is_none(),
        },
{
    value.get(key)
}

/// Calls `Value::as_str`: the text when the value is a string, `None` for
/// every other kind of value.
#[verifier::external_body]
pub(crate) fn value_as_str(value: &serde_json::Value) -> (text: Option<&str>)
    ensures
        match text {
            Some(s) => json_view(*value) == JsonView::Text(s@),
            None => !(json_view(*value) is Text),
        },
{
    value.as_str()
}

/// Calls `Value::as_f64` and hands the double out as its bit pattern: the
/// number when the value is a number, `None` for every other kind of value.
#[verifier::external_body]
pub(crate) fn value_as_number_bits(value: &serde_json::Value) -> (bits: Option<u64>)
    ensures
        match bits {
            Some(b) => json_view(*value) == JsonView::Number(b),
            None => !(json_view(*value) is Number),
        },
{
    match value.as_f64() {
        Some(number) => Some(number.to_bits()),
        None => None,
    }
}

} // verus!

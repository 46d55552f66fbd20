//! JSON documents, handled by `serde_json`: parsing, taking fields out of an
//! object, and encoding.

use vstd::prelude::*;

verus! {

#[verifier::external_type_specification]
#[verifier::external_body]
pub struct ExValue(serde_json::Value);

#[verifier::external_type_specification]
#[verifier::external_body]
pub struct ExError(serde_json::Error);

/// What parsing `text` as one JSON document gives: the document, or the
/// error that says why `text` is not one.
pub uninterp spec fn json_parse(text: Seq<char>) -> Result<serde_json::Value, serde_json::Error>;

/// The field `key` of `document`; `None` where `document` is not an object or
/// has no such field.
pub uninterp spec fn json_member(document: serde_json::Value, key: Seq<char>) -> Option<
    serde_json::Value,
>;

/// `document` with its field `key` taken out.
pub uninterp spec fn json_without(document: serde_json::Value, key: Seq<char>) -> serde_json::Value;

/// The text that `value` holds, where it is a JSON string.
pub uninterp spec fn json_str(value: serde_json::Value) -> Option<Seq<char>>;

/// The compact JSON text of `value`, where it can be encoded.
pub uninterp spec fn json_text(value: serde_json::Value) -> Option<Seq<char>>;

/// Calls `serde_json::from_str` for a `Value`. Not proved: the outcome is
/// the one that `json_parse` names for this text.
#[verifier::external_body]
pub(crate) fn parse(text: &str) -> (parsed: Result<serde_json::Value, serde_json::Error>)
    ensures
        parsed == json_parse(text@),
{
    serde_json::from_str::<serde_json::Value>(text)
}

/// Calls `Value::as_object_mut` and `Map::remove`. Not proved: the field is
/// returned and leaves the document as `json_member` and `json_without` name
/// them.
#[verifier::external_body]
pub(crate) fn take_member(document: &mut serde_json::Value, key: &str) -> (member: Option<serde_json::Value>)
    ensures
        member == json_member(*old(document), key@),
        *final(document) == json_without(*old(document), key@),
{
    document.as_object_mut().and_then(|fields| fields.remove(key))
}

/// Calls `Value::as_str`. Not proved: the text is the one that `json_str`
/// names.
#[verifier::external_body]
pub(crate) fn string_of(value: &serde_json::Value) -> (text: Option<String>)
    ensures
        text is Some <==> json_str(*value) is Some,
        text is Some ==> text.unwrap()@ == json_str(*value).unwrap(),
{
    value.as_str().map(|text| text.to_owned())
}

/// Calls `serde_json::to_string`. Not proved: it succeeds exactly where
/// `json_text` names a text, and gives that text.
#[verifier::external_body]
pub(crate) fn encode(value: &serde_json::Value) -> (encoded: Result<String, serde_json::Error>)
    ensures
        encoded is Ok <==> json_text(*value) is Some,
        encoded is Ok ==> encoded.unwrap()@ == json_text(*value).unwrap(),
{
    serde_json::to_string(value)
}

/// The message of a JSON error.
pub fn map_err(e: serde_json::Error) -> (message: String)
    ensures
        vstd::string::to_string_from_display_ensures::<serde_json::Error>(&e, message),
{
    e.to_string()
}

/// Encodes `value` as compact JSON text.
///
/// Only for a value that can be encoded; [`try_json_string`] takes any.
pub fn json_string(value: serde_json::Value) -> (text: String)
    requires
        json_text(value) is Some,
    ensures
        text@ == json_text(value).unwrap(),
{
    encode(&value).expect("Failed to encode json")
}

/// Encodes `value` as compact JSON text, or gives `None` where it cannot be
/// encoded.
pub fn try_json_string(value: &serde_json::Value) -> (text: Option<String>)
    ensures
        text is Some <==> json_text(*value) is Some,
        text is Some ==> text.unwrap()@ == json_text(*value).unwrap(),
{
    encode(value).ok()
}

} // verus!

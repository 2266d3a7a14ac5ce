//! The JSON values that flow through tool calls.
//!
//! Tool arguments are `serde_json::Value`s. The library carries them
//! opaquely and asks `serde_json` for the few facts its logic needs.

use vstd::prelude::*;

verus! {

/// `serde_json::Value`, carried opaquely.
#[verifier::external_type_specification]
#[verifier::external_body]
pub struct ExJsonValue(serde_json::Value);

/// `serde_json::Error`, carried opaquely.
#[verifier::external_type_specification]
#[verifier::external_body]
pub struct ExJsonError(serde_json::Error);

/// The value `serde_json::from_str` parses out of `text`, if it is
/// valid JSON.
pub uninterp spec fn spec_json_parse(text: Seq<char>) -> Option<serde_json::Value>;

/// `serde_json::from_str::<Value>`: succeeds exactly when `text` is valid
/// JSON, and then yields the value that text denotes.
#[verifier::external_body]
pub(crate) fn json_parse(text: &str) -> (r: Result<serde_json::Value, serde_json::Error>)
    ensures
        r is Ok <==> spec_json_parse(text@) is Some,
        r matches Ok(v) ==> spec_json_parse(text@) == Some(v),
{
    serde_json::from_str::<serde_json::Value>(text)
}

/// The string a JSON value holds, if it is a JSON string.
pub uninterp spec fn spec_json_as_str(value: serde_json::Value) -> Option<Seq<char>>;

/// `serde_json::Value::as_str`: `Some` exactly for a JSON string, with
/// its content.
#[verifier::external_body]
pub(crate) fn json_as_str(value: &serde_json::Value) -> (r: Option<String>)
    ensures
        match r {
            Some(s) => spec_json_as_str(*value) == Some(s@),
            None => spec_json_as_str(*value) is None,
        },
{
    value.as_str().map(|s| s.to_string())
}

/// The entry stored under `key`, if `value` is an object holding one.
pub uninterp spec fn spec_json_get(value: serde_json::Value, key: Seq<char>) -> Option<
    serde_json::Value,
>;

/// `serde_json::Value::get` with a string key: the entry under `key` of
/// an object (a copy of it), `None` for a missing key or a non-object.
#[verifier::external_body]
pub(crate) fn json_get(value: &serde_json::Value, key: &str) -> (r: Option<serde_json::Value>)
    ensures
        r == spec_json_get(*value, key@),
{
    value.get(key).cloned()
}

/// Whether a JSON value is an object.
pub uninterp spec fn spec_json_is_object(value: serde_json::Value) -> bool;

/// `serde_json::Value::is_object`.
#[verifier::external_body]
pub(crate) fn json_is_object(value: &serde_json::Value) -> (b: bool)
    ensures
        b == spec_json_is_object(*value),
{
    value.is_object()
}

/// The boolean a JSON value holds, if it is a JSON boolean.
pub uninterp spec fn spec_json_as_bool(value: serde_json::Value) -> Option<bool>;

/// `serde_json::Value::as_bool`: `Some` exactly for a JSON boolean.
#[verifier::external_body]
pub(crate) fn json_as_bool(value: &serde_json::Value) -> (r: Option<bool>)
    ensures
        r == spec_json_as_bool(*value),
{
    value.as_bool()
}

/// The compact JSON text of a value (its `Display`).
pub uninterp spec fn spec_json_text(value: serde_json::Value) -> Seq<char>;

/// `serde_json::Value`'s `Display`: the compact JSON text of the value.
#[verifier::external_body]
pub(crate) fn json_text(value: &serde_json::Value) -> (text: String)
    ensures
        text@ == spec_json_text(*value),
{
    value.to_string()
}

/// `serde_json::Value::Null`: the value the text `null` parses to, which
/// is not a string.
#[verifier::external_body]
pub(crate) fn json_null() -> (v: serde_json::Value)
    ensures
        spec_json_parse(seq!['n', 'u', 'l', 'l']) == Some(v),
        spec_json_as_str(v) is None,
{
    serde_json::Value::Null
}

/// `Clone` of `serde_json::Value` (derived): the copy equals the value cloned.
pub assume_specification[ <serde_json::Value as Clone>::clone ](value: &serde_json::Value) -> (v:
    serde_json::Value)
    ensures
        v == *value,
;

/// `serde_json::Error`'s `Display` text. It describes the parse failure;
/// nothing about its wording is stated.
#[verifier::external_body]
pub(crate) fn json_error_text(error: &serde_json::Error) -> String {
    format!("{error}")
}

} // verus!

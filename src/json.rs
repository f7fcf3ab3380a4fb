//! Structured values of the interchange format, held as `serde_json` values.

use vstd::prelude::*;

verus! {

#[verifier::external_type_specification]
#[verifier::external_body]
pub struct ExValue(serde_json::Value);

/// Whether `serde_json` reads the text as one JSON document.
pub uninterp spec fn json_parses(text: Seq<char>) -> bool;

/// Relies on `serde_json::from_str::<Value>`: whether it succeeds depends on
/// the text alone.
#[verifier::external_body]
pub(crate) fn parse_json(text: &str) -> (r: Result<serde_json::Value, String>)
    ensures
        r is Ok <==> json_parses(text@),
{
    match serde_json::from_str::<serde_json::Value>(text) {
        Ok(v) => Ok(v),
        Err(e) => Err(e.to_string()),
    }
}

/// Relies on `serde_json::to_string` to write a value as text.
#[verifier::external_body]
pub(crate) fn write_json(value: &serde_json::Value) -> (r: Result<String, String>) {
    match serde_json::to_string(value) {
        Ok(s) => Ok(s),
        Err(e) => Err(e.to_string()),
    }
}

/// Relies on `serde_json::Value::get` and `serde_json::Value::as_str`: the
/// text stored under `key`, when the value is an object that holds a string
/// there.
#[verifier::external_body]
pub(crate) fn json_text_field(value: &serde_json::Value, key: &str) -> (r: Option<String>) {
    value.get(key).and_then(|v| v.as_str()).map(|s| s.to_string())
}

/// Relies on `serde_json::Value::is_null`.
#[verifier::external_body]
pub(crate) fn json_is_null(value: &serde_json::Value) -> (r: bool) {
    value.is_null()
}

/// Relies on `serde_json::Map::new`: an object with no fields.
#[verifier::external_body]
pub(crate) fn empty_json_object() -> (r: serde_json::Value) {
    serde_json::Value::Object(serde_json::Map::new())
}

/// Relies on `serde_json::Map::insert`: stores `text` under `key` when the
/// value is an object; leaves any other value as it is.
#[verifier::external_body]
pub(crate) fn with_text_field(value: serde_json::Value, key: &str, text: String) -> (r:
    serde_json::Value) {
    match value {
        serde_json::Value::Object(mut m) => {
            m.insert(key.to_string(), serde_json::Value::String(text));
            serde_json::Value::Object(m)
        },
        other => other,
    }
}

} // verus!

//! The trusted boundary to `serde_json`: the declared outside value type and
//! one wrapper per call the pipeline makes. JSON values are opaque here; the
//! verified code reads them only through these wrappers and works on the
//! plain values they hand back.

use vstd::prelude::*;

verus! {

/// `serde_json::Value`, declared so that opaque JSON values can flow through
/// verified signatures and loops.
#[verifier::external_type_specification]
#[verifier::external_body]
pub struct ExValue(serde_json::Value);

/// Relies on `str::parse::<serde_json::Value>` (serde_json's `FromStr`):
/// `Some` exactly when the text is well-formed JSON.
#[verifier::external_body]
pub fn json_parse(text: &str) -> (r: Option<serde_json::Value>) {
    text.parse::<serde_json::Value>().ok()
}

/// Relies on `serde_json::Value::get`: the member of an object under a key,
/// or nothing when absent or not an object.
#[verifier::external_body]
pub fn json_get(v: &serde_json::Value, key: &str) -> (r: Option<serde_json::Value>) {
    v.get(key).cloned()
}

/// Relies on `serde_json::Value::as_str`: the content of a JSON string, or
/// nothing for any other kind of value.
#[verifier::external_body]
pub fn json_as_str(v: &serde_json::Value) -> (r: Option<String>) {
    v.as_str().map(str::to_string)
}

/// Relies on `serde_json::Value::as_bool`: the content of a JSON boolean, or
/// nothing for any other kind of value.
#[verifier::external_body]
pub fn json_as_bool(v: &serde_json::Value) -> (r: Option<bool>) {
    v.as_bool()
}

/// Relies on `serde_json::Value::as_array`: the elements of a JSON array, or
/// nothing for any other kind of value.
#[verifier::external_body]
pub fn json_as_array(v: &serde_json::Value) -> (r: Option<Vec<serde_json::Value>>) {
    v.as_array().cloned()
}

} // verus!

//! Parsing of streaming frames into JSON values, through serde_json.

use vstd::prelude::*;

verus! {

#[verifier::external_type_specification]
#[verifier::external_body]
pub struct ExValue(serde_json::Value);

/// Whether serde_json accepts the text as one JSON document.
pub uninterp spec fn json_text_ok(s: Seq<char>) -> bool;

/// Whether serde_json accepts the bytes as one JSON document.
pub uninterp spec fn json_bytes_ok(b: Seq<u8>) -> bool;

/// Relies on serde_json::from_str: it succeeds exactly on well-formed JSON text,
/// which depends on the text alone.
#[verifier::external_body]
pub(crate) fn parse_text(s: &str) -> (r: Option<serde_json::Value>)
    ensures
        r is Some == json_text_ok(s@),
{
    serde_json::from_str::<serde_json::Value>(s).ok()
}

/// Relies on serde_json::from_slice: it succeeds exactly on well-formed JSON
/// bytes, which depends on the bytes alone.
#[verifier::external_body]
pub(crate) fn parse_bytes(b: &[u8]) -> (r: Option<serde_json::Value>)
    ensures
        r is Some == json_bytes_ok(b@),
{
    serde_json::from_slice::<serde_json::Value>(b).ok()
}

/// Relies on serde_json's Value::get: the member of an object under a key, if any.
#[verifier::external_body]
pub(crate) fn member(v: &serde_json::Value, key: &str) -> (r: Option<serde_json::Value>) {
    v.get(key).cloned()
}

/// Relies on serde_json's Value::as_str: the text of a JSON string.
#[verifier::external_body]
pub(crate) fn as_text(v: &serde_json::Value) -> (r: Option<String>) {
    v.as_str().map(|t| t.to_string())
}

/// Relies on serde_json's Value::as_i64: a JSON integer that fits in an i64.
#[verifier::external_body]
pub(crate) fn as_int(v: &serde_json::Value) -> (r: Option<i64>) {
    v.as_i64()
}

} // verus!

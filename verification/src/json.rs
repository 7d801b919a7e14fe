//! Trusted access to the JSON values backing a documentation export.
//!
//! Each function here relies on serde_json, whose behaviour Verus does not
//! check. A JSON value is opaque to the verifier, so nothing is promised of
//! what these return; all logic downstream is verified for every value they
//! could hand back.

use vstd::prelude::*;

verus! {

/// serde_json's dynamic JSON value, held opaquely.
#[verifier::external_type_specification]
#[verifier::external_body]
pub struct ExValue(serde_json::Value);

/// serde_json's error type, held opaquely; callers only map it to an error
/// of the library's own.
#[verifier::external_type_specification]
#[verifier::external_body]
pub struct ExJsonError(serde_json::Error);

/// Whether serde_json::from_str accepts the text as one JSON value.
/// Parsing is deterministic in the text, so its success bears a name.
pub uninterp spec fn json_parses(s: Seq<char>) -> bool;

/// The integer under `key` at the top level of a JSON text, when the text
/// parses to an object holding one there: what serde_json::from_str
/// followed by Value::get and Value::as_u64 return. The composition is
/// deterministic in its arguments, so its result bears a name.
pub uninterp spec fn u64_field_of(s: Seq<char>, key: Seq<char>) -> Option<u64>;

/// Relies on serde_json::from_str: parses the text as one JSON value.
#[verifier::external_body]
pub(crate) fn parse_json(s: &str) -> (r: Result<serde_json::Value, serde_json::Error>)
    ensures
        r is Ok <==> json_parses(s@),
{
    serde_json::from_str(s)
}

/// Relies on serde_json::from_str, Value::get and Value::as_u64: reads
/// one top-level integer field out of the text. A field can only be read
/// out of a text that parses.
#[verifier::external_body]
pub(crate) fn json_u64_field(s: &str, key: &str) -> (r: Option<u64>)
    ensures
        r == u64_field_of(s@, key@),
        r is Some ==> json_parses(s@),
{
    serde_json::from_str::<serde_json::Value>(s).ok().and_then(|v| v.get(key).and_then(|f| f.as_u64()))
}

/// Relies on serde_json::Value::get: the value under this key when `v` is
/// an object that holds it.
#[verifier::external_body]
pub(crate) fn json_get<'a>(v: &'a serde_json::Value, key: &str) -> Option<&'a serde_json::Value> {
    v.get(key)
}

/// Relies on serde_json::Value::as_u64: the number when `v` is an integer
/// representable as u64.
#[verifier::external_body]
pub(crate) fn json_as_u64(v: &serde_json::Value) -> Option<u64> {
    v.as_u64()
}

/// Relies on serde_json::Value::as_str: the text when `v` is a string.
#[verifier::external_body]
pub(crate) fn json_as_str<'a>(v: &'a serde_json::Value) -> Option<&'a str> {
    v.as_str()
}

/// Relies on serde_json::Value::as_bool: the boolean when `v` is one.
#[verifier::external_body]
pub(crate) fn json_as_bool(v: &serde_json::Value) -> Option<bool> {
    v.as_bool()
}

/// Relies on serde_json::Value::as_array: the elements when `v` is an
/// array.
#[verifier::external_body]
pub(crate) fn json_as_array<'a>(v: &'a serde_json::Value) -> Option<&'a Vec<serde_json::Value>> {
    v.as_array()
}

/// Relies on serde_json::Value::is_null.
#[verifier::external_body]
pub(crate) fn json_is_null(v: &serde_json::Value) -> bool {
    v.is_null()
}

/// Relies on serde_json::Value::is_object.
#[verifier::external_body]
pub(crate) fn json_is_object(v: &serde_json::Value) -> bool {
    v.is_object()
}

/// Relies on serde_json::Value::as_object and Map::keys: the keys of the
/// object, in its iteration order, when `v` is an object.
#[verifier::external_body]
pub(crate) fn json_object_keys(v: &serde_json::Value) -> Option<Vec<String>> {
    v.as_object().map(|m| m.keys().cloned().collect())
}

} // verus!

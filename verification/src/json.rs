//! Trusted surface over the JSON crate: the opaque parsed document and the
//! accessors the decoders walk it with. Every claim about decoded data is
//! made by the verified decoders, not here.

use vstd::prelude::*;

verus! {

#[verifier::external_type_specification]
#[verifier::external_body]
pub struct ExValue(serde_json::Value);

#[verifier::external_type_specification]
#[verifier::external_body]
pub struct ExError(serde_json::Error);

/// Whether the JSON crate's parser accepts `s`. Its result depends on the
/// text alone; this name stands for that condition, and the decoders' error
/// contracts are stated over it.
pub uninterp spec fn spec_json_wf(s: Seq<char>) -> bool;

/// Relies on `serde_json::from_str` for JSON syntax: the parsed document,
/// or the crate's error exactly on text it does not accept. The document is
/// opaque here.
#[verifier::external_body]
pub fn parse_json(text: &str) -> (r: Result<serde_json::Value, serde_json::Error>)
    ensures
        r is Ok <==> spec_json_wf(text@),
{
    serde_json::from_str(text)
}

/// Relies on `serde_json::Value::get` with a string index: the named field
/// when the value is an object holding it, `None` otherwise.
#[verifier::external_body]
pub fn json_get<'a>(v: &'a serde_json::Value, key: &str) -> Option<&'a serde_json::Value> {
    v.get(key)
}

/// Relies on `serde_json::Value::as_array`: the elements when the value is
/// a JSON array, `None` otherwise.
#[verifier::external_body]
pub fn json_as_array(v: &serde_json::Value) -> Option<&Vec<serde_json::Value>> {
    v.as_array()
}

/// Relies on `serde_json::Value::as_str`: the text when the value is a JSON
/// string, `None` otherwise.
#[verifier::external_body]
pub fn json_as_string(v: &serde_json::Value) -> Option<String> {
    v.as_str().map(str::to_owned)
}

/// Relies on `serde_json::Value::as_i64`: the number when the value is an
/// integer representable in an `i64`, `None` otherwise.
#[verifier::external_body]
pub fn json_as_i64(v: &serde_json::Value) -> Option<i64> {
    v.as_i64()
}

} // verus!

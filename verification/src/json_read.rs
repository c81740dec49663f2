//! Reading JSON text with `serde_json`.

use vstd::prelude::*;

use crate::json::{Json, JsonValue};

verus! {

/// `serde_json::Value`, carried opaquely.
#[verifier::external_type_specification]
#[verifier::external_body]
pub struct ExSerdeJsonValue(serde_json::Value);

/// What `serde_json::from_str` reads from a text: the document, or the
/// text of its error.
pub uninterp spec fn json_parsed(text: Seq<char>) -> Result<Json, Seq<char>>;

/// What `serde_json::from_slice` reads from bytes: the document, or the
/// text of its error.
pub uninterp spec fn json_parsed_bytes(bytes: Seq<u8>) -> Result<Json, Seq<char>>;

/// A `serde_json::Value` as a library value, variant for variant: a number
/// by its text, an object by its members in the order the map yields them.
#[verifier::external_body]
fn from_serde(v: serde_json::Value) -> JsonValue {
    match v {
        serde_json::Value::Null => JsonValue::Null,
        serde_json::Value::Bool(b) => JsonValue::Bool(b),
        serde_json::Value::Number(n) => JsonValue::Number(n.to_string()),
        serde_json::Value::String(s) => JsonValue::String(s),
        serde_json::Value::Array(a) => JsonValue::Array(a.into_iter().map(from_serde).collect()),
        serde_json::Value::Object(o) => JsonValue::Object(o.into_iter().map(|(k, x)| (k, from_serde(x))).collect()),
    }
}

/// Parses a text with `serde_json::from_str`; the contract claims only
/// that the outcome is the named result [`json_parsed`] of the text (the
/// parser is deterministic: the same text gives the same document or the
/// same error text).
#[verifier::external_body]
pub(crate) fn parse_json(text: &str) -> (r: Result<JsonValue, String>)
    ensures
        match r {
            Ok(v) => json_parsed(text@) == Ok::<Json, Seq<char>>(v@),
            Err(m) => json_parsed(text@) == Err::<Json, Seq<char>>(m@),
        },
{
    match serde_json::from_str::<serde_json::Value>(text) {
        Ok(v) => Ok(from_serde(v)),
        Err(e) => Err(e.to_string()),
    }
}

/// Parses bytes with `serde_json::from_slice`; the contract claims only
/// that the outcome is the named result [`json_parsed_bytes`] of the bytes.
#[verifier::external_body]
pub(crate) fn parse_json_bytes(bytes: &[u8]) -> (r: Result<JsonValue, String>)
    ensures
        match r {
            Ok(v) => json_parsed_bytes(bytes@) == Ok::<Json, Seq<char>>(v@),
            Err(m) => json_parsed_bytes(bytes@) == Err::<Json, Seq<char>>(m@),
        },
{
    match serde_json::from_slice::<serde_json::Value>(bytes) {
        Ok(v) => Ok(from_serde(v)),
        Err(e) => Err(e.to_string()),
    }
}

} // verus!

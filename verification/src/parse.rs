use crate::json::{JsonModel, JsonValue};
use serde_json::Value;
use vstd::prelude::*;

verus! {

/// A document as `serde_json` holds it.
#[verifier::external_type_specification]
#[verifier::external_body]
pub struct ExValue(serde_json::Value);

/// Why `serde_json` could not read a text.
#[verifier::external_type_specification]
#[verifier::external_body]
pub struct ExError(serde_json::Error);

/// The document that `serde_json` reads from `text`, or `None` where it reads
/// none: the bytes are not one JSON value alone, or nest too deep for it.
pub uninterp spec fn json_document(text: Seq<u8>) -> Option<JsonModel>;

/// The document that a value of `serde_json` holds.
pub uninterp spec fn held_document(value: Value) -> JsonModel;

/// Calls `serde_json::from_slice` for a `serde_json::Value`.
///
/// Believed, not proved: the outcome depends on the bytes alone, so that it
/// can be named. It is `Ok` exactly where `json_document` gives a document,
/// and the value then holds that document.
#[verifier::external_body]
fn read_value(text: &[u8]) -> (outcome: Result<Value, serde_json::Error>)
    ensures
        match outcome {
            Ok(value) => json_document(text@) == Some(held_document(value)),
            Err(_) => json_document(text@) is None,
        },
{
    serde_json::from_slice::<Value>(text)
}

/// Takes a `serde_json::Value` apart, variant by variant, into a `JsonValue`.
/// A number becomes the text that `serde_json` writes it as, and an object
/// its members in the order in which `serde_json::Map` hands them out.
///
/// Believed, not proved: the result stands for the document that the value
/// holds.
#[verifier::external_body]
fn lift(value: Value) -> (document: JsonValue)
    ensures
        document@ == held_document(value),
{
    match value {
        Value::Null => JsonValue::Null,
        Value::Bool(b) => JsonValue::Bool(b),
        Value::Number(n) => JsonValue::Number(n.to_string()),
        Value::String(s) => JsonValue::Text(s),
        Value::Array(items) => JsonValue::Array(items.into_iter().map(lift).collect()),
        Value::Object(map) => JsonValue::Object(
            map.into_iter().map(|(k, v)| (k, lift(v))).collect(),
        ),
    }
}

/// Reads a JSON text. `None` where the bytes are not a JSON document.
pub fn parse_document(text: &[u8]) -> (document: Option<JsonValue>)
    ensures
        match document {
            Some(value) => json_document(text@) == Some(value@),
            None => json_document(text@) is None,
        },
{
    match read_value(text) {
        Ok(value) => Some(lift(value)),
        Err(_) => None,
    }
}

} // verus!

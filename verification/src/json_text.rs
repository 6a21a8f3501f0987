//! JSON text, read and written by `serde_json`, and documents checked by
//! `jsonschema`. The contracts of this module are not proved: they state what
//! the two crates are trusted to do.

use crate::json::{JsonNumber, JsonValue, JsonView};
use serde_json::Value;
use vstd::prelude::*;

verus! {

/// `serde_json::Value`, carried through as it is: nothing is known of what
/// a value holds but what [`value_model`] names.
#[verifier::external_type_specification]
#[verifier::external_body]
pub struct ExValue(Value);

/// What a `serde_json::Value` holds: its members in the order in which the
/// value keeps them, its numbers as `serde_json::Number` tells them apart.
/// `serde_json` is built to keep the members in the order of their
/// insertion.
pub uninterp spec fn value_model(value: Value) -> JsonView;

/// What `serde_json::from_str` reads out of a text: `None` where the text is
/// no JSON document.
pub uninterp spec fn parsed(text: Seq<char>) -> Option<JsonView>;

/// The text that `serde_json::to_string` writes for a value.
pub uninterp spec fn compact_text(json: JsonView) -> Seq<char>;

/// The text that `serde_json::to_string_pretty` writes for a value.
pub uninterp spec fn pretty_text(json: JsonView) -> Seq<char>;

/// Whether `jsonschema::draft202012::new` takes a document as a schema.
pub uninterp spec fn schema_compiles(schema: JsonView) -> bool;

/// Whether `Validator::iter_errors`, on the validator that
/// `jsonschema::draft202012::new` makes of a schema, finds no violation in
/// an instance.
pub uninterp spec fn schema_accepts(schema: JsonView, instance: JsonView) -> bool;

/// The document is a schema and the instance follows it.
pub open spec fn follows(schema: JsonView, instance: JsonView) -> bool {
    schema_compiles(schema) && schema_accepts(schema, instance)
}

/// Calls `serde_json::from_str` for a `serde_json::Value`. The result is
/// what `parsed` names; a text that is no JSON gives the parser's message.
#[verifier::external_body]
pub(crate) fn parse_value(text: &str) -> (r: Result<Value, String>)
    ensures
        match r {
            Ok(value) => parsed(text@) == Some(value_model(value)),
            Err(_) => parsed(text@) is None,
        },
{
    serde_json::from_str::<Value>(text).map_err(|e| e.to_string())
}

/// Copies a `serde_json::Value` into a [`JsonValue`], variant by variant. A
/// number is handed on as `Number::as_u64`, `as_i64` and the bits of
/// `as_f64` give it. The members of a `serde_json::Map` have distinct names,
/// so the copy is well formed.
#[verifier::external_body]
pub(crate) fn value_to_json(value: &Value) -> (r: JsonValue)
    ensures
        r@ == value_model(*value),
        r@.wf(),
{
    match value {
        Value::Null => JsonValue::Null,
        Value::Bool(b) => JsonValue::Bool(*b),
        Value::Number(n) => JsonValue::Number(
            JsonNumber::from_parts(n.as_u64(), n.as_i64(), n.as_f64().map(|x| x.to_bits())),
        ),
        Value::String(s) => JsonValue::String(s.clone()),
        Value::Array(a) => JsonValue::Array(a.iter().map(value_to_json).collect()),
        Value::Object(m) => JsonValue::Object(
            m.iter().map(|(k, v)| (k.clone(), value_to_json(v))).collect(),
        ),
    }
}

/// Copies a [`JsonValue`] into a `serde_json::Value`, variant by variant,
/// an integer through `Value::from`. A float, which this library holds by
/// its bits only, has no copy, and neither has a value that holds one. The
/// value must be well formed: a `serde_json::Map` keeps one member of a
/// name, and `Value::from` holds an integer that is not below zero as
/// unsigned.
#[verifier::external_body]
pub(crate) fn json_to_value(json: &JsonValue) -> (r: Option<Value>)
    requires
        json@.wf(),
    ensures
        r is Some <==> json@.float_free(),
        r matches Some(value) ==> value_model(value) == json@,
{
    Some(match json {
        JsonValue::Null => Value::Null,
        JsonValue::Bool(b) => Value::Bool(*b),
        JsonValue::Number(JsonNumber::PosInt(u)) => Value::from(*u),
        JsonValue::Number(JsonNumber::NegInt(i)) => Value::from(*i),
        JsonValue::Number(JsonNumber::Float(_)) => return None,
        JsonValue::String(s) => Value::String(s.clone()),
        JsonValue::Array(a) => Value::Array(a.iter().map(json_to_value).collect::<Option<_>>()?),
        JsonValue::Object(m) => Value::Object(
            m.iter().map(|(k, v)| Some((k.clone(), json_to_value(v)?))).collect::<Option<_>>()?,
        ),
    })
}

/// Calls `serde_json::to_string` on a `Value`. The call succeeds: it fails
/// only where the `Serialize` impl of what is written fails or a map has a
/// key that is no string, and the impl of `Value` has no failing arm, its
/// keys are strings, and the text goes into a `Vec`. The result is the
/// text that `compact_text` names.
#[verifier::external_body]
pub(crate) fn write_compact(value: &Value) -> (r: Result<String, String>)
    ensures
        r is Ok,
        r matches Ok(text) ==> text@ == compact_text(value_model(*value)),
{
    serde_json::to_string(value).map_err(|e| e.to_string())
}

/// Calls `serde_json::to_string_pretty` on a `Value`. The call succeeds,
/// for the reasons given at [`write_compact`]. The result is the text that
/// `pretty_text` names.
#[verifier::external_body]
pub(crate) fn write_pretty(value: &Value) -> (r: Result<String, String>)
    ensures
        r is Ok,
        r matches Ok(text) ==> text@ == pretty_text(value_model(*value)),
{
    serde_json::to_string_pretty(value).map_err(|e| e.to_string())
}

/// Calls `jsonschema::draft202012::new` and drops the validator: `Ok` where
/// the document is a schema of that draft, else the engine's message.
#[verifier::external_body]
pub(crate) fn compile_schema(schema: &Value) -> (r: Result<(), String>)
    ensures
        r is Ok <==> schema_compiles(value_model(*schema)),
{
    jsonschema::draft202012::new(schema).map(|_| ()).map_err(|e| e.to_string())
}

/// Calls `jsonschema::draft202012::new` and, on the validator that it
/// makes, `Validator::iter_errors`: the messages of all violations, none
/// where the instance follows the schema. A document that is no schema
/// gives the one message that says so.
#[verifier::external_body]
pub(crate) fn validation_errors(schema: &Value, instance: &Value) -> (r: Vec<String>)
    ensures
        r@.len() == 0 ==> schema_compiles(value_model(*schema)),
        r@.len() == 0 ==> schema_accepts(value_model(*schema), value_model(*instance)),
        r@.len() > 0 ==> !follows(value_model(*schema), value_model(*instance)),
{
    match jsonschema::draft202012::new(schema) {
        Ok(validator) => validator.iter_errors(instance).map(|e| e.to_string()).collect(),
        Err(e) => vec![e.to_string()],
    }
}

} // verus!

//! JSON text: reading it into the library's JSON model and writing a model
//! back as compact JSON, both done by `serde_json`.
use vstd::prelude::*;
use crate::json::{Json, JsonNumber, JsonView};

verus! {

#[verifier::external_type_specification]
#[verifier::external_body]
pub struct ExValue(serde_json::Value);

/// What `serde_json::from_str::<serde_json::Value>` reads from `text`, as the
/// library's JSON model; `None` where `text` is not one JSON document.
pub uninterp spec fn spec_json_from_str(text: Seq<char>) -> Option<JsonView>;

/// What `serde_json::to_string` writes for a value: its compact JSON text, or
/// `None` where it fails.
pub uninterp spec fn spec_json_to_string(v: JsonView) -> Option<Seq<char>>;

pub open spec fn opt_json_view(r: Option<Json>) -> Option<JsonView> {
    match r {
        Some(j) => Some(j@),
        None => None,
    }
}

/// Converts a `serde_json::Value` into the JSON model, one value for one:
/// a number keeps its `i64` value, the bits of its `f64` value and its text.
#[verifier::external_body]
fn json_of_value(value: serde_json::Value) -> Json {
    match value {
        serde_json::Value::Null => Json::Null,
        serde_json::Value::Bool(b) => Json::Bool(b),
        serde_json::Value::Number(n) => Json::Number(
            JsonNumber { int: n.as_i64(), bits: n.as_f64().map(|f| f.to_bits()).unwrap_or(0), text: n.to_string() },
        ),
        serde_json::Value::String(s) => Json::Str(s),
        serde_json::Value::Array(a) => Json::Array(a.into_iter().map(json_of_value).collect()),
        serde_json::Value::Object(m) => Json::Object(m.into_iter().map(|(k, v)| (k, json_of_value(v))).collect()),
    }
}

/// Converts the JSON model into a `serde_json::Value`, one value for one; a
/// number is read back from its text (a text that is not a number gives null).
#[verifier::external_body]
fn value_of_json(json: &Json) -> serde_json::Value {
    match json {
        Json::Null => serde_json::Value::Null,
        Json::Bool(b) => serde_json::Value::Bool(*b),
        Json::Number(n) => n.text.parse().map(serde_json::Value::Number).unwrap_or(serde_json::Value::Null),
        Json::Str(s) => serde_json::Value::String(s.clone()),
        Json::Array(a) => serde_json::Value::Array(a.iter().map(value_of_json).collect()),
        Json::Object(es) => serde_json::Value::Object(es.iter().map(|(k, v)| (k.clone(), value_of_json(v))).collect()),
    }
}

/// `serde_json::from_str` into a `serde_json::Value`, read into the JSON
/// model: the result is a function of the text alone, `None` exactly where
/// the text is not one JSON document.
#[verifier::external_body]
pub(crate) fn json_from_str(text: &str) -> (r: Option<Json>)
    ensures
        opt_json_view(r) == spec_json_from_str(text@),
{
    match serde_json::from_str::<serde_json::Value>(text) {
        Ok(v) => Some(json_of_value(v)),
        Err(_) => None,
    }
}

/// `serde_json::to_string` of a value: its compact JSON text, a function of
/// the value alone.
#[verifier::external_body]
pub(crate) fn json_to_string(v: &Json) -> (r: Option<String>)
    ensures
        match r {
            Some(s) => spec_json_to_string(v@) == Some(s@),
            None => spec_json_to_string(v@) is None,
        },
{
    match serde_json::to_string(&value_of_json(v)) {
        Ok(s) => Some(s),
        Err(_) => None,
    }
}

} // verus!

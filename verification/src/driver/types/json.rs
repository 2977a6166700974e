//! JSON documents, carried as their text.
use vstd::prelude::*;

use super::{nonnull_message, unexpected_nonnull_type};
use crate::bindings as sql;
use crate::driver::types::text::str_views;
use crate::driver::{TypeInfo, Value};
use crate::util::string_views;

verus! {

/// The JSON text held by a JSON value, binary (`Jsonb`) or not (`Json`).
pub open spec fn spec_decode_json(value: sql::Value) -> Option<Seq<char>> {
    match value {
        sql::Value::Jsonb(s) => Some(s@),
        sql::Value::Json(s) => Some(s@),
        _ => None,
    }
}

/// The JSON texts held by a list of JSON values, binary (`JsonbArray`) or
/// not (`JsonArray`).
pub open spec fn spec_decode_json_array(value: sql::Value) -> Option<Seq<Seq<char>>> {
    match value {
        sql::Value::JsonbArray(x) => Some(string_views(x@)),
        sql::Value::JsonArray(x) => Some(string_views(x@)),
        _ => None,
    }
}

/// The value that a JSON document with the given text is bound as.
pub fn encode_json(json: &str) -> (value: Value)
    ensures
        value.0 matches sql::Value::Jsonb(s) && s@ == json@,
        spec_decode_json(value.0) == Some(json@),
{
    Value::new(sql::Value::jsonb(json))
}

/// Read the text of a JSON document from a value.
pub fn decode_json(value: &Value) -> (r: Result<String, String>)
    ensures
        r is Ok <==> spec_decode_json(value.0) is Some,
        r matches Ok(x) ==> spec_decode_json(value.0) == Some(x@),
        r matches Err(m) ==> m@ == nonnull_message(sql::TypeInfo::Jsonb, value.0),
{
    match value.0.as_json() {
        Some(json) => Ok(json),
        None => Err(unexpected_nonnull_type(&TypeInfo::jsonb(), value)),
    }
}

/// The value that a list of JSON documents with the given texts is bound as.
pub fn encode_json_array(json: &[&str]) -> (value: Value)
    ensures
        value.0 is JsonbArray,
        spec_decode_json_array(value.0) == Some(str_views(json@)),
{
    let value = sql::Value::jsonb_array(json);
    proof {
        if let sql::Value::JsonbArray(ref x) = value {
            assert(string_views(x@) =~= str_views(json@));
        }
    }
    Value::new(value)
}

/// Read the texts of a list of JSON documents from a value.
pub fn decode_json_array(value: &Value) -> (r: Result<Vec<String>, String>)
    ensures
        r is Ok <==> spec_decode_json_array(value.0) is Some,
        r matches Ok(x) ==> spec_decode_json_array(value.0) == Some(string_views(x@)),
        r matches Err(m) ==> m@ == nonnull_message(sql::TypeInfo::Jsonb, value.0),
{
    match value.0.as_json_array() {
        Some(v) => Ok(v),
        None => Err(unexpected_nonnull_type(&TypeInfo::jsonb(), value)),
    }
}

/// Reading back the value that a JSON text is bound as gives it back.
pub proof fn lemma_json_roundtrip(s: String, v: Vec<String>)
    ensures
        spec_decode_json(sql::Value::Jsonb(s)) == Some(s@),
        spec_decode_json(sql::Value::Json(s)) == Some(s@),
        spec_decode_json_array(sql::Value::JsonbArray(v)) == Some(string_views(v@)),
{
}

/// A JSON document is read from a value holding JSON or binary JSON, as its
/// text, and from no other kind of value; a list of them is read from a list
/// of either, as their texts in order.
pub proof fn lemma_json_kinds(v: Vec<String>, value: sql::Value)
    ensures
        spec_decode_json_array(sql::Value::JsonArray(v)) == Some(string_views(v@)),
        spec_decode_json(value) is Some <==> (value is Json || value is Jsonb),
        spec_decode_json_array(value) is Some <==> (value is JsonArray || value is JsonbArray),
{
}

} // verus!

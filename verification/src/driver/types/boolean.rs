//! Booleans.
use vstd::prelude::*;

use super::{nonnull_message, unexpected_nonnull_type};
use crate::bindings as sql;
use crate::driver::{TypeInfo, Value};

verus! {

/// The `Boolean` payload of a value, if it holds one.
pub open spec fn spec_decode_bool(value: sql::Value) -> Option<bool> {
    match value {
        sql::Value::Boolean(x) => Some(x),
        _ => None,
    }
}

/// The value that a `bool` is bound as.
pub fn encode_bool(v: bool) -> (value: Value)
    ensures
        value.0 == sql::Value::Boolean(v),
{
    Value::new(sql::Value::boolean(v))
}

/// Read a `bool` from a value.
pub fn decode_bool(value: &Value) -> (r: Result<bool, String>)
    ensures
        r is Ok <==> spec_decode_bool(value.0) is Some,
        r matches Ok(x) ==> spec_decode_bool(value.0) == Some(x),
        r matches Err(m) ==> m@ == nonnull_message(sql::TypeInfo::Boolean, value.0),
{
    match value.0.as_boolean() {
        Some(v) => Ok(v),
        None => Err(unexpected_nonnull_type(&TypeInfo::boolean(), value)),
    }
}

/// Reading back the value that a `bool` is bound as gives it back.
pub proof fn lemma_bool_roundtrip(v: bool)
    ensures
        spec_decode_bool(sql::Value::Boolean(v)) == Some(v),
{
}

/// The elements of a `BooleanArray` value, if it holds one.
pub open spec fn spec_decode_bool_array(value: sql::Value) -> Option<Seq<bool>> {
    match value {
        sql::Value::BooleanArray(x) => Some(x@),
        _ => None,
    }
}

/// The value that a list of `bool`s is bound as.
pub fn encode_bool_array(v: &[bool]) -> (value: Value)
    ensures
        value.0 matches sql::Value::BooleanArray(x) && x@ == v@,
        spec_decode_bool_array(value.0) == Some(v@),
{
    Value::new(sql::Value::boolean_array(v))
}

/// Read a list of `bool`s from a value.
pub fn decode_bool_array(value: &Value) -> (r: Result<Vec<bool>, String>)
    ensures
        r is Ok <==> spec_decode_bool_array(value.0) is Some,
        r matches Ok(x) ==> spec_decode_bool_array(value.0) == Some(x@),
        r matches Err(m) ==> m@ == nonnull_message(sql::TypeInfo::BooleanArray, value.0),
{
    match value.0.as_boolean_array() {
        Some(v) => Ok(v),
        None => Err(unexpected_nonnull_type(&TypeInfo::boolean_array(), value)),
    }
}

/// A list of booleans is read as the elements of a value's list of booleans,
/// in their order; a boolean, or a list of them, is read from no other kind of
/// value.
pub proof fn lemma_bool_array_in_order(a: Vec<bool>, value: sql::Value)
    ensures
        spec_decode_bool_array(sql::Value::BooleanArray(a)) == Some(a@),
        spec_decode_bool_array(value) is Some <==> value is BooleanArray,
        spec_decode_bool(value) is Some <==> value is Boolean,
{
}

} // verus!

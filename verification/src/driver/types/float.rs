//! Floating point numbers, carried as their IEEE 754 bit patterns.
use vstd::prelude::*;

use super::{nonnull_message, unexpected_nonnull_type};
use crate::bindings as sql;
use crate::driver::{TypeInfo, Value};

verus! {

/// The elements of a `Float4Array` value, if it holds one.
pub open spec fn spec_decode_f32_array(value: sql::Value) -> Option<Seq<u32>> {
    match value {
        sql::Value::Float4Array(x) => Some(x@),
        _ => None,
    }
}

/// The value that a list of `f32`s (as bits) is bound as.
pub fn encode_f32_array(v: &[u32]) -> (value: Value)
    ensures
        value.0 matches sql::Value::Float4Array(x) && x@ == v@,
        spec_decode_f32_array(value.0) == Some(v@),
{
    Value::new(sql::Value::float4_array(v))
}

/// Read a list of `f32`s (as bits) from a value.
pub fn decode_f32_array(value: &Value) -> (r: Result<Vec<u32>, String>)
    ensures
        r is Ok <==> spec_decode_f32_array(value.0) is Some,
        r matches Ok(x) ==> spec_decode_f32_array(value.0) == Some(x@),
        r matches Err(m) ==> m@ == nonnull_message(sql::TypeInfo::Float4Array, value.0),
{
    match value.0.as_float4_array() {
        Some(v) => Ok(v),
        None => Err(unexpected_nonnull_type(&TypeInfo::float4_array(), value)),
    }
}

/// The elements of a `Float8Array` value, if it holds one.
pub open spec fn spec_decode_f64_array(value: sql::Value) -> Option<Seq<u64>> {
    match value {
        sql::Value::Float8Array(x) => Some(x@),
        _ => None,
    }
}

/// The value that a list of `f64`s (as bits) is bound as.
pub fn encode_f64_array(v: &[u64]) -> (value: Value)
    ensures
        value.0 matches sql::Value::Float8Array(x) && x@ == v@,
        spec_decode_f64_array(value.0) == Some(v@),
{
    Value::new(sql::Value::float8_array(v))
}

/// Read a list of `f64`s (as bits) from a value.
pub fn decode_f64_array(value: &Value) -> (r: Result<Vec<u64>, String>)
    ensures
        r is Ok <==> spec_decode_f64_array(value.0) is Some,
        r matches Ok(x) ==> spec_decode_f64_array(value.0) == Some(x@),
        r matches Err(m) ==> m@ == nonnull_message(sql::TypeInfo::Float8Array, value.0),
{
    match value.0.as_float8_array() {
        Some(v) => Ok(v),
        None => Err(unexpected_nonnull_type(&TypeInfo::float8_array(), value)),
    }
}

/// A floating point number as read from a value: the bits of a single or of
/// a double precision number.
#[derive(Clone, Copy, Debug, PartialEq, Eq, Structural)]
pub enum Float {
    Single(u32),
    Double(u64),
}

/// The floating point number held by a value of either precision.
pub open spec fn spec_decode_float(value: sql::Value) -> Option<Float> {
    match value {
        sql::Value::Float4(b) => Some(Float::Single(b)),
        sql::Value::Float8(b) => Some(Float::Double(b)),
        _ => None,
    }
}

/// The value that an `f32` with the given bits is bound as.
pub fn encode_f32(bits: u32) -> (value: Value)
    ensures
        value.0 == sql::Value::Float4(bits),
{
    Value::new(sql::Value::float4(bits))
}

/// The value that an `f64` with the given bits is bound as.
pub fn encode_f64(bits: u64) -> (value: Value)
    ensures
        value.0 == sql::Value::Float8(bits),
{
    Value::new(sql::Value::float8(bits))
}

fn decode_float(value: &Value, expected: TypeInfo) -> (r: Result<Float, String>)
    ensures
        r is Ok <==> spec_decode_float(value.0) is Some,
        r matches Ok(x) ==> spec_decode_float(value.0) == Some(x),
        r matches Err(m) ==> m@ == nonnull_message(expected@, value.0),
{
    if let Some(v) = value.0.as_float4() {
        return Ok(Float::Single(v));
    }
    if let Some(v) = value.0.as_float8() {
        return Ok(Float::Double(v));
    }
    Err(unexpected_nonnull_type(&expected, value))
}

/// Read the number that an `f32` is made from: a value of either precision.
pub fn decode_f32(value: &Value) -> (r: Result<Float, String>)
    ensures
        r is Ok <==> spec_decode_float(value.0) is Some,
        r matches Ok(x) ==> spec_decode_float(value.0) == Some(x),
        r matches Err(m) ==> m@ == nonnull_message(sql::TypeInfo::Float4, value.0),
{
    decode_float(value, TypeInfo::float4())
}

/// Read the number that an `f64` is made from: a value of either precision.
pub fn decode_f64(value: &Value) -> (r: Result<Float, String>)
    ensures
        r is Ok <==> spec_decode_float(value.0) is Some,
        r matches Ok(x) ==> spec_decode_float(value.0) == Some(x),
        r matches Err(m) ==> m@ == nonnull_message(sql::TypeInfo::Float8, value.0),
{
    decode_float(value, TypeInfo::float8())
}

/// The bits of a number bound at either precision are read back unchanged.
pub proof fn lemma_float_roundtrip(single: u32, double: u64)
    ensures
        spec_decode_float(sql::Value::Float4(single)) == Some(Float::Single(single)),
        spec_decode_float(sql::Value::Float8(double)) == Some(Float::Double(double)),
{
}

/// A list of floats is read as the bit patterns of a value's list of the same
/// precision, in their order, and from no other kind of value; a float is read
/// from a value of either precision, as that precision, and from no other kind.
pub proof fn lemma_float_arrays_in_order(a: Vec<u32>, b: Vec<u64>, value: sql::Value)
    ensures
        spec_decode_f32_array(sql::Value::Float4Array(a)) == Some(a@),
        spec_decode_f64_array(sql::Value::Float8Array(b)) == Some(b@),
        spec_decode_f32_array(value) is Some <==> value is Float4Array,
        spec_decode_f64_array(value) is Some <==> value is Float8Array,
        spec_decode_float(value) is Some <==> (value is Float4 || value is Float8),
{
}

} // verus!

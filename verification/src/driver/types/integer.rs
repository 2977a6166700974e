//! Integers.
use vstd::prelude::*;

use super::{nonnull_message, unexpected_nonnull_type};
use crate::bindings as sql;
use crate::driver::{TypeInfo, Value};

verus! {

/// The value that an `i8` is bound as.
pub fn encode_i8(v: i8) -> (value: Value)
    ensures
        value.0 == sql::Value::Int1(v),
{
    Value::new(sql::Value::int1(v))
}

/// The value that an `i16` is bound as.
pub fn encode_i16(v: i16) -> (value: Value)
    ensures
        value.0 == sql::Value::Int2(v),
{
    Value::new(sql::Value::int2(v))
}

/// The value that an `i32` is bound as.
pub fn encode_i32(v: i32) -> (value: Value)
    ensures
        value.0 == sql::Value::Int4(v),
{
    Value::new(sql::Value::int4(v))
}

/// The value that an `i64` is bound as.
pub fn encode_i64(v: i64) -> (value: Value)
    ensures
        value.0 == sql::Value::Int8(v),
{
    Value::new(sql::Value::int8(v))
}

/// The elements of a `Int1Array` value, if it holds one.
pub open spec fn spec_decode_i8_array(value: sql::Value) -> Option<Seq<i8>> {
    match value {
        sql::Value::Int1Array(x) => Some(x@),
        _ => None,
    }
}

/// The value that a list of `i8`s is bound as.
pub fn encode_i8_array(v: &[i8]) -> (value: Value)
    ensures
        value.0 matches sql::Value::Int1Array(x) && x@ == v@,
        spec_decode_i8_array(value.0) == Some(v@),
{
    Value::new(sql::Value::int1_array(v))
}

/// Read a list of `i8`s from a value.
pub fn decode_i8_array(value: &Value) -> (r: Result<Vec<i8>, String>)
    ensures
        r is Ok <==> spec_decode_i8_array(value.0) is Some,
        r matches Ok(x) ==> spec_decode_i8_array(value.0) == Some(x@),
        r matches Err(m) ==> m@ == nonnull_message(sql::TypeInfo::Int1Array, value.0),
{
    match value.0.as_int1_array() {
        Some(v) => Ok(v),
        None => Err(unexpected_nonnull_type(&TypeInfo::int1_array(), value)),
    }
}

/// The elements of a `Int2Array` value, if it holds one.
pub open spec fn spec_decode_i16_array(value: sql::Value) -> Option<Seq<i16>> {
    match value {
        sql::Value::Int2Array(x) => Some(x@),
        _ => None,
    }
}

/// The value that a list of `i16`s is bound as.
pub fn encode_i16_array(v: &[i16]) -> (value: Value)
    ensures
        value.0 matches sql::Value::Int2Array(x) && x@ == v@,
        spec_decode_i16_array(value.0) == Some(v@),
{
    Value::new(sql::Value::int2_array(v))
}

/// Read a list of `i16`s from a value.
pub fn decode_i16_array(value: &Value) -> (r: Result<Vec<i16>, String>)
    ensures
        r is Ok <==> spec_decode_i16_array(value.0) is Some,
        r matches Ok(x) ==> spec_decode_i16_array(value.0) == Some(x@),
        r matches Err(m) ==> m@ == nonnull_message(sql::TypeInfo::Int2Array, value.0),
{
    match value.0.as_int2_array() {
        Some(v) => Ok(v),
        None => Err(unexpected_nonnull_type(&TypeInfo::int2_array(), value)),
    }
}

/// The elements of a `Int4Array` value, if it holds one.
pub open spec fn spec_decode_i32_array(value: sql::Value) -> Option<Seq<i32>> {
    match value {
        sql::Value::Int4Array(x) => Some(x@),
        _ => None,
    }
}

/// The value that a list of `i32`s is bound as.
pub fn encode_i32_array(v: &[i32]) -> (value: Value)
    ensures
        value.0 matches sql::Value::Int4Array(x) && x@ == v@,
        spec_decode_i32_array(value.0) == Some(v@),
{
    Value::new(sql::Value::int4_array(v))
}

/// Read a list of `i32`s from a value.
pub fn decode_i32_array(value: &Value) -> (r: Result<Vec<i32>, String>)
    ensures
        r is Ok <==> spec_decode_i32_array(value.0) is Some,
        r matches Ok(x) ==> spec_decode_i32_array(value.0) == Some(x@),
        r matches Err(m) ==> m@ == nonnull_message(sql::TypeInfo::Int4Array, value.0),
{
    match value.0.as_int4_array() {
        Some(v) => Ok(v),
        None => Err(unexpected_nonnull_type(&TypeInfo::int4_array(), value)),
    }
}

/// The elements of a `Int8Array` value, if it holds one.
pub open spec fn spec_decode_i64_array(value: sql::Value) -> Option<Seq<i64>> {
    match value {
        sql::Value::Int8Array(x) => Some(x@),
        _ => None,
    }
}

/// The value that a list of `i64`s is bound as.
pub fn encode_i64_array(v: &[i64]) -> (value: Value)
    ensures
        value.0 matches sql::Value::Int8Array(x) && x@ == v@,
        spec_decode_i64_array(value.0) == Some(v@),
{
    Value::new(sql::Value::int8_array(v))
}

/// Read a list of `i64`s from a value.
pub fn decode_i64_array(value: &Value) -> (r: Result<Vec<i64>, String>)
    ensures
        r is Ok <==> spec_decode_i64_array(value.0) is Some,
        r matches Ok(x) ==> spec_decode_i64_array(value.0) == Some(x@),
        r matches Err(m) ==> m@ == nonnull_message(sql::TypeInfo::Int8Array, value.0),
{
    match value.0.as_int8_array() {
        Some(v) => Ok(v),
        None => Err(unexpected_nonnull_type(&TypeInfo::int8_array(), value)),
    }
}

/// The integer held by a value of any integer width.
pub open spec fn spec_decode_int(value: sql::Value) -> Option<int> {
    match value {
        sql::Value::Int1(x) => Some(x as int),
        sql::Value::Int2(x) => Some(x as int),
        sql::Value::Int4(x) => Some(x as int),
        sql::Value::Int8(x) => Some(x as int),
        _ => None,
    }
}

/// The message given when an integer does not fit the requested width.
pub open spec fn out_of_range_message() -> Seq<char> {
    "integer value out of range"@
}

/// Whether reading an integer within `[lo, hi]` from `value` succeeds.
pub open spec fn decodes_within(value: sql::Value, lo: int, hi: int) -> bool {
    spec_decode_int(value) matches Some(x) && lo <= x <= hi
}

/// The message given when an integer within `[lo, hi]` cannot be read.
pub open spec fn decode_int_message(value: sql::Value) -> Seq<char> {
    if spec_decode_int(value) is Some {
        out_of_range_message()
    } else {
        nonnull_message(sql::TypeInfo::Int8, value)
    }
}

/// Read an integer of any width from a value.
pub fn decode_int(value: &Value) -> (r: Result<i64, String>)
    ensures
        r is Ok <==> spec_decode_int(value.0) is Some,
        r matches Ok(x) ==> spec_decode_int(value.0) == Some(x as int),
        r matches Err(m) ==> m@ == nonnull_message(sql::TypeInfo::Int8, value.0),
{
    if let Some(v) = value.0.as_int1() {
        return Ok(v as i64);
    }
    if let Some(v) = value.0.as_int2() {
        return Ok(v as i64);
    }
    if let Some(v) = value.0.as_int4() {
        return Ok(v as i64);
    }
    if let Some(v) = value.0.as_int8() {
        return Ok(v);
    }
    Err(unexpected_nonnull_type(&TypeInfo::int8(), value))
}

/// Read an `i8` from a value holding an integer of any width.
pub fn decode_i8(value: &Value) -> (r: Result<i8, String>)
    ensures
        r is Ok <==> decodes_within(value.0, i8::MIN as int, i8::MAX as int),
        r matches Ok(x) ==> spec_decode_int(value.0) == Some(x as int),
        r matches Err(m) ==> m@ == decode_int_message(value.0),
{
    let v = decode_int(value)?;
    if v < i8::MIN as i64 || v > i8::MAX as i64 {
        return Err(String::from_str("integer value out of range"));
    }
    Ok(v as i8)
}

/// Read an `i16` from a value holding an integer of any width.
pub fn decode_i16(value: &Value) -> (r: Result<i16, String>)
    ensures
        r is Ok <==> decodes_within(value.0, i16::MIN as int, i16::MAX as int),
        r matches Ok(x) ==> spec_decode_int(value.0) == Some(x as int),
        r matches Err(m) ==> m@ == decode_int_message(value.0),
{
    let v = decode_int(value)?;
    if v < i16::MIN as i64 || v > i16::MAX as i64 {
        return Err(String::from_str("integer value out of range"));
    }
    Ok(v as i16)
}

/// Read an `i32` from a value holding an integer of any width.
pub fn decode_i32(value: &Value) -> (r: Result<i32, String>)
    ensures
        r is Ok <==> decodes_within(value.0, i32::MIN as int, i32::MAX as int),
        r matches Ok(x) ==> spec_decode_int(value.0) == Some(x as int),
        r matches Err(m) ==> m@ == decode_int_message(value.0),
{
    let v = decode_int(value)?;
    if v < i32::MIN as i64 || v > i32::MAX as i64 {
        return Err(String::from_str("integer value out of range"));
    }
    Ok(v as i32)
}

/// Read an `i64` from a value holding an integer of any width.
pub fn decode_i64(value: &Value) -> (r: Result<i64, String>)
    ensures
        r is Ok <==> spec_decode_int(value.0) is Some,
        r matches Ok(x) ==> spec_decode_int(value.0) == Some(x as int),
        r matches Err(m) ==> m@ == nonnull_message(sql::TypeInfo::Int8, value.0),
{
    decode_int(value)
}

/// An integer bound at any width is read back as itself, at that width and
/// at every wider one; at a narrower width it is read back exactly when it
/// fits.
pub proof fn lemma_int_roundtrip(a: i8, b: i16, c: i32, d: i64)
    ensures
        spec_decode_int(sql::Value::Int1(a)) == Some(a as int),
        spec_decode_int(sql::Value::Int2(b)) == Some(b as int),
        spec_decode_int(sql::Value::Int4(c)) == Some(c as int),
        spec_decode_int(sql::Value::Int8(d)) == Some(d as int),
        decodes_within(sql::Value::Int8(d), i32::MIN as int, i32::MAX as int) <==> (i32::MIN <= d
            <= i32::MAX),
        decodes_within(sql::Value::Int4(c), i16::MIN as int, i16::MAX as int) <==> (i16::MIN <= c
            <= i16::MAX),
        decodes_within(sql::Value::Int2(b), i8::MIN as int, i8::MAX as int) <==> (i8::MIN <= b
            <= i8::MAX),
{
}

/// A list of integers of a width is read as the elements of a value's list of
/// that width, in their order, and from no other kind of value; an integer is
/// read from a value of any integer width and from no other kind.
pub proof fn lemma_int_arrays_in_order(
    a: Vec<i8>,
    b: Vec<i16>,
    c: Vec<i32>,
    d: Vec<i64>,
    value: sql::Value,
)
    ensures
        spec_decode_i8_array(sql::Value::Int1Array(a)) == Some(a@),
        spec_decode_i16_array(sql::Value::Int2Array(b)) == Some(b@),
        spec_decode_i32_array(sql::Value::Int4Array(c)) == Some(c@),
        spec_decode_i64_array(sql::Value::Int8Array(d)) == Some(d@),
        spec_decode_i8_array(value) is Some <==> value is Int1Array,
        spec_decode_i16_array(value) is Some <==> value is Int2Array,
        spec_decode_i32_array(value) is Some <==> value is Int4Array,
        spec_decode_i64_array(value) is Some <==> value is Int8Array,
        spec_decode_int(value) is Some <==> (value is Int1 || value is Int2 || value is Int4
            || value is Int8),
{
}

} // verus!

//! Timestamps, with and without a timezone.
use vstd::prelude::*;

use super::{nonnull_message, unexpected_nonnull_type};
use crate::bindings as sql;
use crate::driver::{TypeInfo, Value};

verus! {

/// The `Timestamptz` payload of a value, if it holds one.
pub open spec fn spec_decode_timestamptz(value: sql::Value) -> Option<sql::Timestamptz> {
    match value {
        sql::Value::Timestamptz(x) => Some(x),
        _ => None,
    }
}

/// The value that a timestamp with a timezone is bound as.
pub fn encode_timestamptz(v: sql::Timestamptz) -> (value: Value)
    ensures
        value.0 == sql::Value::Timestamptz(v),
{
    Value::new(sql::Value::timestamptz(v))
}

/// Read a timestamp with a timezone from a value.
pub fn decode_timestamptz(value: &Value) -> (r: Result<sql::Timestamptz, String>)
    ensures
        r is Ok <==> spec_decode_timestamptz(value.0) is Some,
        r matches Ok(x) ==> spec_decode_timestamptz(value.0) == Some(x),
        r matches Err(m) ==> m@ == nonnull_message(sql::TypeInfo::Timestamptz, value.0),
{
    match value.0.as_timestamptz() {
        Some(v) => Ok(v),
        None => Err(unexpected_nonnull_type(&TypeInfo::timestamptz(), value)),
    }
}

/// Reading back the value that a timestamp with a timezone is bound as gives it back.
pub proof fn lemma_timestamptz_roundtrip(v: sql::Timestamptz)
    ensures
        spec_decode_timestamptz(sql::Value::Timestamptz(v)) == Some(v),
{
}

/// The `Timestamp` payload of a value, if it holds one.
pub open spec fn spec_decode_timestamp(value: sql::Value) -> Option<sql::Timestamp> {
    match value {
        sql::Value::Timestamp(x) => Some(x),
        _ => None,
    }
}

/// The value that a timestamp without a timezone is bound as.
pub fn encode_timestamp(v: sql::Timestamp) -> (value: Value)
    ensures
        value.0 == sql::Value::Timestamp(v),
{
    Value::new(sql::Value::timestamp(v))
}

/// Read a timestamp without a timezone from a value.
pub fn decode_timestamp(value: &Value) -> (r: Result<sql::Timestamp, String>)
    ensures
        r is Ok <==> spec_decode_timestamp(value.0) is Some,
        r matches Ok(x) ==> spec_decode_timestamp(value.0) == Some(x),
        r matches Err(m) ==> m@ == nonnull_message(sql::TypeInfo::Timestamp, value.0),
{
    match value.0.as_timestamp() {
        Some(v) => Ok(v),
        None => Err(unexpected_nonnull_type(&TypeInfo::timestamp(), value)),
    }
}

/// Reading back the value that a timestamp without a timezone is bound as gives it back.
pub proof fn lemma_timestamp_roundtrip(v: sql::Timestamp)
    ensures
        spec_decode_timestamp(sql::Value::Timestamp(v)) == Some(v),
{
}

/// The elements of a `TimestamptzArray` value, if it holds one.
pub open spec fn spec_decode_timestamptz_array(value: sql::Value) -> Option<Seq<sql::Timestamptz>> {
    match value {
        sql::Value::TimestamptzArray(x) => Some(x@),
        _ => None,
    }
}

/// The value that a list of timestamps with a timezone is bound as.
pub fn encode_timestamptz_array(v: &[sql::Timestamptz]) -> (value: Value)
    ensures
        value.0 matches sql::Value::TimestamptzArray(x) && x@ == v@,
        spec_decode_timestamptz_array(value.0) == Some(v@),
{
    Value::new(sql::Value::timestamptz_array(v))
}

/// Read a list of timestamps with a timezone from a value.
pub fn decode_timestamptz_array(value: &Value) -> (r: Result<Vec<sql::Timestamptz>, String>)
    ensures
        r is Ok <==> spec_decode_timestamptz_array(value.0) is Some,
        r matches Ok(x) ==> spec_decode_timestamptz_array(value.0) == Some(x@),
        r matches Err(m) ==> m@ == nonnull_message(sql::TypeInfo::TimestamptzArray, value.0),
{
    match value.0.as_timestamptz_array() {
        Some(v) => Ok(v),
        None => Err(unexpected_nonnull_type(&TypeInfo::timestamptz_array(), value)),
    }
}

/// The elements of a `TimestampArray` value, if it holds one.
pub open spec fn spec_decode_timestamp_array(value: sql::Value) -> Option<Seq<sql::Timestamp>> {
    match value {
        sql::Value::TimestampArray(x) => Some(x@),
        _ => None,
    }
}

/// The value that a list of timestamps without a timezone is bound as.
pub fn encode_timestamp_array(v: &[sql::Timestamp]) -> (value: Value)
    ensures
        value.0 matches sql::Value::TimestampArray(x) && x@ == v@,
        spec_decode_timestamp_array(value.0) == Some(v@),
{
    Value::new(sql::Value::timestamp_array(v))
}

/// Read a list of timestamps without a timezone from a value.
pub fn decode_timestamp_array(value: &Value) -> (r: Result<Vec<sql::Timestamp>, String>)
    ensures
        r is Ok <==> spec_decode_timestamp_array(value.0) is Some,
        r matches Ok(x) ==> spec_decode_timestamp_array(value.0) == Some(x@),
        r matches Err(m) ==> m@ == nonnull_message(sql::TypeInfo::TimestampArray, value.0),
{
    match value.0.as_timestamp_array() {
        Some(v) => Ok(v),
        None => Err(unexpected_nonnull_type(&TypeInfo::timestamp_array(), value)),
    }
}

/// A list of timestamps is read as the elements of a value's list of the same
/// kind of timestamp, in their order; a timestamp, or a list of them, is read
/// from no other kind of value.
pub proof fn lemma_timestamp_arrays_in_order(
    a: Vec<sql::Timestamptz>,
    b: Vec<sql::Timestamp>,
    value: sql::Value,
)
    ensures
        spec_decode_timestamptz_array(sql::Value::TimestamptzArray(a)) == Some(a@),
        spec_decode_timestamp_array(sql::Value::TimestampArray(b)) == Some(b@),
        spec_decode_timestamptz_array(value) is Some <==> value is TimestamptzArray,
        spec_decode_timestamp_array(value) is Some <==> value is TimestampArray,
        spec_decode_timestamptz(value) is Some <==> value is Timestamptz,
        spec_decode_timestamp(value) is Some <==> value is Timestamp,
{
}

} // verus!

//! UUIDs.
use vstd::prelude::*;

use super::{nonnull_message, unexpected_nonnull_type};
use crate::bindings as sql;
use crate::driver::{TypeInfo, Value};

verus! {

/// The `Uuid` payload of a value, if it holds one.
pub open spec fn spec_decode_uuid(value: sql::Value) -> Option<sql::Uuid> {
    match value {
        sql::Value::Uuid(x) => Some(x),
        _ => None,
    }
}

/// The value that a UUID is bound as.
pub fn encode_uuid(v: sql::Uuid) -> (value: Value)
    ensures
        value.0 == sql::Value::Uuid(v),
{
    Value::new(sql::Value::uuid(v))
}

/// Read a UUID from a value.
pub fn decode_uuid(value: &Value) -> (r: Result<sql::Uuid, String>)
    ensures
        r is Ok <==> spec_decode_uuid(value.0) is Some,
        r matches Ok(x) ==> spec_decode_uuid(value.0) == Some(x),
        r matches Err(m) ==> m@ == nonnull_message(sql::TypeInfo::Uuid, value.0),
{
    match value.0.as_uuid() {
        Some(v) => Ok(v),
        None => Err(unexpected_nonnull_type(&TypeInfo::uuid(), value)),
    }
}

/// Reading back the value that a UUID is bound as gives it back.
pub proof fn lemma_uuid_roundtrip(v: sql::Uuid)
    ensures
        spec_decode_uuid(sql::Value::Uuid(v)) == Some(v),
{
}

/// The elements of a `UuidArray` value, if it holds one.
pub open spec fn spec_decode_uuid_array(value: sql::Value) -> Option<Seq<sql::Uuid>> {
    match value {
        sql::Value::UuidArray(x) => Some(x@),
        _ => None,
    }
}

/// The value that a list of UUIDs is bound as.
pub fn encode_uuid_array(v: &[sql::Uuid]) -> (value: Value)
    ensures
        value.0 matches sql::Value::UuidArray(x) && x@ == v@,
        spec_decode_uuid_array(value.0) == Some(v@),
{
    Value::new(sql::Value::uuid_array(v))
}

/// Read a list of UUIDs from a value.
pub fn decode_uuid_array(value: &Value) -> (r: Result<Vec<sql::Uuid>, String>)
    ensures
        r is Ok <==> spec_decode_uuid_array(value.0) is Some,
        r matches Ok(x) ==> spec_decode_uuid_array(value.0) == Some(x@),
        r matches Err(m) ==> m@ == nonnull_message(sql::TypeInfo::UuidArray, value.0),
{
    match value.0.as_uuid_array() {
        Some(v) => Ok(v),
        None => Err(unexpected_nonnull_type(&TypeInfo::uuid_array(), value)),
    }
}

/// A list of UUIDs is read as the elements of a value's list of UUIDs, in
/// their order; a UUID, or a list of them, is read from no other kind of
/// value.
pub proof fn lemma_uuid_array_in_order(a: Vec<sql::Uuid>, value: sql::Value)
    ensures
        spec_decode_uuid_array(sql::Value::UuidArray(a)) == Some(a@),
        spec_decode_uuid_array(value) is Some <==> value is UuidArray,
        spec_decode_uuid(value) is Some <==> value is Uuid,
{
}

} // verus!

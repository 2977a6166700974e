//! Byte strings.
use vstd::prelude::*;

use super::{nonnull_message, unexpected_nonnull_type};
use crate::bindings as sql;
use crate::driver::{TypeInfo, Value};
use crate::util::{bytes_views, copy_vec};

verus! {

/// The bytes held by a `Bytea` value.
pub open spec fn spec_decode_bytes(value: sql::Value) -> Option<Seq<u8>> {
    match value {
        sql::Value::Bytea(b) => Some(b@),
        _ => None,
    }
}

/// The byte strings held by a `ByteaArray` value.
pub open spec fn spec_decode_bytes_array(value: sql::Value) -> Option<Seq<Seq<u8>>> {
    match value {
        sql::Value::ByteaArray(x) => Some(bytes_views(x@)),
        _ => None,
    }
}

/// The value that a byte string is bound as.
pub fn encode_bytes(v: &[u8]) -> (value: Value)
    ensures
        value.0 matches sql::Value::Bytea(x) && x@ == v@,
        spec_decode_bytes(value.0) == Some(v@),
{
    Value::new(sql::Value::bytea(v))
}

/// Read a byte string from a value.
pub fn decode_bytes(value: &Value) -> (r: Result<Vec<u8>, String>)
    ensures
        r is Ok <==> spec_decode_bytes(value.0) is Some,
        r matches Ok(x) ==> spec_decode_bytes(value.0) == Some(x@),
        r matches Err(m) ==> m@ == nonnull_message(sql::TypeInfo::Bytea, value.0),
{
    match value.0.as_bytea() {
        Some(bytes) => Ok(bytes),
        None => Err(unexpected_nonnull_type(&TypeInfo::bytea(), value)),
    }
}

/// The value that a list of byte slices is bound as.
pub fn encode_bytes_array(v: &[&[u8]]) -> (value: Value)
    ensures
        value.0 is ByteaArray,
        spec_decode_bytes_array(value.0) == Some(v@.map_values(|b: &[u8]| b@)),
{
    let value = sql::Value::bytea_array(v);
    proof {
        if let sql::Value::ByteaArray(ref x) = value {
            assert(bytes_views(x@) =~= v@.map_values(|b: &[u8]| b@));
        }
    }
    Value::new(value)
}

/// The value that a list of byte vectors is bound as.
pub fn encode_byte_vecs(v: &[Vec<u8>]) -> (value: Value)
    ensures
        value.0 is ByteaArray,
        spec_decode_bytes_array(value.0) == Some(bytes_views(v@)),
{
    let mut vecs: Vec<Vec<u8>> = Vec::new();
    let mut i: usize = 0;
    while i < v.len()
        invariant
            i <= v@.len(),
            vecs.len() == i,
            forall|j: int| 0 <= j < i ==> #[trigger] vecs@[j]@ == v@[j]@,
        decreases v@.len() - i,
    {
        vecs.push(copy_vec(&v[i]));
        i += 1;
    }
    assert(bytes_views(vecs@) =~= bytes_views(v@));
    Value::new(sql::Value::ByteaArray(vecs))
}

/// Read a list of byte strings from a value.
pub fn decode_bytes_array(value: &Value) -> (r: Result<Vec<Vec<u8>>, String>)
    ensures
        r is Ok <==> spec_decode_bytes_array(value.0) is Some,
        r matches Ok(x) ==> spec_decode_bytes_array(value.0) == Some(bytes_views(x@)),
        r matches Err(m) ==> m@ == nonnull_message(sql::TypeInfo::ByteaArray, value.0),
{
    match value.0.as_bytea_array() {
        Some(v) => Ok(v),
        None => Err(unexpected_nonnull_type(&TypeInfo::bytea_array(), value)),
    }
}

/// Reading back the value that a byte string or a list of byte strings is
/// bound as gives it back.
pub proof fn lemma_bytes_roundtrip(b: Vec<u8>, v: Vec<Vec<u8>>)
    ensures
        spec_decode_bytes(sql::Value::Bytea(b)) == Some(b@),
        spec_decode_bytes_array(sql::Value::ByteaArray(v)) == Some(bytes_views(v@)),
{
}

/// Bytes are read from a value holding bytes only, and a list of byte strings
/// from a value's list of byte strings only.
pub proof fn lemma_bytes_kinds(value: sql::Value)
    ensures
        spec_decode_bytes(value) is Some <==> value is Bytea,
        spec_decode_bytes_array(value) is Some <==> value is ByteaArray,
{
}

} // verus!

//! Encoding values into database values and decoding them back.
//!
//! Each `encode_*` function gives the database value that a value is bound
//! as; each `decode_*` function reads a value back from a database value, or
//! says why it cannot.
use vstd::prelude::*;

use crate::bindings as sql;
use crate::driver::{TypeInfo, Value};

pub mod boolean;
pub mod bytea;
pub mod float;
pub mod integer;
pub mod ipnetwork;
pub mod json;
pub mod text;
pub mod timestamp;
pub mod uuid;

verus! {

/// The message given when a value of another type is found.
pub open spec fn nullable_message(expected: sql::TypeInfo, value: sql::Value) -> Seq<char> {
    "expected "@ + expected.spec_name() + ", got "@ + value.spec_type_info().spec_name()
        + " instead"@
}

/// The message given when a value is NULL or of another type.
pub open spec fn nonnull_message(expected: sql::TypeInfo, value: sql::Value) -> Seq<char> {
    if value is Null {
        "expected non-null "@ + expected.spec_name() + ", got null instead"@
    } else {
        nullable_message(expected, value)
    }
}

/// Describe a value that is not of the expected type.
pub fn unexpected_nullable_type(expected: &TypeInfo, value: &Value) -> (msg: String)
    ensures
        msg@ == nullable_message(expected@, value.0),
{
    let mut msg = String::from_str("expected ");
    msg.append(expected.name());
    msg.append(", got ");
    let found = value.type_info();
    msg.append(found.name());
    msg.append(" instead");
    proof {
        assert(msg@ =~= nullable_message(expected@, value.0));
    }
    msg
}

/// Describe a value that is NULL or not of the expected type.
pub fn unexpected_nonnull_type(expected: &TypeInfo, value: &Value) -> (msg: String)
    ensures
        msg@ == nonnull_message(expected@, value.0),
{
    if value.is_null() {
        let mut msg = String::from_str("expected non-null ");
        msg.append(expected.name());
        msg.append(", got null instead");
        proof {
            assert(msg@ =~= nonnull_message(expected@, value.0));
        }
        return msg;
    }
    unexpected_nullable_type(expected, value)
}

} // verus!

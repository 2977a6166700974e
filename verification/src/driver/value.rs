//! Database values as seen by the driver.
use vstd::prelude::*;

use crate::bindings as sql;
use crate::driver::TypeInfo;

verus! {

/// A database value.
#[derive(Debug)]
pub struct Value(pub sql::Value);

impl Value {
    /// Wrap a value of the runtime interface.
    pub fn new(value: sql::Value) -> (v: Self)
        ensures
            v.0 == value,
    {
        Value(value)
    }

    /// The type of this value.
    pub fn type_info(&self) -> (ty: TypeInfo)
        ensures
            ty@ == self.0.spec_type_info(),
    {
        TypeInfo::new(self.0.type_info())
    }

    /// Whether this value is NULL.
    pub fn is_null(&self) -> (null: bool)
        ensures
            null == (self.0 is Null),
    {
        self.0.is_null()
    }

    /// Create a copy of this value.
    pub fn clone(&self) -> (copy: Value)
        ensures
            copy.0.same_value(self.0),
    {
        Value(self.0.clone())
    }
}

} // verus!

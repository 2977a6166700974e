//! Descriptions of SQL types.
use vstd::prelude::*;

use crate::bindings as sql;
use crate::error::Error;

verus! {

/// A description of a SQL type, together with its name.
#[derive(Debug)]
pub struct TypeInfo {
    tyinfo: sql::TypeInfo,
    name: String,
}

impl View for TypeInfo {
    type V = sql::TypeInfo;

    closed spec fn view(&self) -> sql::TypeInfo {
        self.tyinfo
    }
}

impl TypeInfo {
    #[verifier::type_invariant]
    spec fn name_matches(self) -> bool {
        self.name@ == self.tyinfo.spec_name()
    }

    /// Describe the given type.
    pub fn new(tyinfo: sql::TypeInfo) -> (t: Self)
        ensures
            t@ == tyinfo,
    {
        let name = tyinfo.name();
        TypeInfo { tyinfo, name }
    }

    /// The type that this describes.
    pub fn into_inner(self) -> (tyinfo: sql::TypeInfo)
        ensures
            tyinfo == self@,
    {
        self.tyinfo
    }

    /// The type that this describes.
    pub fn inner(&self) -> (tyinfo: &sql::TypeInfo)
        ensures
            *tyinfo == self@,
    {
        &self.tyinfo
    }

    /// Describe the type with the given name.
    ///
    /// `lookup` is what the database answered when asked for a type of that
    /// name. When it has no such type the result is `Error::TypeNotFound`
    /// naming it.
    pub fn with_name(name: &str, lookup: Result<sql::TypeInfo, String>) -> (t: Result<Self, Error>)
        ensures
            t is Ok <==> lookup is Ok,
            t matches Ok(t) ==> lookup == Ok::<sql::TypeInfo, String>(t@),
            t matches Err(e) ==> (e matches Error::TypeNotFound { name: n } && n@ == name@),
    {
        match lookup {
            Ok(tyinfo) => Ok(Self::new(tyinfo)),
            Err(_) => Err(Error::TypeNotFound { name: name.to_owned() }),
        }
    }

    /// The database system name of this type.
    pub fn name(&self) -> (name: &str)
        ensures
            name@ == self@.spec_name(),
    {
        proof {
            use_type_invariant(self);
        }
        self.name.as_str()
    }

    /// A type description is never the description of a NULL.
    pub fn is_null(&self) -> (null: bool)
        ensures
            !null,
    {
        false
    }

    /// Whether two descriptions denote exactly the same type.
    pub fn same(&self, other: &TypeInfo) -> (same: bool)
        ensures
            same == self@.same_type(other@),
    {
        self.tyinfo.equal(&other.tyinfo)
    }

    /// Create a copy of this description.
    pub fn clone(&self) -> (copy: TypeInfo)
        ensures
            copy@ == self@,
    {
        proof {
            use_type_invariant(self);
        }
        TypeInfo { tyinfo: self.tyinfo.clone(), name: self.name.clone() }
    }

    /// The `Boolean` type.
    pub fn boolean() -> (t: Self)
        ensures
            t@ == sql::TypeInfo::Boolean,
    {
        Self::new(sql::TypeInfo::Boolean)
    }

    /// The `Float4` type.
    pub fn float4() -> (t: Self)
        ensures
            t@ == sql::TypeInfo::Float4,
    {
        Self::new(sql::TypeInfo::Float4)
    }

    /// The `Float8` type.
    pub fn float8() -> (t: Self)
        ensures
            t@ == sql::TypeInfo::Float8,
    {
        Self::new(sql::TypeInfo::Float8)
    }

    /// The `Int1` type.
    pub fn int1() -> (t: Self)
        ensures
            t@ == sql::TypeInfo::Int1,
    {
        Self::new(sql::TypeInfo::Int1)
    }

    /// The `Int2` type.
    pub fn int2() -> (t: Self)
        ensures
            t@ == sql::TypeInfo::Int2,
    {
        Self::new(sql::TypeInfo::Int2)
    }

    /// The `Int4` type.
    pub fn int4() -> (t: Self)
        ensures
            t@ == sql::TypeInfo::Int4,
    {
        Self::new(sql::TypeInfo::Int4)
    }

    /// The `Int8` type.
    pub fn int8() -> (t: Self)
        ensures
            t@ == sql::TypeInfo::Int8,
    {
        Self::new(sql::TypeInfo::Int8)
    }

    /// The `Text` type.
    pub fn text() -> (t: Self)
        ensures
            t@ == sql::TypeInfo::Text,
    {
        Self::new(sql::TypeInfo::Text)
    }

    /// The `Bytea` type.
    pub fn bytea() -> (t: Self)
        ensures
            t@ == sql::TypeInfo::Bytea,
    {
        Self::new(sql::TypeInfo::Bytea)
    }

    /// The `Timestamptz` type.
    pub fn timestamptz() -> (t: Self)
        ensures
            t@ == sql::TypeInfo::Timestamptz,
    {
        Self::new(sql::TypeInfo::Timestamptz)
    }

    /// The `Timestamp` type.
    pub fn timestamp() -> (t: Self)
        ensures
            t@ == sql::TypeInfo::Timestamp,
    {
        Self::new(sql::TypeInfo::Timestamp)
    }

    /// The `Uuid` type.
    pub fn uuid() -> (t: Self)
        ensures
            t@ == sql::TypeInfo::Uuid,
    {
        Self::new(sql::TypeInfo::Uuid)
    }

    /// The `Jsonb` type.
    pub fn jsonb() -> (t: Self)
        ensures
            t@ == sql::TypeInfo::Jsonb,
    {
        Self::new(sql::TypeInfo::Jsonb)
    }

    /// The `Inet` type.
    pub fn inet() -> (t: Self)
        ensures
            t@ == sql::TypeInfo::Inet,
    {
        Self::new(sql::TypeInfo::Inet)
    }

    /// The `BooleanArray` type.
    pub fn boolean_array() -> (t: Self)
        ensures
            t@ == sql::TypeInfo::BooleanArray,
    {
        Self::new(sql::TypeInfo::BooleanArray)
    }

    /// The `Float4Array` type.
    pub fn float4_array() -> (t: Self)
        ensures
            t@ == sql::TypeInfo::Float4Array,
    {
        Self::new(sql::TypeInfo::Float4Array)
    }

    /// The `Float8Array` type.
    pub fn float8_array() -> (t: Self)
        ensures
            t@ == sql::TypeInfo::Float8Array,
    {
        Self::new(sql::TypeInfo::Float8Array)
    }

    /// The `Int1Array` type.
    pub fn int1_array() -> (t: Self)
        ensures
            t@ == sql::TypeInfo::Int1Array,
    {
        Self::new(sql::TypeInfo::Int1Array)
    }

    /// The `Int2Array` type.
    pub fn int2_array() -> (t: Self)
        ensures
            t@ == sql::TypeInfo::Int2Array,
    {
        Self::new(sql::TypeInfo::Int2Array)
    }

    /// The `Int4Array` type.
    pub fn int4_array() -> (t: Self)
        ensures
            t@ == sql::TypeInfo::Int4Array,
    {
        Self::new(sql::TypeInfo::Int4Array)
    }

    /// The `Int8Array` type.
    pub fn int8_array() -> (t: Self)
        ensures
            t@ == sql::TypeInfo::Int8Array,
    {
        Self::new(sql::TypeInfo::Int8Array)
    }

    /// The `TextArray` type.
    pub fn text_array() -> (t: Self)
        ensures
            t@ == sql::TypeInfo::TextArray,
    {
        Self::new(sql::TypeInfo::TextArray)
    }

    /// The `ByteaArray` type.
    pub fn bytea_array() -> (t: Self)
        ensures
            t@ == sql::TypeInfo::ByteaArray,
    {
        Self::new(sql::TypeInfo::ByteaArray)
    }

    /// The `TimestamptzArray` type.
    pub fn timestamptz_array() -> (t: Self)
        ensures
            t@ == sql::TypeInfo::TimestamptzArray,
    {
        Self::new(sql::TypeInfo::TimestamptzArray)
    }

    /// The `TimestampArray` type.
    pub fn timestamp_array() -> (t: Self)
        ensures
            t@ == sql::TypeInfo::TimestampArray,
    {
        Self::new(sql::TypeInfo::TimestampArray)
    }

    /// The `UuidArray` type.
    pub fn uuid_array() -> (t: Self)
        ensures
            t@ == sql::TypeInfo::UuidArray,
    {
        Self::new(sql::TypeInfo::UuidArray)
    }

    /// The `JsonbArray` type.
    pub fn jsonb_array() -> (t: Self)
        ensures
            t@ == sql::TypeInfo::JsonbArray,
    {
        Self::new(sql::TypeInfo::JsonbArray)
    }

    /// The `InetArray` type.
    pub fn inet_array() -> (t: Self)
        ensures
            t@ == sql::TypeInfo::InetArray,
    {
        Self::new(sql::TypeInfo::InetArray)
    }
}

} // verus!

//! The values exchanged with the runtime's `sql` interface.
//!
//! The runtime executes queries on behalf of the workflow. Everything that
//! crosses that boundary is described here as plain data: type descriptions,
//! database values, rows, query results and errors.
use vstd::prelude::*;

use crate::util::{bytes_views, copy_byte_vecs, copy_strings, copy_vec, slices_to_vecs, strs_to_strings};

verus! {

/// A timestamp recording a point in time without a timezone.
#[derive(Clone, Copy, Debug, PartialEq, Eq, Structural)]
pub struct Timestamp {
    pub seconds: i64,
    pub subsec_nanos: u32,
}

/// A timestamp combined with a utc offset representing a timezone.
#[derive(Clone, Copy, Debug, PartialEq, Eq, Structural)]
pub struct Timestamptz {
    pub seconds: i64,
    pub subsec_nanos: u32,
    /// The offset from UTC in seconds.
    ///
    /// Positive values are on the eastern hemisphere while negative values are
    /// on the western hemisphere.
    pub offset: i32,
}

/// A UUID, split into its high and low 64 bits.
#[derive(Clone, Copy, Debug, PartialEq, Eq, Structural)]
pub struct Uuid {
    pub hi: u64,
    pub lo: u64,
}

/// An IPv4 network range.
#[derive(Clone, Copy, Debug, PartialEq, Eq, Structural)]
pub struct Ipv4Network {
    /// The bits of the address.
    pub addr: u32,
    /// The network prefix. Values larger than 32 are refused when a value is
    /// constructed.
    pub prefix: u8,
}

/// An IPv6 network range.
#[derive(Clone, Copy, Debug)]
pub struct Ipv6Network {
    /// The 128-bit address, split into the low 64 bits followed by the high
    /// 64 bits.
    pub addr: (u64, u64),
    /// The network prefix. Values larger than 128 are refused when a value is
    /// constructed.
    pub prefix: u8,
}

/// An IP network range, either v4 or v6.
#[derive(Clone, Copy, Debug)]
pub enum IpNetwork {
    V4(Ipv4Network),
    V6(Ipv6Network),
}

/// The largest prefix allowed for a network range.
pub open spec fn max_prefix(net: IpNetwork) -> u8 {
    match net {
        IpNetwork::V4(_) => 32u8,
        IpNetwork::V6(_) => 128u8,
    }
}

/// The prefix of a network range.
pub open spec fn prefix_of(net: IpNetwork) -> u8 {
    match net {
        IpNetwork::V4(v4) => v4.prefix,
        IpNetwork::V6(v6) => v6.prefix,
    }
}

/// Whether the prefix of a network range fits its address family.
pub open spec fn valid_network(net: IpNetwork) -> bool {
    prefix_of(net) <= max_prefix(net)
}

/// Information about a SQL type as used by the database.
#[derive(Debug)]
pub enum TypeInfo {
    Boolean,
    Float4,
    Float8,
    Int1,
    Int2,
    Int4,
    Int8,
    Text,
    Bytea,
    Timestamptz,
    Timestamp,
    Uuid,
    Jsonb,
    Inet,
    BooleanArray,
    Float4Array,
    Float8Array,
    Int1Array,
    Int2Array,
    Int4Array,
    Int8Array,
    TextArray,
    ByteaArray,
    TimestamptzArray,
    TimestampArray,
    UuidArray,
    JsonbArray,
    InetArray,
    Json,
    JsonArray,
    /// A type that the database knows by the given name (an enum declared in
    /// the schema, for example).
    Named(String),
}

impl TypeInfo {
    /// The database system name of this type.
    pub open spec fn spec_name(self) -> Seq<char> {
        match self {
            TypeInfo::Boolean => "BOOL"@,
            TypeInfo::Float4 => "FLOAT4"@,
            TypeInfo::Float8 => "FLOAT8"@,
            TypeInfo::Int1 => "\"CHAR\""@,
            TypeInfo::Int2 => "INT2"@,
            TypeInfo::Int4 => "INT4"@,
            TypeInfo::Int8 => "INT8"@,
            TypeInfo::Text => "TEXT"@,
            TypeInfo::Bytea => "BYTEA"@,
            TypeInfo::Timestamptz => "TIMESTAMPTZ"@,
            TypeInfo::Timestamp => "TIMESTAMP"@,
            TypeInfo::Uuid => "UUID"@,
            TypeInfo::Jsonb => "JSONB"@,
            TypeInfo::Inet => "INET"@,
            TypeInfo::BooleanArray => "BOOL[]"@,
            TypeInfo::Float4Array => "FLOAT4[]"@,
            TypeInfo::Float8Array => "FLOAT8[]"@,
            TypeInfo::Int1Array => "\"CHAR\"[]"@,
            TypeInfo::Int2Array => "INT2[]"@,
            TypeInfo::Int4Array => "INT4[]"@,
            TypeInfo::Int8Array => "INT8[]"@,
            TypeInfo::TextArray => "TEXT[]"@,
            TypeInfo::ByteaArray => "BYTEA[]"@,
            TypeInfo::TimestamptzArray => "TIMESTAMPTZ[]"@,
            TypeInfo::TimestampArray => "TIMESTAMP[]"@,
            TypeInfo::UuidArray => "UUID[]"@,
            TypeInfo::JsonbArray => "JSONB[]"@,
            TypeInfo::InetArray => "INET[]"@,
            TypeInfo::Json => "JSON"@,
            TypeInfo::JsonArray => "JSON[]"@,
            TypeInfo::Named(name) => name@,
        }
    }

    /// Whether two type descriptions denote exactly the same type.
    pub open spec fn same_type(self, other: TypeInfo) -> bool {
        match self {
            TypeInfo::Named(a) => match other {
                TypeInfo::Named(b) => a@ == b@,
                _ => false,
            },
            _ => !(other is Named) && self == other,
        }
    }

    /// The database system name of this type.
    pub fn name(&self) -> (name: String)
        ensures
            name@ == self.spec_name(),
    {
        match self {
            TypeInfo::Boolean => String::from_str("BOOL"),
            TypeInfo::Float4 => String::from_str("FLOAT4"),
            TypeInfo::Float8 => String::from_str("FLOAT8"),
            TypeInfo::Int1 => String::from_str("\"CHAR\""),
            TypeInfo::Int2 => String::from_str("INT2"),
            TypeInfo::Int4 => String::from_str("INT4"),
            TypeInfo::Int8 => String::from_str("INT8"),
            TypeInfo::Text => String::from_str("TEXT"),
            TypeInfo::Bytea => String::from_str("BYTEA"),
            TypeInfo::Timestamptz => String::from_str("TIMESTAMPTZ"),
            TypeInfo::Timestamp => String::from_str("TIMESTAMP"),
            TypeInfo::Uuid => String::from_str("UUID"),
            TypeInfo::Jsonb => String::from_str("JSONB"),
            TypeInfo::Inet => String::from_str("INET"),
            TypeInfo::BooleanArray => String::from_str("BOOL[]"),
            TypeInfo::Float4Array => String::from_str("FLOAT4[]"),
            TypeInfo::Float8Array => String::from_str("FLOAT8[]"),
            TypeInfo::Int1Array => String::from_str("\"CHAR\"[]"),
            TypeInfo::Int2Array => String::from_str("INT2[]"),
            TypeInfo::Int4Array => String::from_str("INT4[]"),
            TypeInfo::Int8Array => String::from_str("INT8[]"),
            TypeInfo::TextArray => String::from_str("TEXT[]"),
            TypeInfo::ByteaArray => String::from_str("BYTEA[]"),
            TypeInfo::TimestamptzArray => String::from_str("TIMESTAMPTZ[]"),
            TypeInfo::TimestampArray => String::from_str("TIMESTAMP[]"),
            TypeInfo::UuidArray => String::from_str("UUID[]"),
            TypeInfo::JsonbArray => String::from_str("JSONB[]"),
            TypeInfo::InetArray => String::from_str("INET[]"),
            TypeInfo::Json => String::from_str("JSON"),
            TypeInfo::JsonArray => String::from_str("JSON[]"),
            TypeInfo::Named(name) => name.clone(),
        }
    }

    /// Whether `self` and `other` represent exactly the same type.
    pub fn equal(&self, other: &TypeInfo) -> (same: bool)
        ensures
            same == self.same_type(*other),
    {
        match self {
            TypeInfo::Named(a) => match other {
                TypeInfo::Named(b) => *a == *b,
                _ => false,
            },
            _ => {
                if let TypeInfo::Named(_) = other {
                    return false;
                }
                let same = self.tag() == other.tag();
                proof {
                    if same {
                        Self::lemma_tag_injective(*self, *other);
                    }
                }
                same
            },
        }
    }

    proof fn lemma_tag_injective(a: TypeInfo, b: TypeInfo)
        requires
            !(a is Named),
            !(b is Named),
            a.spec_tag() == b.spec_tag(),
        ensures
            a == b,
    {
        match a {
            TypeInfo::Boolean => { assert(b is Boolean); },
            TypeInfo::Float4 => { assert(b is Float4); },
            TypeInfo::Float8 => { assert(b is Float8); },
            TypeInfo::Int1 => { assert(b is Int1); },
            TypeInfo::Int2 => { assert(b is Int2); },
            TypeInfo::Int4 => { assert(b is Int4); },
            TypeInfo::Int8 => { assert(b is Int8); },
            TypeInfo::Text => { assert(b is Text); },
            TypeInfo::Bytea => { assert(b is Bytea); },
            TypeInfo::Timestamptz => { assert(b is Timestamptz); },
            TypeInfo::Timestamp => { assert(b is Timestamp); },
            TypeInfo::Uuid => { assert(b is Uuid); },
            TypeInfo::Jsonb => { assert(b is Jsonb); },
            TypeInfo::Inet => { assert(b is Inet); },
            TypeInfo::BooleanArray => { assert(b is BooleanArray); },
            TypeInfo::Float4Array => { assert(b is Float4Array); },
            TypeInfo::Float8Array => { assert(b is Float8Array); },
            TypeInfo::Int1Array => { assert(b is Int1Array); },
            TypeInfo::Int2Array => { assert(b is Int2Array); },
            TypeInfo::Int4Array => { assert(b is Int4Array); },
            TypeInfo::Int8Array => { assert(b is Int8Array); },
            TypeInfo::TextArray => { assert(b is TextArray); },
            TypeInfo::ByteaArray => { assert(b is ByteaArray); },
            TypeInfo::TimestamptzArray => { assert(b is TimestamptzArray); },
            TypeInfo::TimestampArray => { assert(b is TimestampArray); },
            TypeInfo::UuidArray => { assert(b is UuidArray); },
            TypeInfo::JsonbArray => { assert(b is JsonbArray); },
            TypeInfo::InetArray => { assert(b is InetArray); },
            TypeInfo::Json => { assert(b is Json); },
            TypeInfo::JsonArray => { assert(b is JsonArray); },
            TypeInfo::Named(_) => {},
        }
    }

    /// The position of a built-in type in the list of types.
    spec fn spec_tag(self) -> u8 {
        match self {
            TypeInfo::Boolean => 0,
            TypeInfo::Float4 => 1,
            TypeInfo::Float8 => 2,
            TypeInfo::Int1 => 3,
            TypeInfo::Int2 => 4,
            TypeInfo::Int4 => 5,
            TypeInfo::Int8 => 6,
            TypeInfo::Text => 7,
            TypeInfo::Bytea => 8,
            TypeInfo::Timestamptz => 9,
            TypeInfo::Timestamp => 10,
            TypeInfo::Uuid => 11,
            TypeInfo::Jsonb => 12,
            TypeInfo::Inet => 13,
            TypeInfo::BooleanArray => 14,
            TypeInfo::Float4Array => 15,
            TypeInfo::Float8Array => 16,
            TypeInfo::Int1Array => 17,
            TypeInfo::Int2Array => 18,
            TypeInfo::Int4Array => 19,
            TypeInfo::Int8Array => 20,
            TypeInfo::TextArray => 21,
            TypeInfo::ByteaArray => 22,
            TypeInfo::TimestamptzArray => 23,
            TypeInfo::TimestampArray => 24,
            TypeInfo::UuidArray => 25,
            TypeInfo::JsonbArray => 26,
            TypeInfo::InetArray => 27,
            TypeInfo::Json => 29,
            TypeInfo::JsonArray => 30,
            TypeInfo::Named(_) => 28,
        }
    }

    fn tag(&self) -> (tag: u8)
        ensures
            tag == self.spec_tag(),
    {
        match self {
            TypeInfo::Boolean => 0,
            TypeInfo::Float4 => 1,
            TypeInfo::Float8 => 2,
            TypeInfo::Int1 => 3,
            TypeInfo::Int2 => 4,
            TypeInfo::Int4 => 5,
            TypeInfo::Int8 => 6,
            TypeInfo::Text => 7,
            TypeInfo::Bytea => 8,
            TypeInfo::Timestamptz => 9,
            TypeInfo::Timestamp => 10,
            TypeInfo::Uuid => 11,
            TypeInfo::Jsonb => 12,
            TypeInfo::Inet => 13,
            TypeInfo::BooleanArray => 14,
            TypeInfo::Float4Array => 15,
            TypeInfo::Float8Array => 16,
            TypeInfo::Int1Array => 17,
            TypeInfo::Int2Array => 18,
            TypeInfo::Int4Array => 19,
            TypeInfo::Int8Array => 20,
            TypeInfo::TextArray => 21,
            TypeInfo::ByteaArray => 22,
            TypeInfo::TimestamptzArray => 23,
            TypeInfo::TimestampArray => 24,
            TypeInfo::UuidArray => 25,
            TypeInfo::JsonbArray => 26,
            TypeInfo::InetArray => 27,
            TypeInfo::Json => 29,
            TypeInfo::JsonArray => 30,
            TypeInfo::Named(_) => 28,
        }
    }

    /// Create a copy of this type description.
    pub fn clone(&self) -> (copy: TypeInfo)
        ensures
            copy == *self,
    {
        match self {
            TypeInfo::Named(name) => TypeInfo::Named(name.clone()),
            TypeInfo::Boolean => TypeInfo::Boolean,
            TypeInfo::Float4 => TypeInfo::Float4,
            TypeInfo::Float8 => TypeInfo::Float8,
            TypeInfo::Int1 => TypeInfo::Int1,
            TypeInfo::Int2 => TypeInfo::Int2,
            TypeInfo::Int4 => TypeInfo::Int4,
            TypeInfo::Int8 => TypeInfo::Int8,
            TypeInfo::Text => TypeInfo::Text,
            TypeInfo::Bytea => TypeInfo::Bytea,
            TypeInfo::Timestamptz => TypeInfo::Timestamptz,
            TypeInfo::Timestamp => TypeInfo::Timestamp,
            TypeInfo::Uuid => TypeInfo::Uuid,
            TypeInfo::Jsonb => TypeInfo::Jsonb,
            TypeInfo::Inet => TypeInfo::Inet,
            TypeInfo::BooleanArray => TypeInfo::BooleanArray,
            TypeInfo::Float4Array => TypeInfo::Float4Array,
            TypeInfo::Float8Array => TypeInfo::Float8Array,
            TypeInfo::Int1Array => TypeInfo::Int1Array,
            TypeInfo::Int2Array => TypeInfo::Int2Array,
            TypeInfo::Int4Array => TypeInfo::Int4Array,
            TypeInfo::Int8Array => TypeInfo::Int8Array,
            TypeInfo::TextArray => TypeInfo::TextArray,
            TypeInfo::ByteaArray => TypeInfo::ByteaArray,
            TypeInfo::TimestamptzArray => TypeInfo::TimestamptzArray,
            TypeInfo::TimestampArray => TypeInfo::TimestampArray,
            TypeInfo::UuidArray => TypeInfo::UuidArray,
            TypeInfo::JsonbArray => TypeInfo::JsonbArray,
            TypeInfo::InetArray => TypeInfo::InetArray,
            TypeInfo::Json => TypeInfo::Json,
            TypeInfo::JsonArray => TypeInfo::JsonArray,
        }
    }
}

/// A database value.
///
/// Floating point values are carried as their IEEE 754 bit patterns.
#[derive(Debug)]
pub enum Value {
    /// A NULL of the given type.
    Null(TypeInfo),
    Boolean(bool),
    Float4(u32),
    Float8(u64),
    Int1(i8),
    Int2(i16),
    Int4(i32),
    Int8(i64),
    Text(String),
    Bytea(Vec<u8>),
    Timestamptz(Timestamptz),
    Timestamp(Timestamp),
    Uuid(Uuid),
    Jsonb(String),
    Inet(IpNetwork),
    BooleanArray(Vec<bool>),
    Float4Array(Vec<u32>),
    Float8Array(Vec<u64>),
    Int1Array(Vec<i8>),
    Int2Array(Vec<i16>),
    Int4Array(Vec<i32>),
    Int8Array(Vec<i64>),
    TextArray(Vec<String>),
    ByteaArray(Vec<Vec<u8>>),
    TimestamptzArray(Vec<Timestamptz>),
    TimestampArray(Vec<Timestamp>),
    UuidArray(Vec<Uuid>),
    JsonbArray(Vec<String>),
    InetArray(Vec<IpNetwork>),
    /// A JSON document (not binary JSON), as its text.
    Json(String),
    /// A list of JSON documents (not binary JSON), as their texts.
    JsonArray(Vec<String>),
    /// A value of a type that the database knows by name (an enum declared
    /// in the schema, for example): the type's name and the value's text.
    Named(String, String),
}

impl Value {
    /// The type of a value.
    pub open spec fn spec_type_info(self) -> TypeInfo {
        match self {
            Value::Null(ty) => ty,
            Value::Boolean(_) => TypeInfo::Boolean,
            Value::Float4(_) => TypeInfo::Float4,
            Value::Float8(_) => TypeInfo::Float8,
            Value::Int1(_) => TypeInfo::Int1,
            Value::Int2(_) => TypeInfo::Int2,
            Value::Int4(_) => TypeInfo::Int4,
            Value::Int8(_) => TypeInfo::Int8,
            Value::Text(_) => TypeInfo::Text,
            Value::Bytea(_) => TypeInfo::Bytea,
            Value::Timestamptz(_) => TypeInfo::Timestamptz,
            Value::Timestamp(_) => TypeInfo::Timestamp,
            Value::Uuid(_) => TypeInfo::Uuid,
            Value::Jsonb(_) => TypeInfo::Jsonb,
            Value::Inet(_) => TypeInfo::Inet,
            Value::BooleanArray(_) => TypeInfo::BooleanArray,
            Value::Float4Array(_) => TypeInfo::Float4Array,
            Value::Float8Array(_) => TypeInfo::Float8Array,
            Value::Int1Array(_) => TypeInfo::Int1Array,
            Value::Int2Array(_) => TypeInfo::Int2Array,
            Value::Int4Array(_) => TypeInfo::Int4Array,
            Value::Int8Array(_) => TypeInfo::Int8Array,
            Value::TextArray(_) => TypeInfo::TextArray,
            Value::ByteaArray(_) => TypeInfo::ByteaArray,
            Value::TimestamptzArray(_) => TypeInfo::TimestamptzArray,
            Value::TimestampArray(_) => TypeInfo::TimestampArray,
            Value::UuidArray(_) => TypeInfo::UuidArray,
            Value::JsonbArray(_) => TypeInfo::JsonbArray,
            Value::InetArray(_) => TypeInfo::InetArray,
            Value::Json(_) => TypeInfo::Json,
            Value::JsonArray(_) => TypeInfo::JsonArray,
            Value::Named(name, _) => TypeInfo::Named(name),
        }
    }

    /// Whether this value is NULL.
    ///
    /// If this is true then all of the `as_*` methods return `None`.
    pub fn is_null(&self) -> (null: bool)
        ensures
            null == (*self is Null),
    {
        match self {
            Value::Null(_) => true,
            _ => false,
        }
    }

    /// The type of this value.
    pub fn type_info(&self) -> (ty: TypeInfo)
        ensures
            ty == self.spec_type_info(),
    {
        match self {
            Value::Null(ty) => ty.clone(),
            Value::Boolean(_) => TypeInfo::Boolean,
            Value::Float4(_) => TypeInfo::Float4,
            Value::Float8(_) => TypeInfo::Float8,
            Value::Int1(_) => TypeInfo::Int1,
            Value::Int2(_) => TypeInfo::Int2,
            Value::Int4(_) => TypeInfo::Int4,
            Value::Int8(_) => TypeInfo::Int8,
            Value::Text(_) => TypeInfo::Text,
            Value::Bytea(_) => TypeInfo::Bytea,
            Value::Timestamptz(_) => TypeInfo::Timestamptz,
            Value::Timestamp(_) => TypeInfo::Timestamp,
            Value::Uuid(_) => TypeInfo::Uuid,
            Value::Jsonb(_) => TypeInfo::Jsonb,
            Value::Inet(_) => TypeInfo::Inet,
            Value::BooleanArray(_) => TypeInfo::BooleanArray,
            Value::Float4Array(_) => TypeInfo::Float4Array,
            Value::Float8Array(_) => TypeInfo::Float8Array,
            Value::Int1Array(_) => TypeInfo::Int1Array,
            Value::Int2Array(_) => TypeInfo::Int2Array,
            Value::Int4Array(_) => TypeInfo::Int4Array,
            Value::Int8Array(_) => TypeInfo::Int8Array,
            Value::TextArray(_) => TypeInfo::TextArray,
            Value::ByteaArray(_) => TypeInfo::ByteaArray,
            Value::TimestamptzArray(_) => TypeInfo::TimestamptzArray,
            Value::TimestampArray(_) => TypeInfo::TimestampArray,
            Value::UuidArray(_) => TypeInfo::UuidArray,
            Value::JsonbArray(_) => TypeInfo::JsonbArray,
            Value::InetArray(_) => TypeInfo::InetArray,
            Value::Json(_) => TypeInfo::Json,
            Value::JsonArray(_) => TypeInfo::JsonArray,
            Value::Named(name, _) => TypeInfo::Named(name.clone()),
        }
    }

    /// Whether two values hold the same data.
    pub open spec fn same_value(self, other: Value) -> bool {
        match (self, other) {
            (Value::Null(a), Value::Null(b)) => a.same_type(b),
            (Value::Text(a), Value::Text(b)) => a@ == b@,
            (Value::Jsonb(a), Value::Jsonb(b)) => a@ == b@,
            (Value::Bytea(a), Value::Bytea(b)) => a@ == b@,
            (Value::TextArray(a), Value::TextArray(b)) => a@ == b@,
            (Value::JsonbArray(a), Value::JsonbArray(b)) => a@ == b@,
            (Value::ByteaArray(a), Value::ByteaArray(b)) => bytes_views(a@) == bytes_views(b@),
            (Value::BooleanArray(a), Value::BooleanArray(b)) => a@ == b@,
            (Value::Float4Array(a), Value::Float4Array(b)) => a@ == b@,
            (Value::Float8Array(a), Value::Float8Array(b)) => a@ == b@,
            (Value::Int1Array(a), Value::Int1Array(b)) => a@ == b@,
            (Value::Int2Array(a), Value::Int2Array(b)) => a@ == b@,
            (Value::Int4Array(a), Value::Int4Array(b)) => a@ == b@,
            (Value::Int8Array(a), Value::Int8Array(b)) => a@ == b@,
            (Value::TimestamptzArray(a), Value::TimestamptzArray(b)) => a@ == b@,
            (Value::TimestampArray(a), Value::TimestampArray(b)) => a@ == b@,
            (Value::UuidArray(a), Value::UuidArray(b)) => a@ == b@,
            (Value::InetArray(a), Value::InetArray(b)) => a@ == b@,
            (Value::Json(a), Value::Json(b)) => a@ == b@,
            (Value::JsonArray(a), Value::JsonArray(b)) => a@ == b@,
            (Value::Named(a, x), Value::Named(b, y)) => a@ == b@ && x@ == y@,
            _ => self == other,
        }
    }

    /// Create a copy of this value.
    pub fn clone(&self) -> (copy: Value)
        ensures
            copy.same_value(*self),
    {
        match self {
            Value::Null(ty) => Value::Null(ty.clone()),
            Value::Boolean(v) => Value::Boolean(*v),
            Value::Float4(v) => Value::Float4(*v),
            Value::Float8(v) => Value::Float8(*v),
            Value::Int1(v) => Value::Int1(*v),
            Value::Int2(v) => Value::Int2(*v),
            Value::Int4(v) => Value::Int4(*v),
            Value::Int8(v) => Value::Int8(*v),
            Value::Text(v) => Value::Text(v.clone()),
            Value::Bytea(v) => Value::Bytea(copy_vec(v)),
            Value::Timestamptz(v) => Value::Timestamptz(*v),
            Value::Timestamp(v) => Value::Timestamp(*v),
            Value::Uuid(v) => Value::Uuid(*v),
            Value::Jsonb(v) => Value::Jsonb(v.clone()),
            Value::Inet(v) => Value::Inet(*v),
            Value::BooleanArray(v) => Value::BooleanArray(copy_vec(v)),
            Value::Float4Array(v) => Value::Float4Array(copy_vec(v)),
            Value::Float8Array(v) => Value::Float8Array(copy_vec(v)),
            Value::Int1Array(v) => Value::Int1Array(copy_vec(v)),
            Value::Int2Array(v) => Value::Int2Array(copy_vec(v)),
            Value::Int4Array(v) => Value::Int4Array(copy_vec(v)),
            Value::Int8Array(v) => Value::Int8Array(copy_vec(v)),
            Value::TextArray(v) => Value::TextArray(copy_strings(v)),
            Value::ByteaArray(v) => Value::ByteaArray(copy_byte_vecs(v)),
            Value::TimestamptzArray(v) => Value::TimestamptzArray(copy_vec(v)),
            Value::TimestampArray(v) => Value::TimestampArray(copy_vec(v)),
            Value::UuidArray(v) => Value::UuidArray(copy_vec(v)),
            Value::JsonbArray(v) => Value::JsonbArray(copy_strings(v)),
            Value::InetArray(v) => Value::InetArray(copy_vec(v)),
            Value::Json(v) => Value::Json(v.clone()),
            Value::JsonArray(v) => Value::JsonArray(copy_strings(v)),
            Value::Named(name, text) => Value::Named(name.clone(), text.clone()),
        }
    }

    /// Create a null value with the provided type info.
    pub fn null(tyinfo: TypeInfo) -> (value: Value)
        ensures
            value == Value::Null(tyinfo),
    {
        Value::Null(tyinfo)
    }

    /// The payload of this value if it holds a `Boolean`.
    pub fn as_boolean(&self) -> (r: Option<bool>)
        ensures
            r == (match *self {
                Value::Boolean(v) => Some(v),
                _ => None,
            }),
    {
        match self {
            Value::Boolean(v) => Some(*v),
            _ => None,
        }
    }

    /// A `Boolean` value.
    pub fn boolean(value: bool) -> (v: Value)
        ensures
            v == Value::Boolean(value),
    {
        Value::Boolean(value)
    }

    /// The payload of this value if it holds a `Float4`.
    pub fn as_float4(&self) -> (r: Option<u32>)
        ensures
            r == (match *self {
                Value::Float4(v) => Some(v),
                _ => None,
            }),
    {
        match self {
            Value::Float4(v) => Some(*v),
            _ => None,
        }
    }

    /// A `Float4` value.
    pub fn float4(value: u32) -> (v: Value)
        ensures
            v == Value::Float4(value),
    {
        Value::Float4(value)
    }

    /// The payload of this value if it holds a `Float8`.
    pub fn as_float8(&self) -> (r: Option<u64>)
        ensures
            r == (match *self {
                Value::Float8(v) => Some(v),
                _ => None,
            }),
    {
        match self {
            Value::Float8(v) => Some(*v),
            _ => None,
        }
    }

    /// A `Float8` value.
    pub fn float8(value: u64) -> (v: Value)
        ensures
            v == Value::Float8(value),
    {
        Value::Float8(value)
    }

    /// The payload of this value if it holds a `Int1`.
    pub fn as_int1(&self) -> (r: Option<i8>)
        ensures
            r == (match *self {
                Value::Int1(v) => Some(v),
                _ => None,
            }),
    {
        match self {
            Value::Int1(v) => Some(*v),
            _ => None,
        }
    }

    /// A `Int1` value.
    pub fn int1(value: i8) -> (v: Value)
        ensures
            v == Value::Int1(value),
    {
        Value::Int1(value)
    }

    /// The payload of this value if it holds a `Int2`.
    pub fn as_int2(&self) -> (r: Option<i16>)
        ensures
            r == (match *self {
                Value::Int2(v) => Some(v),
                _ => None,
            }),
    {
        match self {
            Value::Int2(v) => Some(*v),
            _ => None,
        }
    }

    /// A `Int2` value.
    pub fn int2(value: i16) -> (v: Value)
        ensures
            v == Value::Int2(value),
    {
        Value::Int2(value)
    }

    /// The payload of this value if it holds a `Int4`.
    pub fn as_int4(&self) -> (r: Option<i32>)
        ensures
            r == (match *self {
                Value::Int4(v) => Some(v),
                _ => None,
            }),
    {
        match self {
            Value::Int4(v) => Some(*v),
            _ => None,
        }
    }

    /// A `Int4` value.
    pub fn int4(value: i32) -> (v: Value)
        ensures
            v == Value::Int4(value),
    {
        Value::Int4(value)
    }

    /// The payload of this value if it holds a `Int8`.
    pub fn as_int8(&self) -> (r: Option<i64>)
        ensures
            r == (match *self {
                Value::Int8(v) => Some(v),
                _ => None,
            }),
    {
        match self {
            Value::Int8(v) => Some(*v),
            _ => None,
        }
    }

    /// A `Int8` value.
    pub fn int8(value: i64) -> (v: Value)
        ensures
            v == Value::Int8(value),
    {
        Value::Int8(value)
    }

    /// The payload of this value if it holds a `Timestamptz`.
    pub fn as_timestamptz(&self) -> (r: Option<Timestamptz>)
        ensures
            r == (match *self {
                Value::Timestamptz(v) => Some(v),
                _ => None,
            }),
    {
        match self {
            Value::Timestamptz(v) => Some(*v),
            _ => None,
        }
    }

    /// A `Timestamptz` value.
    pub fn timestamptz(value: Timestamptz) -> (v: Value)
        ensures
            v == Value::Timestamptz(value),
    {
        Value::Timestamptz(value)
    }

    /// The payload of this value if it holds a `Timestamp`.
    pub fn as_timestamp(&self) -> (r: Option<Timestamp>)
        ensures
            r == (match *self {
                Value::Timestamp(v) => Some(v),
                _ => None,
            }),
    {
        match self {
            Value::Timestamp(v) => Some(*v),
            _ => None,
        }
    }

    /// A `Timestamp` value.
    pub fn timestamp(value: Timestamp) -> (v: Value)
        ensures
            v == Value::Timestamp(value),
    {
        Value::Timestamp(value)
    }

    /// The payload of this value if it holds a `Uuid`.
    pub fn as_uuid(&self) -> (r: Option<Uuid>)
        ensures
            r == (match *self {
                Value::Uuid(v) => Some(v),
                _ => None,
            }),
    {
        match self {
            Value::Uuid(v) => Some(*v),
            _ => None,
        }
    }

    /// A `Uuid` value.
    pub fn uuid(value: Uuid) -> (v: Value)
        ensures
            v == Value::Uuid(value),
    {
        Value::Uuid(value)
    }

    /// The elements of this value if it holds a `BooleanArray`.
    pub fn as_boolean_array(&self) -> (r: Option<Vec<bool>>)
        ensures
            r is Some <==> *self is BooleanArray,
            r matches Some(x) ==> (*self matches Value::BooleanArray(v) && x@ == v@),
    {
        match self {
            Value::BooleanArray(v) => Some(copy_vec(v)),
            _ => None,
        }
    }

    /// A `BooleanArray` value holding the given elements.
    pub fn boolean_array(value: &[bool]) -> (v: Value)
        ensures
            v matches Value::BooleanArray(x) && x@ == value@,
    {
        Value::BooleanArray(vstd::slice::slice_to_vec(value))
    }

    /// The elements of this value if it holds a `Float4Array`.
    pub fn as_float4_array(&self) -> (r: Option<Vec<u32>>)
        ensures
            r is Some <==> *self is Float4Array,
            r matches Some(x) ==> (*self matches Value::Float4Array(v) && x@ == v@),
    {
        match self {
            Value::Float4Array(v) => Some(copy_vec(v)),
            _ => None,
        }
    }

    /// A `Float4Array` value holding the given elements.
    pub fn float4_array(value: &[u32]) -> (v: Value)
        ensures
            v matches Value::Float4Array(x) && x@ == value@,
    {
        Value::Float4Array(vstd::slice::slice_to_vec(value))
    }

    /// The elements of this value if it holds a `Float8Array`.
    pub fn as_float8_array(&self) -> (r: Option<Vec<u64>>)
        ensures
            r is Some <==> *self is Float8Array,
            r matches Some(x) ==> (*self matches Value::Float8Array(v) && x@ == v@),
    {
        match self {
            Value::Float8Array(v) => Some(copy_vec(v)),
            _ => None,
        }
    }

    /// A `Float8Array` value holding the given elements.
    pub fn float8_array(value: &[u64]) -> (v: Value)
        ensures
            v matches Value::Float8Array(x) && x@ == value@,
    {
        Value::Float8Array(vstd::slice::slice_to_vec(value))
    }

    /// The elements of this value if it holds a `Int1Array`.
    pub fn as_int1_array(&self) -> (r: Option<Vec<i8>>)
        ensures
            r is Some <==> *self is Int1Array,
            r matches Some(x) ==> (*self matches Value::Int1Array(v) && x@ == v@),
    {
        match self {
            Value::Int1Array(v) => Some(copy_vec(v)),
            _ => None,
        }
    }

    /// A `Int1Array` value holding the given elements.
    pub fn int1_array(value: &[i8]) -> (v: Value)
        ensures
            v matches Value::Int1Array(x) && x@ == value@,
    {
        Value::Int1Array(vstd::slice::slice_to_vec(value))
    }

    /// The elements of this value if it holds a `Int2Array`.
    pub fn as_int2_array(&self) -> (r: Option<Vec<i16>>)
        ensures
            r is Some <==> *self is Int2Array,
            r matches Some(x) ==> (*self matches Value::Int2Array(v) && x@ == v@),
    {
        match self {
            Value::Int2Array(v) => Some(copy_vec(v)),
            _ => None,
        }
    }

    /// A `Int2Array` value holding the given elements.
    pub fn int2_array(value: &[i16]) -> (v: Value)
        ensures
            v matches Value::Int2Array(x) && x@ == value@,
    {
        Value::Int2Array(vstd::slice::slice_to_vec(value))
    }

    /// The elements of this value if it holds a `Int4Array`.
    pub fn as_int4_array(&self) -> (r: Option<Vec<i32>>)
        ensures
            r is Some <==> *self is Int4Array,
            r matches Some(x) ==> (*self matches Value::Int4Array(v) && x@ == v@),
    {
        match self {
            Value::Int4Array(v) => Some(copy_vec(v)),
            _ => None,
        }
    }

    /// A `Int4Array` value holding the given elements.
    pub fn int4_array(value: &[i32]) -> (v: Value)
        ensures
            v matches Value::Int4Array(x) && x@ == value@,
    {
        Value::Int4Array(vstd::slice::slice_to_vec(value))
    }

    /// The elements of this value if it holds a `Int8Array`.
    pub fn as_int8_array(&self) -> (r: Option<Vec<i64>>)
        ensures
            r is Some <==> *self is Int8Array,
            r matches Some(x) ==> (*self matches Value::Int8Array(v) && x@ == v@),
    {
        match self {
            Value::Int8Array(v) => Some(copy_vec(v)),
            _ => None,
        }
    }

    /// A `Int8Array` value holding the given elements.
    pub fn int8_array(value: &[i64]) -> (v: Value)
        ensures
            v matches Value::Int8Array(x) && x@ == value@,
    {
        Value::Int8Array(vstd::slice::slice_to_vec(value))
    }

    /// The elements of this value if it holds a `TimestamptzArray`.
    pub fn as_timestamptz_array(&self) -> (r: Option<Vec<Timestamptz>>)
        ensures
            r is Some <==> *self is TimestamptzArray,
            r matches Some(x) ==> (*self matches Value::TimestamptzArray(v) && x@ == v@),
    {
        match self {
            Value::TimestamptzArray(v) => Some(copy_vec(v)),
            _ => None,
        }
    }

    /// A `TimestamptzArray` value holding the given elements.
    pub fn timestamptz_array(value: &[Timestamptz]) -> (v: Value)
        ensures
            v matches Value::TimestamptzArray(x) && x@ == value@,
    {
        Value::TimestamptzArray(vstd::slice::slice_to_vec(value))
    }

    /// The elements of this value if it holds a `TimestampArray`.
    pub fn as_timestamp_array(&self) -> (r: Option<Vec<Timestamp>>)
        ensures
            r is Some <==> *self is TimestampArray,
            r matches Some(x) ==> (*self matches Value::TimestampArray(v) && x@ == v@),
    {
        match self {
            Value::TimestampArray(v) => Some(copy_vec(v)),
            _ => None,
        }
    }

    /// A `TimestampArray` value holding the given elements.
    pub fn timestamp_array(value: &[Timestamp]) -> (v: Value)
        ensures
            v matches Value::TimestampArray(x) && x@ == value@,
    {
        Value::TimestampArray(vstd::slice::slice_to_vec(value))
    }

    /// The elements of this value if it holds a `UuidArray`.
    pub fn as_uuid_array(&self) -> (r: Option<Vec<Uuid>>)
        ensures
            r is Some <==> *self is UuidArray,
            r matches Some(x) ==> (*self matches Value::UuidArray(v) && x@ == v@),
    {
        match self {
            Value::UuidArray(v) => Some(copy_vec(v)),
            _ => None,
        }
    }

    /// A `UuidArray` value holding the given elements.
    pub fn uuid_array(value: &[Uuid]) -> (v: Value)
        ensures
            v matches Value::UuidArray(x) && x@ == value@,
    {
        Value::UuidArray(vstd::slice::slice_to_vec(value))
    }

    /// The text of this value if it holds a `Text`, or a value of a type
    /// known by name.
    pub fn as_text(&self) -> (r: Option<String>)
        ensures
            r is Some <==> (*self is Text || *self is Named),
            r matches Some(x) ==> (*self matches Value::Text(v) && x@ == v@) || (*self matches Value::Named(
                _,
                v,
            ) && x@ == v@),
    {
        match self {
            Value::Text(v) => Some(v.clone()),
            Value::Named(_, v) => Some(v.clone()),
            _ => None,
        }
    }

    /// A value of the type known by the name `name`, with the text `text`.
    pub fn named(name: &str, text: &str) -> (v: Value)
        ensures
            v matches Value::Named(n, t) && n@ == name@ && t@ == text@,
    {
        Value::Named(name.to_owned(), text.to_owned())
    }

    /// A `Text` value.
    pub fn text(value: &str) -> (v: Value)
        ensures
            v matches Value::Text(x) && x@ == value@,
    {
        Value::Text(value.to_owned())
    }

    /// The bytes of this value if it holds a `Bytea`.
    pub fn as_bytea(&self) -> (r: Option<Vec<u8>>)
        ensures
            r is Some <==> *self is Bytea,
            r matches Some(x) ==> (*self matches Value::Bytea(v) && x@ == v@),
    {
        match self {
            Value::Bytea(v) => Some(copy_vec(v)),
            _ => None,
        }
    }

    /// A `Bytea` value.
    pub fn bytea(value: &[u8]) -> (v: Value)
        ensures
            v matches Value::Bytea(x) && x@ == value@,
    {
        Value::Bytea(vstd::slice::slice_to_vec(value))
    }

    /// The JSON text of this value if it holds a JSON document, binary
    /// (`Jsonb`) or not (`Json`).
    pub fn as_json(&self) -> (r: Option<String>)
        ensures
            r is Some <==> (*self is Jsonb || *self is Json),
            r matches Some(x) ==> (*self matches Value::Jsonb(v) && x@ == v@) || (*self matches Value::Json(
                v,
            ) && x@ == v@),
    {
        match self {
            Value::Jsonb(v) => Some(v.clone()),
            Value::Json(v) => Some(v.clone()),
            _ => None,
        }
    }

    /// A `Jsonb` value holding the given JSON text.
    pub fn jsonb(value: &str) -> (v: Value)
        ensures
            v matches Value::Jsonb(x) && x@ == value@,
    {
        Value::Jsonb(value.to_owned())
    }

    /// The network of this value if it holds an `Inet`.
    pub fn as_inet(&self) -> (r: Option<IpNetwork>)
        ensures
            r == (match *self {
                Value::Inet(v) => Some(v),
                _ => None,
            }),
    {
        match self {
            Value::Inet(v) => Some(*v),
            _ => None,
        }
    }

    /// An `Inet` value.
    ///
    /// Returns an error if the prefix is too large for the address family.
    pub fn inet(value: IpNetwork) -> (v: Result<Value, String>)
        ensures
            v is Ok <==> valid_network(value),
            v matches Ok(x) ==> x == Value::Inet(value),
            v matches Err(msg) ==> msg@ == invalid_prefix_message(value),
    {
        check_network(value)?;
        Ok(Value::Inet(value))
    }

    /// The elements of this value if it holds a `TextArray`.
    pub fn as_text_array(&self) -> (r: Option<Vec<String>>)
        ensures
            r is Some <==> *self is TextArray,
            r matches Some(x) ==> (*self matches Value::TextArray(v) && x@ == v@),
    {
        match self {
            Value::TextArray(v) => Some(copy_strings(v)),
            _ => None,
        }
    }

    /// A `TextArray` value.
    pub fn text_array(value: &[&str]) -> (v: Value)
        ensures
            v matches Value::TextArray(x) && x.len() == value@.len()
                && forall|i: int| 0 <= i < x.len() ==> #[trigger] x@[i]@ == value@[i]@,
    {
        Value::TextArray(strs_to_strings(value))
    }

    /// The elements of this value if it holds a `ByteaArray`.
    pub fn as_bytea_array(&self) -> (r: Option<Vec<Vec<u8>>>)
        ensures
            r is Some <==> *self is ByteaArray,
            r matches Some(x) ==> (*self matches Value::ByteaArray(v) && bytes_views(x@)
                == bytes_views(v@)),
    {
        match self {
            Value::ByteaArray(v) => Some(copy_byte_vecs(v)),
            _ => None,
        }
    }

    /// A `ByteaArray` value.
    pub fn bytea_array(value: &[&[u8]]) -> (v: Value)
        ensures
            v matches Value::ByteaArray(x) && x.len() == value@.len()
                && forall|i: int| 0 <= i < x.len() ==> #[trigger] x@[i]@ == value@[i]@,
    {
        Value::ByteaArray(slices_to_vecs(value))
    }

    /// The JSON texts of this value if it holds a list of JSON documents,
    /// binary (`JsonbArray`) or not (`JsonArray`).
    pub fn as_json_array(&self) -> (r: Option<Vec<String>>)
        ensures
            r is Some <==> (*self is JsonbArray || *self is JsonArray),
            r matches Some(x) ==> (*self matches Value::JsonbArray(v) && x@ == v@) || (*self matches Value::JsonArray(
                v,
            ) && x@ == v@),
    {
        match self {
            Value::JsonbArray(v) => Some(copy_strings(v)),
            Value::JsonArray(v) => Some(copy_strings(v)),
            _ => None,
        }
    }

    /// A `JsonbArray` value holding the given JSON texts.
    pub fn jsonb_array(value: &[&str]) -> (v: Value)
        ensures
            v matches Value::JsonbArray(x) && x.len() == value@.len()
                && forall|i: int| 0 <= i < x.len() ==> #[trigger] x@[i]@ == value@[i]@,
    {
        Value::JsonbArray(strs_to_strings(value))
    }

    /// The networks of this value if it holds an `InetArray`.
    pub fn as_inet_array(&self) -> (r: Option<Vec<IpNetwork>>)
        ensures
            r is Some <==> *self is InetArray,
            r matches Some(x) ==> (*self matches Value::InetArray(v) && x@ == v@),
    {
        match self {
            Value::InetArray(v) => Some(copy_vec(v)),
            _ => None,
        }
    }

    /// An `InetArray` value.
    ///
    /// Returns an error naming the first network whose prefix is too large for
    /// its address family.
    pub fn inet_array(value: &[IpNetwork]) -> (v: Result<Value, String>)
        ensures
            v is Ok <==> forall|i: int| 0 <= i < value@.len() ==> valid_network(#[trigger] value@[i]),
            v matches Ok(x) ==> (x matches Value::InetArray(nets) && nets@ == value@),
            v matches Err(msg) ==> exists|i: int|
                0 <= i < value@.len() && !valid_network(#[trigger] value@[i])
                    && msg@ == invalid_prefix_message(value@[i])
                    && forall|j: int| 0 <= j < i ==> valid_network(#[trigger] value@[j]),
    {
        let mut i: usize = 0;
        while i < value.len()
            invariant
                i <= value@.len(),
                forall|j: int| 0 <= j < i ==> valid_network(#[trigger] value@[j]),
            decreases value@.len() - i,
        {
            match check_network(value[i]) {
                Ok(()) => {},
                Err(msg) => {
                    assert(!valid_network(value@[i as int]));
                    return Err(msg);
                },
            }
            i += 1;
        }
        Ok(Value::InetArray(vstd::slice::slice_to_vec(value)))
    }
}

/// The message given when a network prefix is too large.
pub open spec fn invalid_prefix_message(net: IpNetwork) -> Seq<char> {
    match net {
        IpNetwork::V4(_) => "IPv4 network prefix was larger than 32"@,
        IpNetwork::V6(_) => "IPv6 network prefix was larger than 128"@,
    }
}

/// Refuse a network range whose prefix is too large for its address family.
fn check_network(net: IpNetwork) -> (r: Result<(), String>)
    ensures
        r is Ok <==> valid_network(net),
        r matches Err(msg) ==> msg@ == invalid_prefix_message(net),
{
    match net {
        IpNetwork::V4(v4) => if v4.prefix > 32 {
            Err(String::from_str("IPv4 network prefix was larger than 32"))
        } else {
            Ok(())
        },
        IpNetwork::V6(v6) => if v6.prefix > 128 {
            Err(String::from_str("IPv6 network prefix was larger than 128"))
        } else {
            Ok(())
        },
    }
}

/// A named column of a row returned by the database.
#[derive(Debug)]
pub struct Column {
    pub name: String,
    pub value: Value,
}

/// A row returned by the database.
#[derive(Debug)]
pub struct Row {
    pub columns: Vec<Column>,
}

/// One item produced while a query runs.
#[derive(Debug)]
pub enum QueryResult {
    /// A query has completed and this many rows were modified.
    Count(u64),
    /// A single row from the query output.
    Row(Row),
}

/// Options that accompany a query.
#[derive(Clone, Copy, Debug, PartialEq, Eq, Structural)]
pub struct Options {
    /// Allows the runtime to limit the number of rows returned.
    ///
    /// Setting limit > 1 means that all rows will be returned.
    pub limit: u8,
    /// Whether the runtime should keep the statement in its query cache.
    pub persistent: bool,
}

/// A value in a column could not be decoded.
#[derive(Debug)]
pub struct ColumnDecodeError {
    pub index: String,
    pub source: String,
}

/// The kind of an error reported by the database.
#[derive(Clone, Copy, Debug, PartialEq, Eq, Structural)]
pub enum DatabaseErrorKind {
    UniqueViolation,
    ForeignKeyViolation,
    NotNullViolation,
    CheckViolation,
    Other,
}

/// An error reported by the database.
#[derive(Debug)]
pub struct DatabaseError {
    pub message: String,
    pub kind: DatabaseErrorKind,
    pub code: Option<String>,
    pub constraint: Option<String>,
    pub table: Option<String>,
}

/// The errors that the runtime reports while running a query.
#[derive(Debug)]
pub enum Error {
    ColumnDecode(ColumnDecodeError),
    TypeNotFound(String),
    Encode(String),
    Decode(String),
    Database(DatabaseError),
    Other(String),
}

} // verus!

verus! {

/// Each built-in type is named as the database names it, the name of a list
/// type is the name of its element type followed by `[]`, and a type known by
/// name is named by that name.
pub proof fn lemma_type_names(name: String)
    ensures
        TypeInfo::Boolean.spec_name() == "BOOL"@,
        TypeInfo::Float4.spec_name() == "FLOAT4"@,
        TypeInfo::Float8.spec_name() == "FLOAT8"@,
        TypeInfo::Int1.spec_name() == "\"CHAR\""@,
        TypeInfo::Int2.spec_name() == "INT2"@,
        TypeInfo::Int4.spec_name() == "INT4"@,
        TypeInfo::Int8.spec_name() == "INT8"@,
        TypeInfo::Text.spec_name() == "TEXT"@,
        TypeInfo::Bytea.spec_name() == "BYTEA"@,
        TypeInfo::Timestamptz.spec_name() == "TIMESTAMPTZ"@,
        TypeInfo::Timestamp.spec_name() == "TIMESTAMP"@,
        TypeInfo::Uuid.spec_name() == "UUID"@,
        TypeInfo::Jsonb.spec_name() == "JSONB"@,
        TypeInfo::Inet.spec_name() == "INET"@,
        TypeInfo::Json.spec_name() == "JSON"@,
        TypeInfo::BooleanArray.spec_name() == TypeInfo::Boolean.spec_name() + "[]"@,
        TypeInfo::Float4Array.spec_name() == TypeInfo::Float4.spec_name() + "[]"@,
        TypeInfo::Float8Array.spec_name() == TypeInfo::Float8.spec_name() + "[]"@,
        TypeInfo::Int1Array.spec_name() == TypeInfo::Int1.spec_name() + "[]"@,
        TypeInfo::Int2Array.spec_name() == TypeInfo::Int2.spec_name() + "[]"@,
        TypeInfo::Int4Array.spec_name() == TypeInfo::Int4.spec_name() + "[]"@,
        TypeInfo::Int8Array.spec_name() == TypeInfo::Int8.spec_name() + "[]"@,
        TypeInfo::TextArray.spec_name() == TypeInfo::Text.spec_name() + "[]"@,
        TypeInfo::ByteaArray.spec_name() == TypeInfo::Bytea.spec_name() + "[]"@,
        TypeInfo::TimestamptzArray.spec_name() == TypeInfo::Timestamptz.spec_name() + "[]"@,
        TypeInfo::TimestampArray.spec_name() == TypeInfo::Timestamp.spec_name() + "[]"@,
        TypeInfo::UuidArray.spec_name() == TypeInfo::Uuid.spec_name() + "[]"@,
        TypeInfo::JsonbArray.spec_name() == TypeInfo::Jsonb.spec_name() + "[]"@,
        TypeInfo::InetArray.spec_name() == TypeInfo::Inet.spec_name() + "[]"@,
        TypeInfo::JsonArray.spec_name() == TypeInfo::Json.spec_name() + "[]"@,
        TypeInfo::Named(name).spec_name() == name@,
{
    reveal_strlit("BOOL");
    reveal_strlit("BOOL[]");
    reveal_strlit("FLOAT4");
    reveal_strlit("FLOAT4[]");
    reveal_strlit("FLOAT8");
    reveal_strlit("FLOAT8[]");
    reveal_strlit("\"CHAR\"");
    reveal_strlit("\"CHAR\"[]");
    reveal_strlit("INT2");
    reveal_strlit("INT2[]");
    reveal_strlit("INT4");
    reveal_strlit("INT4[]");
    reveal_strlit("INT8");
    reveal_strlit("INT8[]");
    reveal_strlit("TEXT");
    reveal_strlit("TEXT[]");
    reveal_strlit("BYTEA");
    reveal_strlit("BYTEA[]");
    reveal_strlit("TIMESTAMPTZ");
    reveal_strlit("TIMESTAMPTZ[]");
    reveal_strlit("TIMESTAMP");
    reveal_strlit("TIMESTAMP[]");
    reveal_strlit("UUID");
    reveal_strlit("UUID[]");
    reveal_strlit("JSONB");
    reveal_strlit("JSONB[]");
    reveal_strlit("INET");
    reveal_strlit("INET[]");
    reveal_strlit("JSON");
    reveal_strlit("JSON[]");
    reveal_strlit("[]");
}

/// Comparing type descriptions is an equivalence: every type is the same as
/// itself, and sameness is symmetric and transitive.
pub proof fn lemma_same_type_equivalence(a: TypeInfo, b: TypeInfo, c: TypeInfo)
    ensures
        a.same_type(a),
        a.same_type(b) ==> b.same_type(a),
        a.same_type(b) && b.same_type(c) ==> a.same_type(c),
{
}

/// The type of a value is the type named after its own variant: an `Int8`
/// is of type `INT8`, a list of `Text` of type `TEXT[]`, and so on; a NULL
/// is of the type it was made with, and a value of a type known by name is of
/// that named type.
pub proof fn lemma_type_of_variant(v: Value)
    ensures
        v matches Value::Null(t) ==> v.spec_type_info() == t,
        v matches Value::Named(n, _) ==> v.spec_type_info() == TypeInfo::Named(n),
        v is Boolean ==> v.spec_type_info() == TypeInfo::Boolean,
        v is Float4 ==> v.spec_type_info() == TypeInfo::Float4,
        v is Float8 ==> v.spec_type_info() == TypeInfo::Float8,
        v is Int1 ==> v.spec_type_info() == TypeInfo::Int1,
        v is Int2 ==> v.spec_type_info() == TypeInfo::Int2,
        v is Int4 ==> v.spec_type_info() == TypeInfo::Int4,
        v is Int8 ==> v.spec_type_info() == TypeInfo::Int8,
        v is Text ==> v.spec_type_info() == TypeInfo::Text,
        v is Bytea ==> v.spec_type_info() == TypeInfo::Bytea,
        v is Timestamptz ==> v.spec_type_info() == TypeInfo::Timestamptz,
        v is Timestamp ==> v.spec_type_info() == TypeInfo::Timestamp,
        v is Uuid ==> v.spec_type_info() == TypeInfo::Uuid,
        v is Jsonb ==> v.spec_type_info() == TypeInfo::Jsonb,
        v is Inet ==> v.spec_type_info() == TypeInfo::Inet,
        v is BooleanArray ==> v.spec_type_info() == TypeInfo::BooleanArray,
        v is Float4Array ==> v.spec_type_info() == TypeInfo::Float4Array,
        v is Float8Array ==> v.spec_type_info() == TypeInfo::Float8Array,
        v is Int1Array ==> v.spec_type_info() == TypeInfo::Int1Array,
        v is Int2Array ==> v.spec_type_info() == TypeInfo::Int2Array,
        v is Int4Array ==> v.spec_type_info() == TypeInfo::Int4Array,
        v is Int8Array ==> v.spec_type_info() == TypeInfo::Int8Array,
        v is TextArray ==> v.spec_type_info() == TypeInfo::TextArray,
        v is ByteaArray ==> v.spec_type_info() == TypeInfo::ByteaArray,
        v is TimestamptzArray ==> v.spec_type_info() == TypeInfo::TimestamptzArray,
        v is TimestampArray ==> v.spec_type_info() == TypeInfo::TimestampArray,
        v is UuidArray ==> v.spec_type_info() == TypeInfo::UuidArray,
        v is JsonbArray ==> v.spec_type_info() == TypeInfo::JsonbArray,
        v is InetArray ==> v.spec_type_info() == TypeInfo::InetArray,
        v is Json ==> v.spec_type_info() == TypeInfo::Json,
        v is JsonArray ==> v.spec_type_info() == TypeInfo::JsonArray,
{
}

/// A NULL holds no payload: every `as_*` accessor of a NULL value gives
/// `None`, as each of them gives a payload only for its own variant.
pub proof fn lemma_null_has_no_payload(v: Value)
    requires
        v is Null,
    ensures
        !(v is Boolean) && !(v is Float4) && !(v is Float8) && !(v is Int1) && !(v is Int2),
        !(v is Int4) && !(v is Int8) && !(v is Text) && !(v is Bytea) && !(v is Timestamptz),
        !(v is Timestamp) && !(v is Uuid) && !(v is Jsonb) && !(v is Inet),
        !(v is BooleanArray) && !(v is Float4Array) && !(v is Float8Array) && !(v is Int1Array),
        !(v is Int2Array) && !(v is Int4Array) && !(v is Int8Array) && !(v is TextArray),
        !(v is ByteaArray) && !(v is TimestamptzArray) && !(v is TimestampArray),
        !(v is UuidArray) && !(v is JsonbArray) && !(v is InetArray) && !(v is Named),
        !(v is Json) && !(v is JsonArray),
{
}

/// Values that cross the component interface as a 32-bit integer.
pub trait AsI32: Sized {
    /// The integer that this value crosses as.
    spec fn carried_i32(self) -> i32;

    /// The integer that this value crosses as.
    fn as_i32(self) -> (r: i32)
        ensures
            r == self.carried_i32(),
    ;
}

/// Values that cross the component interface as a 64-bit integer.
pub trait AsI64: Sized {
    /// The integer that this value crosses as.
    spec fn carried_i64(self) -> i64;

    /// The integer that this value crosses as.
    fn as_i64(self) -> (r: i64)
        ensures
            r == self.carried_i64(),
    ;
}

/// The 32-bit integer that `t` crosses the interface as.
pub fn as_i32<T: AsI32>(t: T) -> (r: i32)
    ensures
        r == t.carried_i32(),
{
    t.as_i32()
}

/// The 64-bit integer that `t` crosses the interface as.
pub fn as_i64<T: AsI64>(t: T) -> (r: i64)
    ensures
        r == t.carried_i64(),
{
    t.as_i64()
}

impl<'a, T: Copy + AsI32> AsI32 for &'a T {
    open spec fn carried_i32(self) -> i32 {
        (*self).carried_i32()
    }

    fn as_i32(self) -> (r: i32) {
        (*self).as_i32()
    }
}

impl AsI32 for i32 {
    open spec fn carried_i32(self) -> i32 {
        self
    }

    fn as_i32(self) -> (r: i32) {
        self
    }
}

impl AsI32 for u32 {
    open spec fn carried_i32(self) -> i32 {
        self as i32
    }

    fn as_i32(self) -> (r: i32) {
        self as i32
    }
}

impl AsI32 for i16 {
    open spec fn carried_i32(self) -> i32 {
        self as i32
    }

    fn as_i32(self) -> (r: i32) {
        self as i32
    }
}

impl AsI32 for u16 {
    open spec fn carried_i32(self) -> i32 {
        self as i32
    }

    fn as_i32(self) -> (r: i32) {
        self as i32
    }
}

impl AsI32 for i8 {
    open spec fn carried_i32(self) -> i32 {
        self as i32
    }

    fn as_i32(self) -> (r: i32) {
        self as i32
    }
}

impl AsI32 for u8 {
    open spec fn carried_i32(self) -> i32 {
        self as i32
    }

    fn as_i32(self) -> (r: i32) {
        self as i32
    }
}

impl AsI32 for char {
    open spec fn carried_i32(self) -> i32 {
        self as i32
    }

    fn as_i32(self) -> (r: i32) {
        self as i32
    }
}

impl AsI32 for usize {
    open spec fn carried_i32(self) -> i32 {
        self as i32
    }

    fn as_i32(self) -> (r: i32) {
        self as i32
    }
}

impl<'a, T: Copy + AsI64> AsI64 for &'a T {
    open spec fn carried_i64(self) -> i64 {
        (*self).carried_i64()
    }

    fn as_i64(self) -> (r: i64) {
        (*self).as_i64()
    }
}

impl AsI64 for i64 {
    open spec fn carried_i64(self) -> i64 {
        self
    }

    fn as_i64(self) -> (r: i64) {
        self
    }
}

impl AsI64 for u64 {
    open spec fn carried_i64(self) -> i64 {
        self as i64
    }

    fn as_i64(self) -> (r: i64) {
        self as i64
    }
}

} // verus!

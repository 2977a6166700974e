//! Text.
use vstd::prelude::*;

use super::{nonnull_message, unexpected_nonnull_type};
use crate::bindings as sql;
use crate::driver::{TypeInfo, Value};
use crate::util::string_views;

verus! {

/// The text held by a `Text` value or by a value of a type known by name.
pub open spec fn spec_decode_text(value: sql::Value) -> Option<Seq<char>> {
    match value {
        sql::Value::Text(s) => Some(s@),
        sql::Value::Named(_, s) => Some(s@),
        _ => None,
    }
}

/// The texts held by a `TextArray` value.
pub open spec fn spec_decode_text_array(value: sql::Value) -> Option<Seq<Seq<char>>> {
    match value {
        sql::Value::TextArray(x) => Some(string_views(x@)),
        _ => None,
    }
}

/// The character sequences of a list of string slices.
pub open spec fn str_views(v: Seq<&str>) -> Seq<Seq<char>> {
    v.map_values(|s: &str| s@)
}

/// The value that a string is bound as.
pub fn encode_str(v: &str) -> (value: Value)
    ensures
        value.0 matches sql::Value::Text(s) && s@ == v@,
        spec_decode_text(value.0) == Some(v@),
{
    Value::new(sql::Value::text(v))
}

/// Read a string from a value.
pub fn decode_string(value: &Value) -> (r: Result<String, String>)
    ensures
        r is Ok <==> spec_decode_text(value.0) is Some,
        r matches Ok(x) ==> spec_decode_text(value.0) == Some(x@),
        r matches Err(m) ==> m@ == nonnull_message(sql::TypeInfo::Text, value.0),
{
    match value.0.as_text() {
        Some(text) => Ok(text),
        None => Err(unexpected_nonnull_type(&TypeInfo::text(), value)),
    }
}

/// The value that a list of string slices is bound as.
pub fn encode_str_array(v: &[&str]) -> (value: Value)
    ensures
        value.0 is TextArray,
        spec_decode_text_array(value.0) == Some(str_views(v@)),
{
    let value = sql::Value::text_array(v);
    proof {
        if let sql::Value::TextArray(ref x) = value {
            assert(string_views(x@) =~= str_views(v@));
        }
    }
    Value::new(value)
}

/// The value that a list of strings is bound as.
pub fn encode_string_array(v: &[String]) -> (value: Value)
    ensures
        value.0 is TextArray,
        spec_decode_text_array(value.0) == Some(string_views(v@)),
{
    let mut strings: Vec<String> = Vec::new();
    let mut i: usize = 0;
    while i < v.len()
        invariant
            i <= v@.len(),
            strings@ == v@.subrange(0, i as int),
        decreases v@.len() - i,
    {
        strings.push(v[i].clone());
        i += 1;
    }
    assert(strings@ =~= v@);
    Value::new(sql::Value::TextArray(strings))
}

/// Read a list of strings from a value.
pub fn decode_string_array(value: &Value) -> (r: Result<Vec<String>, String>)
    ensures
        r is Ok <==> spec_decode_text_array(value.0) is Some,
        r matches Ok(x) ==> spec_decode_text_array(value.0) == Some(string_views(x@)),
        r matches Err(m) ==> m@ == nonnull_message(sql::TypeInfo::TextArray, value.0),
{
    match value.0.as_text_array() {
        Some(texts) => Ok(texts),
        None => Err(unexpected_nonnull_type(&TypeInfo::text_array(), value)),
    }
}

/// Reading back the value that a string or a list of strings is bound as
/// gives it back.
pub proof fn lemma_text_roundtrip(s: String, v: Vec<String>)
    ensures
        spec_decode_text(sql::Value::Text(s)) == Some(s@),
        spec_decode_text_array(sql::Value::TextArray(v)) == Some(string_views(v@)),
{
}

/// A string is read from a value holding a text or a value of a type known by
/// name, as that text, and from no other kind of value; a list of strings is
/// read from a value's list of texts only. The texts of a list of string
/// slices are the slices' own texts, one for one and in their order.
pub proof fn lemma_text_kinds(s: String, n: String, v: Seq<&str>, value: sql::Value)
    ensures
        spec_decode_text(sql::Value::Named(n, s)) == Some(s@),
        spec_decode_text(value) is Some <==> (value is Text || value is Named),
        spec_decode_text_array(value) is Some <==> value is TextArray,
        str_views(v).len() == v.len(),
        forall|i: int| 0 <= i < v.len() ==> #[trigger] str_views(v)[i] == v[i]@,
{
}

} // verus!

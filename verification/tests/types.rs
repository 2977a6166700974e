use durable_sqlx::bindings as sql;
use durable_sqlx::driver::types::boolean::{decode_bool, decode_bool_array, encode_bool, encode_bool_array};
use durable_sqlx::driver::types::bytea::{decode_bytes, decode_bytes_array, encode_byte_vecs, encode_bytes, encode_bytes_array};
use durable_sqlx::driver::types::float::{decode_f32, decode_f32_array, decode_f64, encode_f32, encode_f32_array, encode_f64, encode_f64_array, Float};
use durable_sqlx::driver::types::integer::{
    decode_i16, decode_i32, decode_i64, decode_i8, decode_i8_array, encode_i16, encode_i16_array, encode_i32,
    encode_i32_array, encode_i64, encode_i64_array, encode_i8, encode_i8_array,
};
use durable_sqlx::driver::types::ipnetwork::{decode_ip_addr, decode_ip_net, encode_ip_addr, encode_ip_net, IpAddress, IpNet};
use durable_sqlx::driver::types::json::{decode_json, decode_json_array, encode_json, encode_json_array};
use durable_sqlx::driver::types::text::{decode_string, decode_string_array, encode_str, encode_str_array, encode_string_array};
use durable_sqlx::driver::types::timestamp::{decode_timestamp, decode_timestamptz, encode_timestamp, encode_timestamptz};
use durable_sqlx::driver::types::uuid::{decode_uuid, decode_uuid_array, encode_uuid, encode_uuid_array};
use durable_sqlx::driver::{TypeInfo, Value};

fn uuid_parts(u: uuid::Uuid) -> sql::Uuid {
    let (hi, lo) = u.as_u64_pair();
    sql::Uuid { hi, lo }
}

#[test]
fn slice_refs_implement_encode() {
    let v = encode_i8_array(&[1i8, -2][..]);
    assert!(matches!(&v.0, sql::Value::Int1Array(x) if x == &vec![1i8, -2]));
    let v = encode_i16_array(&[300i16][..]);
    assert!(matches!(&v.0, sql::Value::Int2Array(x) if x == &vec![300i16]));
    let v = encode_i32_array(&[70000i32, 0][..]);
    assert!(matches!(&v.0, sql::Value::Int4Array(x) if x == &vec![70000i32, 0]));
    let v = encode_i64_array(&[i64::MAX][..]);
    assert!(matches!(&v.0, sql::Value::Int8Array(x) if x == &vec![i64::MAX]));
    let floats: Vec<u32> = [1.5f32, -0.25].iter().map(|f| f.to_bits()).collect();
    let v = encode_f32_array(&floats[..]);
    assert!(matches!(&v.0, sql::Value::Float4Array(x) if x == &floats));
    let doubles: Vec<u64> = [2.5f64].iter().map(|f| f.to_bits()).collect();
    let v = encode_f64_array(&doubles[..]);
    assert!(matches!(&v.0, sql::Value::Float8Array(x) if x == &doubles));
    let v = encode_bool_array(&[true, false][..]);
    assert!(matches!(&v.0, sql::Value::BooleanArray(x) if x == &vec![true, false]));
    let v = encode_str_array(&["a", "bc"][..]);
    assert!(matches!(&v.0, sql::Value::TextArray(x) if x == &vec!["a".to_string(), "bc".to_string()]));
    let strings = vec!["x".to_string()];
    let v = encode_string_array(&strings[..]);
    assert!(matches!(&v.0, sql::Value::TextArray(x) if x == &strings));
    let id = uuid_parts(uuid::Uuid::from_u128(0x0123_4567_89ab_cdef_0011_2233_4455_6677));
    let v = encode_uuid_array(&[id][..]);
    assert!(matches!(&v.0, sql::Value::UuidArray(x) if x == &vec![id]));
}

#[test]
fn integers_read_back_at_any_width() {
    assert_eq!(decode_i8(&encode_i8(-5)).unwrap(), -5);
    assert_eq!(decode_i16(&encode_i16(-300)).unwrap(), -300);
    assert_eq!(decode_i32(&encode_i32(123456)).unwrap(), 123456);
    assert_eq!(decode_i64(&encode_i64(i64::MIN)).unwrap(), i64::MIN);
    assert_eq!(decode_i64(&encode_i8(7)).unwrap(), 7);
    assert_eq!(decode_i16(&encode_i32(1000)).unwrap(), 1000);
}

#[test]
fn integers_out_of_range_are_refused() {
    assert_eq!(decode_i8(&encode_i16(200)).unwrap_err(), "integer value out of range");
    assert_eq!(decode_i32(&encode_i64(1 << 40)).unwrap_err(), "integer value out of range");
}

#[test]
fn integer_from_other_type_is_refused() {
    assert_eq!(decode_i32(&encode_str("1")).unwrap_err(), "expected INT8, got TEXT instead");
    let null = Value::new(sql::Value::null(sql::TypeInfo::Int4));
    assert_eq!(decode_i64(&null).unwrap_err(), "expected non-null INT8, got null instead");
}

#[test]
fn floats_read_back_at_either_precision() {
    let bits = 1.5f32.to_bits();
    assert_eq!(decode_f32(&encode_f32(bits)).unwrap(), Float::Single(bits));
    let dbits = (-2.75f64).to_bits();
    assert_eq!(decode_f64(&encode_f64(dbits)).unwrap(), Float::Double(dbits));
    assert_eq!(decode_f32(&encode_f64(dbits)).unwrap(), Float::Double(dbits));
    assert_eq!(decode_f32_array(&encode_f32_array(&[bits][..])).unwrap(), vec![bits]);
    assert_eq!(decode_f64(&encode_bool(true)).unwrap_err(), "expected FLOAT8, got BOOL instead");
}

#[test]
fn bools_read_back() {
    assert_eq!(decode_bool(&encode_bool(true)).unwrap(), true);
    assert_eq!(decode_bool_array(&encode_bool_array(&[false, true][..])).unwrap(), vec![false, true]);
    assert_eq!(decode_bool(&encode_i32(1)).unwrap_err(), "expected BOOL, got INT4 instead");
}

#[test]
fn text_reads_back() {
    assert_eq!(decode_string(&encode_str("hello")).unwrap(), "hello");
    assert_eq!(
        decode_string_array(&encode_str_array(&["a", "b"][..])).unwrap(),
        vec!["a".to_string(), "b".to_string()]
    );
}

#[test]
fn bytes_read_back() {
    assert_eq!(decode_bytes(&encode_bytes(&[1u8, 2, 3][..])).unwrap(), vec![1u8, 2, 3]);
    let parts: [&[u8]; 2] = [&[1u8][..], &[][..]];
    assert_eq!(decode_bytes_array(&encode_bytes_array(&parts[..])).unwrap(), vec![vec![1u8], vec![]]);
    let vecs = vec![vec![9u8, 8]];
    assert_eq!(decode_bytes_array(&encode_byte_vecs(&vecs[..])).unwrap(), vecs);
}

#[test]
fn json_reads_back() {
    assert_eq!(decode_json(&encode_json("{\"a\":1}")).unwrap(), "{\"a\":1}");
    assert_eq!(decode_json_array(&encode_json_array(&["1", "[]"][..])).unwrap(), vec!["1".to_string(), "[]".to_string()]);
}

#[test]
fn uuids_read_back() {
    let id = uuid_parts(uuid::Uuid::from_u128(42));
    assert_eq!(decode_uuid(&encode_uuid(id)).unwrap(), id);
    assert_eq!(decode_uuid_array(&encode_uuid_array(&[id, id][..])).unwrap(), vec![id, id]);
    assert_eq!(id.hi, 0);
    assert_eq!(id.lo, 42);
}

#[test]
fn timestamps_read_back() {
    let t = sql::Timestamp { seconds: 1_700_000_000, subsec_nanos: 5 };
    assert_eq!(decode_timestamp(&encode_timestamp(t)).unwrap(), t);
    let tz = sql::Timestamptz { seconds: -1, subsec_nanos: 999_999_999, offset: 3600 };
    assert_eq!(decode_timestamptz(&encode_timestamptz(tz)).unwrap(), tz);
}

#[test]
fn networks_read_back() {
    let net = IpNet::V4 { addr: 0x0a00_0000, prefix: 8 };
    let v = encode_ip_net(net).unwrap();
    assert_eq!(decode_ip_net(&v).unwrap(), net);
    let net6 = IpNet::V6 { addr: 0x2001_0db8_0000_0000_0000_0000_0000_0001, prefix: 64 };
    let v = encode_ip_net(net6).unwrap();
    assert!(matches!(&v.0, sql::Value::Inet(sql::IpNetwork::V6(n)) if n.addr == (1, 0x2001_0db8_0000_0000) && n.prefix == 64));
    assert_eq!(decode_ip_net(&v).unwrap(), net6);
}

#[test]
fn addresses_read_back() {
    let v = encode_ip_addr(IpAddress::V4(0x7f00_0001)).unwrap();
    assert!(matches!(&v.0, sql::Value::Inet(sql::IpNetwork::V4(n)) if n.prefix == 32));
    assert_eq!(decode_ip_addr(&v).unwrap(), IpAddress::V4(0x7f00_0001));
    let v = encode_ip_addr(IpAddress::V6(1)).unwrap();
    assert_eq!(decode_ip_addr(&v).unwrap(), IpAddress::V6(1));
}

#[test]
fn address_from_wide_network_is_refused() {
    let v = encode_ip_net(IpNet::V4 { addr: 0, prefix: 24 }).unwrap();
    assert_eq!(
        decode_ip_addr(&v).unwrap_err(),
        "attempted to decode an IpAddr from a ip network containing multiple addresses"
    );
}

#[test]
fn network_with_long_prefix_is_refused() {
    let wire = sql::IpNetwork::V4(sql::Ipv4Network { addr: 1, prefix: 33 });
    assert_eq!(IpNet::from_wire(wire).unwrap_err(), "invalid prefix");
    let wire6 = sql::IpNetwork::V6(sql::Ipv6Network { addr: (1, 2), prefix: 129 });
    assert_eq!(IpNet::from_wire(wire6).unwrap_err(), "invalid prefix");
    let ok6 = sql::IpNetwork::V6(sql::Ipv6Network { addr: (1, 2), prefix: 128 });
    assert_eq!(IpNet::from_wire(ok6).unwrap(), IpNet::V6 { addr: (2u128 << 64) | 1, prefix: 128 });
}

#[test]
fn type_names_follow_postgres() {
    assert_eq!(TypeInfo::int4().name(), "INT4");
    assert_eq!(TypeInfo::text_array().name(), "TEXT[]");
    assert_eq!(TypeInfo::jsonb().name(), "JSONB");
    assert!(!TypeInfo::boolean().is_null());
    assert!(TypeInfo::uuid().same(&TypeInfo::uuid()));
    assert!(!TypeInfo::uuid().same(&TypeInfo::text()));
}

#[test]
fn json_of_either_kind_reads_back() {
    let plain = Value::new(sql::Value::Json("{\"a\":1}".to_string()));
    assert_eq!(decode_json(&plain).unwrap(), "{\"a\":1}");
    assert_eq!(plain.type_info().name(), "JSON");
    let binary = encode_json("[1]");
    assert!(matches!(&binary.0, sql::Value::Jsonb(s) if s == "[1]"));
    assert_eq!(binary.0.as_json(), Some("[1]".to_string()));
    let list = Value::new(sql::Value::JsonArray(vec!["1".to_string(), "2".to_string()]));
    assert_eq!(decode_json_array(&list).unwrap(), vec!["1".to_string(), "2".to_string()]);
    assert_eq!(list.type_info().name(), "JSON[]");
}

#[test]
fn strings_are_bound_as_text() {
    assert!(matches!(&encode_str("x").0, sql::Value::Text(s) if s == "x"));
    assert_eq!(encode_str("x").type_info().name(), "TEXT");
}

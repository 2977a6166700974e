use std::cell::RefCell;

use durable_sqlx::bindings::{self as sql, as_i32, as_i64, AsI32};
use durable_sqlx::driver::connection::Fetched;
use durable_sqlx::driver::error::{convert_query_error, wire_kind, DatabaseError, ErrorKind, UnsupportedError};
use durable_sqlx::driver::types::integer::decode_i32;
use durable_sqlx::driver::types::text::decode_string;
use durable_sqlx::driver::{ColumnIndex, ConnectOptions, Durable, Either, QueryResult, Row, Statement, TransactionManager, TypeInfo};
use durable_sqlx::{Connection, Error, Request};

fn sample_row() -> Row {
    Row::from_raw(sql::Row {
        columns: vec![
            sql::Column { name: "id".to_string(), value: sql::Value::Int4(7) },
            sql::Column { name: "name".to_string(), value: sql::Value::Text("x".to_string()) },
            sql::Column { name: "id".to_string(), value: sql::Value::Int4(8) },
            sql::Column { name: "gone".to_string(), value: sql::Value::Null(sql::TypeInfo::Int4) },
        ],
    })
}

#[test]
fn row_columns_follow_the_runtime_row() {
    let row = sample_row();
    assert_eq!(row.len(), 4);
    assert!(!row.is_empty());
    let columns = row.columns();
    assert_eq!(columns[1].name(), "name");
    assert_eq!(columns[1].ordinal(), 1);
    assert_eq!(columns[1].type_info().name(), "TEXT");
    assert_eq!(columns[3].type_info().name(), "INT4");
    assert!(Row::from_raw(sql::Row { columns: vec![] }).is_empty());
}

#[test]
fn columns_are_found_by_position_or_first_name() {
    let row = sample_row();
    assert_eq!(row.index(ColumnIndex::Position(2)).unwrap(), 2);
    assert_eq!(row.index(ColumnIndex::Name("id")).unwrap(), 0);
    assert!(matches!(
        row.index(ColumnIndex::Position(4)),
        Err(Error::ColumnIndexOutOfBounds { index: 4, len: 4 })
    ));
    assert!(matches!(row.index(ColumnIndex::Name("nope")), Err(Error::ColumnNotFound(n)) if n == "nope"));
    let v = row.try_get_raw(ColumnIndex::Position(2)).unwrap();
    assert_eq!(decode_i32(v).unwrap(), 8);
}

fn int4_compatible(t: &TypeInfo) -> bool {
    t.same(&TypeInfo::int4())
}

#[test]
fn try_get_decodes_compatible_values() {
    let row = sample_row();
    let r = row.try_get(ColumnIndex::Name("id"), "i32", &TypeInfo::int4(), int4_compatible, decode_i32);
    assert_eq!(r.unwrap(), 7);
    let t = row.get(ColumnIndex::Position(2), "i32", &TypeInfo::int4(), int4_compatible, decode_i32);
    assert_eq!(t, 8);
}

#[test]
fn try_get_refuses_incompatible_types() {
    let row = sample_row();
    let r = row.try_get(ColumnIndex::Name("name"), "i32", &TypeInfo::int4(), int4_compatible, decode_i32);
    match r {
        Err(Error::ColumnDecode { index, source }) => {
            assert_eq!(index, "\"name\"");
            assert_eq!(
                source,
                "mismatched types; Rust type `i32` (as SQL type `INT4`) is not compatible with SQL type `TEXT`"
            );
        },
        other => panic!("unexpected {:?}", other),
    }
}

#[test]
fn try_get_names_column_of_failed_decode() {
    let row = sample_row();
    let r = row.try_get(ColumnIndex::Position(3), "i32", &TypeInfo::int4(), int4_compatible, decode_i32);
    match r {
        Err(Error::ColumnDecode { index, source }) => {
            assert_eq!(index, "3");
            assert_eq!(source, "expected non-null INT8, got null instead");
        },
        other => panic!("unexpected {:?}", other),
    }
    let r = row.try_get(ColumnIndex::Name("missing"), "String", &TypeInfo::text(), |_t: &TypeInfo| true, decode_string);
    assert!(matches!(r, Err(Error::ColumnNotFound(n)) if n == "missing"));
}

fn recording(log: &RefCell<Vec<String>>, result: Fetched) -> impl FnOnce(Request) -> Vec<Fetched> + '_ {
    move |req: Request| {
        log.borrow_mut().push(req.sql.clone());
        vec![result]
    }
}

#[test]
fn savepoints_nest_and_unwind() {
    let log = RefCell::new(Vec::new());
    let mut conn = Connection::new();
    assert_eq!(TransactionManager::get_transaction_depth(&conn), 0);
    TransactionManager::begin(&mut conn, recording(&log, Ok(sql::QueryResult::Count(0)))).unwrap();
    TransactionManager::begin(&mut conn, recording(&log, Ok(sql::QueryResult::Count(0)))).unwrap();
    assert_eq!(TransactionManager::get_transaction_depth(&conn), 2);
    TransactionManager::commit(&mut conn, recording(&log, Ok(sql::QueryResult::Count(0)))).unwrap();
    TransactionManager::rollback(&mut conn, recording(&log, Ok(sql::QueryResult::Count(0)))).unwrap();
    assert_eq!(conn.depth(), 0);
    assert_eq!(
        *log.borrow(),
        vec![
            "SAVEPOINT savepoint_0".to_string(),
            "SAVEPOINT savepoint_1".to_string(),
            "RELEASE savepoint_1".to_string(),
            "ROLLBACK TO savepoint_0".to_string(),
        ]
    );
}

#[test]
fn commit_and_rollback_need_an_open_savepoint() {
    let log = RefCell::new(Vec::new());
    let mut conn = Connection::new();
    let r = TransactionManager::commit(&mut conn, recording(&log, Ok(sql::QueryResult::Count(0))));
    assert!(matches!(r, Err(Error::Protocol(m))
        if m == "attempted to commit a database transaction when no transaction was active"));
    let r = TransactionManager::rollback(&mut conn, recording(&log, Ok(sql::QueryResult::Count(0))));
    assert!(matches!(r, Err(Error::Protocol(m))
        if m == "attempted to rollback a database transaction when no transaction was active"));
    assert!(log.borrow().is_empty());
    TransactionManager::start_rollback(&mut conn, recording(&log, Ok(sql::QueryResult::Count(0))));
    assert_eq!(conn.depth(), 0);
}

#[test]
fn failed_savepoint_keeps_depth() {
    let log = RefCell::new(Vec::new());
    let mut conn = Connection::new();
    let r = TransactionManager::begin(&mut conn, recording(&log, Err(sql::Error::Other("denied".to_string()))));
    assert!(matches!(r, Err(Error::Protocol(m)) if m == "denied"));
    assert_eq!(conn.depth(), 0);
}

#[test]
fn query_results_add_up() {
    let mut total = QueryResult::new(3);
    total.extend(&vec![QueryResult::new(4), QueryResult::new(0)]);
    assert_eq!(total.rows_affected(), 7);
    assert_eq!(Durable::name(), "durable");
}

#[test]
fn runtime_errors_convert() {
    let db = sql::DatabaseError {
        message: "duplicate".to_string(),
        kind: sql::DatabaseErrorKind::UniqueViolation,
        code: Some("23505".to_string()),
        constraint: None,
        table: Some("t".to_string()),
    };
    let wrapped = DatabaseError(db);
    assert_eq!(wrapped.message(), "duplicate");
    assert_eq!(wrapped.kind(), ErrorKind::UniqueViolation);
    assert!(matches!(wire_kind(ErrorKind::CheckViolation), sql::DatabaseErrorKind::CheckViolation));
    let e = convert_query_error(sql::Error::ColumnDecode(sql::ColumnDecodeError {
        index: "0".to_string(),
        source: "bad".to_string(),
    }));
    assert!(matches!(e, Error::ColumnDecode { index, source } if index == "0" && source == "bad"));
    assert!(matches!(convert_query_error(sql::Error::TypeNotFound("mood".to_string())),
        Error::TypeNotFound { name } if name == "mood"));
    assert!(matches!(convert_query_error(sql::Error::Other("o".to_string())), Error::Protocol(m) if m == "o"));
}

#[test]
fn types_are_looked_up_by_name() {
    let found = TypeInfo::with_name("mood", Ok(sql::TypeInfo::Named("mood".to_string()))).unwrap();
    assert_eq!(found.name(), "mood");
    let missing = TypeInfo::with_name("nothing", Err("no such type".to_string()));
    assert!(matches!(missing, Err(Error::TypeNotFound { name }) if name == "nothing"));
}

#[test]
fn connect_options_are_unsupported() {
    assert!(matches!(ConnectOptions::from_str("postgres://x"), Err(Error::Configuration(m)) if m == "operation not supported"));
    assert!(matches!(ConnectOptions::from_url("postgres://x"), Err(Error::Configuration(m)) if m == "operation not supported"));
    assert_eq!(UnsupportedError::new().message(), "operation not supported");
}

#[test]
fn statements_keep_their_text() {
    let s = Statement::new("SELECT 1");
    assert_eq!(s.sql(), "SELECT 1");
    assert_eq!(s.to_owned().sql(), "SELECT 1");
}

#[test]
fn integers_cross_as_their_bits() {
    assert_eq!(as_i32(u32::MAX), -1);
    assert_eq!(as_i32('a'), 97);
    assert_eq!(as_i32(&200u8), 200);
    assert_eq!(as_i32(-3i16), -3);
    assert_eq!(7usize.as_i32(), 7);
    assert_eq!(as_i64(u64::MAX), -1);
    assert_eq!(as_i64(&-9i64), -9);
}

#[test]
fn null_value_has_no_payload() {
    let v = sql::Value::null(sql::TypeInfo::Int4);
    assert!(v.is_null());
    assert_eq!(v.as_int4(), None);
    assert_eq!(v.as_boolean(), None);
    assert_eq!(v.as_int8_array(), None);
    assert!(matches!(v.type_info(), sql::TypeInfo::Int4));
    let w = sql::Value::int4(3);
    assert!(!w.is_null());
    assert_eq!(w.as_int4(), Some(3));
}

#[test]
fn type_descriptions_compare_as_an_equivalence() {
    let a = sql::TypeInfo::Named("mood".to_string());
    let b = sql::TypeInfo::Named("mood".to_string());
    let c = sql::TypeInfo::Named("other".to_string());
    assert!(a.equal(&a));
    assert!(a.equal(&b) && b.equal(&a));
    assert!(!a.equal(&c));
    assert!(sql::TypeInfo::Int4.equal(&sql::TypeInfo::Int4));
    assert!(!sql::TypeInfo::Int4.equal(&sql::TypeInfo::Int8));
    assert!(!sql::TypeInfo::Text.equal(&sql::TypeInfo::Named("TEXT".to_string())));
    assert_eq!(c.name(), "other");
}

#[test]
fn rows_copy_their_columns() {
    let row = sample_row();
    let copy = row.clone();
    assert_eq!(copy.len(), row.len());
    assert_eq!(copy.columns()[2].name(), "id");
    assert_eq!(decode_i32(copy.try_get_raw(ColumnIndex::Position(2)).unwrap()).unwrap(), 8);
}

#[test]
fn names_with_quotes_are_escaped_in_errors() {
    let row = Row::from_raw(sql::Row {
        columns: vec![sql::Column { name: "a\"b".to_string(), value: sql::Value::Text("t".to_string()) }],
    });
    let r = row.try_get(ColumnIndex::Name("a\"b"), "i32", &TypeInfo::int4(), int4_compatible, decode_i32);
    assert!(matches!(r, Err(Error::ColumnDecode { index, .. }) if index == "\"a\\\"b\""));
}

#[test]
fn deep_savepoints_are_numbered_in_decimal() {
    let log = RefCell::new(Vec::new());
    let mut conn = Connection::new();
    for _ in 0..11 {
        TransactionManager::begin(&mut conn, recording(&log, Ok(sql::QueryResult::Count(0)))).unwrap();
    }
    assert_eq!(log.borrow().last().unwrap(), "SAVEPOINT savepoint_10");
    TransactionManager::start_rollback(&mut conn, recording(&log, Ok(sql::QueryResult::Count(0))));
    assert_eq!(log.borrow().last().unwrap(), "ROLLBACK TO savepoint_10");
    assert_eq!(conn.depth(), 10);
    TransactionManager::start_rollback(&mut conn, recording(&log, Err(sql::Error::Other("x".to_string()))));
    assert_eq!(conn.depth(), 10);
}

#[test]
fn connection_housekeeping_does_nothing() {
    let mut conn = Connection::new();
    assert!(conn.ping().is_ok());
    assert!(conn.flush().is_ok());
    assert!(!conn.should_flush());
    assert!(conn.close().is_ok());
}

#[test]
fn fetch_many_keeps_outcomes_and_rows() {
    let mut conn = Connection::new();
    let items = durable_sqlx::query("SELECT 1").fetch_many(&mut conn, |_req: Request| {
        vec![
            Ok(sql::QueryResult::Count(2)),
            Ok(sql::QueryResult::Row(sql::Row { columns: vec![] })),
            Err(sql::Error::Decode("bad".to_string())),
            Ok(sql::QueryResult::Count(9)),
        ]
    });
    assert_eq!(items.len(), 3);
    assert!(matches!(&items[0], Ok(Either::Left(r)) if r.rows_affected() == 2));
    assert!(matches!(&items[1], Ok(Either::Right(r)) if r.is_empty()));
    assert!(matches!(&items[2], Err(Error::Decode(m)) if m == "bad"));
}

#[test]
fn values_of_named_types_keep_their_type_and_text() {
    let v = sql::Value::named("mood", "happy");
    assert!(matches!(v.type_info(), sql::TypeInfo::Named(n) if n == "mood"));
    assert_eq!(v.as_text(), Some("happy".to_string()));
    let row = Row::from_raw(sql::Row { columns: vec![sql::Column { name: "m".to_string(), value: v }] });
    assert_eq!(row.columns()[0].type_info().name(), "mood");
    let r = row.try_get(
        ColumnIndex::Name("m"),
        "Mood",
        &TypeInfo::new(sql::TypeInfo::Named("mood".to_string())),
        |t: &TypeInfo| t.name() == "mood",
        decode_string,
    );
    assert_eq!(r.unwrap(), "happy");
    let refused = row.try_get(ColumnIndex::Position(0), "i32", &TypeInfo::int4(), int4_compatible, decode_i32);
    assert!(matches!(refused, Err(Error::ColumnDecode { source, .. })
        if source == "mismatched types; Rust type `i32` (as SQL type `INT4`) is not compatible with SQL type `mood`"));
}

#[test]
fn first_row_needs_nothing_after_it() {
    let row = |id: i32| Ok(sql::QueryResult::Row(sql::Row {
        columns: vec![sql::Column { name: "id".to_string(), value: sql::Value::Int4(id) }],
    }));
    let full: Vec<Fetched> = vec![Ok(sql::QueryResult::Count(0)), row(1), row(2), Err(sql::Error::Other("late".to_string()))];
    assert!(!Connection::ends_search(&full[0]));
    assert!(Connection::ends_search(&full[1]));
    assert!(Connection::ends_search(&full[3]));
    let prefix: Vec<Fetched> = vec![Ok(sql::QueryResult::Count(0)), row(1)];
    let mut conn = Connection::new();
    let a = conn.fetch_optional(full).unwrap().unwrap();
    let b = conn.fetch_optional(prefix).unwrap().unwrap();
    assert_eq!(decode_i32(a.try_get_raw(ColumnIndex::Position(0)).unwrap()).unwrap(), 1);
    assert_eq!(decode_i32(b.try_get_raw(ColumnIndex::Position(0)).unwrap()).unwrap(), 1);
}

#[test]
fn default_outcome_affects_no_row() {
    assert_eq!(QueryResult::default().rows_affected(), 0);
}

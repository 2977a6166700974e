use std::cell::Cell;

use durable_sqlx::bindings as sql;
use durable_sqlx::driver::types::integer::{decode_i32, encode_i32};
use durable_sqlx::driver::types::text::{decode_string, encode_str};
use durable_sqlx::driver::{Arguments, Either, Fetched, IsNull, Row, TypeInfo, Value};
use durable_sqlx::{query, query_as, query_with, Connection, Error, Request};

fn column(name: &str, value: sql::Value) -> sql::Column {
    sql::Column { name: name.to_string(), value }
}

fn raw_row(id: i32, name: &str) -> Fetched {
    Ok(sql::QueryResult::Row(sql::Row {
        columns: vec![column("id", sql::Value::Int4(id)), column("name", sql::Value::Text(name.to_string()))],
    }))
}

fn count(n: u64) -> Fetched {
    Ok(sql::QueryResult::Count(n))
}

fn failure(msg: &str) -> Fetched {
    Err(sql::Error::Other(msg.to_string()))
}

fn id_of(row: &Row) -> i32 {
    let value = row.try_get_raw(durable_sqlx::driver::ColumnIndex::Name("id")).unwrap();
    decode_i32(value).unwrap()
}

#[test]
fn execute_adds_up_rows_affected() {
    let mut conn = Connection::new();
    let r = query("UPDATE t SET x = 1").execute(&mut conn, |_req: Request| vec![count(2), raw_row(1, "a"), count(5)]);
    assert_eq!(r.unwrap().rows_affected(), 7);
}

#[test]
fn execute_reports_first_error() {
    let mut conn = Connection::new();
    let r = query("UPDATE t SET x = 1").execute(&mut conn, |_req: Request| vec![count(1), failure("boom"), count(3)]);
    assert!(matches!(r, Err(Error::Protocol(m)) if m == "boom"));
}

#[test]
fn request_carries_statement_arguments_and_options() {
    let mut conn = Connection::new();
    let seen = Cell::new(false);
    let q = query("SELECT $1, $2")
        .bind(TypeInfo::int4(), vec![encode_i32(7)], Ok(IsNull::No))
        .bind(TypeInfo::text(), vec![], Ok(IsNull::Yes));
    let r = q.fetch_all(&mut conn, |req: Request| {
        assert_eq!(req.sql, "SELECT $1, $2");
        assert_eq!(req.params.len(), 2);
        assert!(matches!(req.params[0], sql::Value::Int4(7)));
        assert!(matches!(req.params[1], sql::Value::Null(sql::TypeInfo::Text)));
        assert_eq!(req.options, sql::Options { limit: 255, persistent: true });
        seen.set(true);
        vec![]
    });
    assert!(seen.get());
    assert!(r.unwrap().is_empty());
}

#[test]
fn fetch_optional_asks_for_one_row() {
    let mut conn = Connection::new();
    let r = query("SELECT 1").fetch_optional(&mut conn, |req: Request| {
        assert_eq!(req.options, sql::Options { limit: 1, persistent: true });
        vec![count(0), raw_row(3, "c"), raw_row(4, "d")]
    });
    assert_eq!(id_of(&r.unwrap().unwrap()), 3);
}

#[test]
fn failed_bind_is_reported_when_run() {
    let mut conn = Connection::new();
    let ran = Cell::new(false);
    let q = query("INSERT INTO t VALUES ($1, $2)")
        .bind(TypeInfo::int4(), vec![encode_i32(1)], Ok(IsNull::No))
        .bind(TypeInfo::text(), vec![], Err("too long".to_string()))
        .bind(TypeInfo::int4(), vec![encode_i32(2)], Ok(IsNull::No));
    let r = q.execute(&mut conn, |_req: Request| {
        ran.set(true);
        vec![]
    });
    assert!(!ran.get());
    assert!(matches!(r, Err(Error::Encode(m)) if m == "Encoding argument $2 failed: too long"));
}

#[test]
fn failed_bind_is_the_only_output_of_fetch() {
    let mut conn = Connection::new();
    let q = query("SELECT $1").bind(TypeInfo::int4(), vec![], Err("bad".to_string()));
    let items = q.fetch(&mut conn, |_req: Request| vec![raw_row(1, "a")]);
    assert_eq!(items.len(), 1);
    assert!(matches!(&items[0], Err(Error::Encode(m)) if m == "Encoding argument $1 failed: bad"));
}

#[test]
fn try_bind_reports_at_once() {
    let mut q = query("SELECT $1");
    assert_eq!(q.try_bind(TypeInfo::int4(), vec![], Err("nope".to_string())), Err("nope".to_string()));
    assert_eq!(q.try_bind(TypeInfo::int4(), vec![encode_i32(1)], Ok(IsNull::No)), Ok(()));
    let mut failed = query("SELECT $1").bind(TypeInfo::int4(), vec![], Err("first".to_string()));
    assert_eq!(
        failed.try_bind(TypeInfo::int4(), vec![encode_i32(1)], Ok(IsNull::No)),
        Err("A previous call to Query::bind produced an error".to_string())
    );
    assert_eq!(q.sql(), "SELECT $1");
}

#[test]
fn query_with_uses_given_arguments() {
    let mut args = Arguments::new();
    assert_eq!(args.add(TypeInfo::text(), vec![encode_str("x")], Ok(IsNull::No)), Ok(()));
    let mut conn = Connection::new();
    let r = query_with("SELECT $1", args).execute(&mut conn, |req: Request| {
        assert!(matches!(&req.params[0], sql::Value::Text(s) if s == "x"));
        vec![count(1)]
    });
    assert_eq!(r.unwrap().rows_affected(), 1);
}

#[test]
fn fetch_ends_with_first_error() {
    let mut conn = Connection::new();
    let items = query("SELECT * FROM t").fetch(&mut conn, |_req: Request| {
        vec![raw_row(1, "a"), count(1), raw_row(2, "b"), failure("lost"), raw_row(3, "c")]
    });
    assert_eq!(items.len(), 3);
    assert_eq!(id_of(items[0].as_ref().unwrap()), 1);
    assert_eq!(id_of(items[1].as_ref().unwrap()), 2);
    assert!(matches!(&items[2], Err(Error::Protocol(m)) if m == "lost"));
}

#[test]
fn fetch_all_collects_rows_or_fails() {
    let mut conn = Connection::new();
    let rows = query("SELECT * FROM t")
        .fetch_all(&mut conn, |_req: Request| vec![raw_row(1, "a"), raw_row(2, "b"), count(2)])
        .unwrap();
    assert_eq!(rows.len(), 2);
    assert_eq!(id_of(&rows[1]), 2);
    let r = query("SELECT * FROM t").fetch_all(&mut conn, |_req: Request| vec![raw_row(1, "a"), failure("x")]);
    assert!(matches!(r, Err(Error::Protocol(m)) if m == "x"));
}

#[test]
fn fetch_one_without_rows_is_row_not_found() {
    let mut conn = Connection::new();
    let r = query("SELECT 1").fetch_one(&mut conn, |_req: Request| vec![count(0)]);
    assert!(matches!(r, Err(Error::RowNotFound)));
    let r = query("SELECT 1").fetch_optional(&mut conn, |_req: Request| vec![count(0)]);
    assert!(matches!(r, Ok(None)));
    let r = query("SELECT 1").fetch_one(&mut conn, |_req: Request| vec![failure("gone"), raw_row(1, "a")]);
    assert!(matches!(r, Err(Error::Protocol(m)) if m == "gone"));
}

#[test]
fn try_map_stops_at_mapping_error() {
    let mut conn = Connection::new();
    let m = query("SELECT * FROM t").try_map(|row: Row| {
        let id = id_of(&row);
        if id == 2 { Err(Error::Decode("two".to_string())) } else { Ok(id * 10) }
    });
    let out = m.fetch(&mut conn, |_req: Request| vec![raw_row(1, "a"), raw_row(2, "b"), raw_row(3, "c")]);
    assert_eq!(out.len(), 2);
    assert!(matches!(out[0], Ok(10)));
    assert!(matches!(&out[1], Err(Error::Decode(m)) if m == "two"));
}

#[test]
fn map_then_map_composes() {
    let mut conn = Connection::new();
    let m = query("SELECT * FROM t").map(|row: Row| id_of(&row)).map(|id: i32| id + 1);
    let all = m.fetch_all(&mut conn, |_req: Request| vec![raw_row(1, "a"), raw_row(5, "e")]).unwrap();
    assert_eq!(all, vec![2, 6]);
}

#[test]
fn map_fetch_one_and_optional() {
    let mut conn = Connection::new();
    let one = query("SELECT * FROM t")
        .try_map(|row: Row| Ok(id_of(&row)))
        .fetch_one(&mut conn, |_req: Request| vec![raw_row(9, "z")]);
    assert!(matches!(one, Ok(9)));
    let none = query("SELECT * FROM t")
        .try_map(|row: Row| Ok(id_of(&row)))
        .fetch_one(&mut conn, |_req: Request| vec![]);
    assert!(matches!(none, Err(Error::RowNotFound)));
    let opt = query("SELECT * FROM t")
        .try_map(|row: Row| Ok(id_of(&row)))
        .try_map(|id: i32| if id > 0 { Ok(id) } else { Err(Error::Decode("neg".to_string())) })
        .fetch_optional(&mut conn, |_req: Request| vec![raw_row(-1, "n")]);
    assert!(matches!(opt, Err(Error::Decode(m)) if m == "neg"));
}

fn name_of(row: &Row) -> Result<String, Error> {
    let value = row.try_get_raw(durable_sqlx::driver::ColumnIndex::Name("name"))?;
    decode_string(value).map_err(Error::Decode)
}

#[test]
fn query_as_keeps_going_after_a_bad_row() {
    let mut conn = Connection::new();
    let q = query_as("SELECT * FROM t", |row: &Row| {
        let name = name_of(row)?;
        if name.is_empty() { Err(Error::Decode("empty".to_string())) } else { Ok(name) }
    });
    let out = q.fetch(&mut conn, |_req: Request| vec![raw_row(1, "a"), raw_row(2, ""), raw_row(3, "c")]);
    assert_eq!(out.len(), 3);
    assert!(matches!(&out[0], Ok(n) if n == "a"));
    assert!(matches!(&out[1], Err(Error::Decode(m)) if m == "empty"));
    assert!(matches!(&out[2], Ok(n) if n == "c"));
}

#[test]
fn query_as_fetch_all_and_one() {
    let mut conn = Connection::new();
    let all = query_as("SELECT * FROM t", name_of)
        .bind(TypeInfo::int4(), vec![encode_i32(1)], Ok(IsNull::No))
        .fetch_all(&mut conn, |req: Request| {
            assert_eq!(req.params.len(), 1);
            vec![raw_row(1, "a"), raw_row(2, "b")]
        })
        .unwrap();
    assert_eq!(all, vec!["a".to_string(), "b".to_string()]);
    let one = query_as("SELECT * FROM t", name_of).fetch_one(&mut conn, |_req: Request| vec![]);
    assert!(matches!(one, Err(Error::RowNotFound)));
    let opt = query_as("SELECT * FROM t", name_of).fetch_optional(&mut conn, |_req: Request| vec![raw_row(4, "d")]);
    assert!(matches!(opt, Ok(Some(n)) if n == "d"));
}

#[test]
fn values_keep_their_type() {
    let v = Value::new(sql::Value::Int2(3));
    assert!(!v.is_null());
    assert_eq!(v.type_info().name(), "INT2");
    let null = Value::new(sql::Value::Null(sql::TypeInfo::Bytea));
    assert!(null.is_null());
    assert_eq!(null.type_info().name(), "BYTEA");
}

fn results() -> Vec<Fetched> {
    vec![count(1), raw_row(4, "d"), raw_row(5, "e"), count(2)]
}

#[test]
fn fetch_all_collects_what_fetch_streams() {
    let mut conn = Connection::new();
    let items = query("SELECT * FROM t").fetch(&mut conn, |_req: Request| results());
    let all = query("SELECT * FROM t").fetch_all(&mut conn, |_req: Request| results()).unwrap();
    assert_eq!(items.len(), all.len());
    for (item, row) in items.iter().zip(all.iter()) {
        assert_eq!(id_of(item.as_ref().unwrap()), id_of(row));
    }
    let failing = || vec![raw_row(1, "a"), failure("stop")];
    let items = query("SELECT * FROM t").fetch(&mut conn, |_req: Request| failing());
    let all = query("SELECT * FROM t").fetch_all(&mut conn, |_req: Request| failing());
    assert!(matches!((items.last(), all), (Some(Err(Error::Protocol(a))), Err(Error::Protocol(b))) if *a == b));
}

#[test]
fn fetch_optional_gives_the_first_item_of_fetch() {
    let mut conn = Connection::new();
    let items = query("SELECT * FROM t").fetch(&mut conn, |_req: Request| results());
    let first = query("SELECT * FROM t").fetch_optional(&mut conn, |_req: Request| results()).unwrap().unwrap();
    assert_eq!(id_of(items[0].as_ref().unwrap()), id_of(&first));
    let items = query("SELECT 1").fetch(&mut conn, |_req: Request| vec![count(3)]);
    let none = query("SELECT 1").fetch_optional(&mut conn, |_req: Request| vec![count(3)]).unwrap();
    assert!(items.is_empty() && none.is_none());
}

#[test]
fn execute_totals_the_outcomes_of_fetch_many() {
    let mut conn = Connection::new();
    let items = query("UPDATE t SET x = 1").fetch_many(&mut conn, |_req: Request| results());
    let total: u64 = items
        .iter()
        .map(|item| match item {
            Ok(Either::Left(r)) => r.rows_affected(),
            _ => 0,
        })
        .sum();
    let executed = query("UPDATE t SET x = 1").execute(&mut conn, |_req: Request| results()).unwrap();
    assert_eq!(executed.rows_affected(), total);
    assert_eq!(total, 3);
}

#[test]
fn map_is_try_map_with_ok() {
    let mut conn = Connection::new();
    let mapped = query("SELECT * FROM t")
        .map(|row: Row| id_of(&row) * 2)
        .fetch_all(&mut conn, |_req: Request| results())
        .unwrap();
    let tried = query("SELECT * FROM t")
        .try_map(|row: Row| Ok(id_of(&row) * 2))
        .fetch_all(&mut conn, |_req: Request| results())
        .unwrap();
    assert_eq!(mapped, tried);
    assert_eq!(mapped, vec![8, 10]);
    let failing = || vec![raw_row(1, "a"), failure("gone")];
    let m = query("SELECT * FROM t").map(|row: Row| id_of(&row)).fetch_all(&mut conn, |_req: Request| failing());
    let t = query("SELECT * FROM t")
        .try_map(|row: Row| Ok(id_of(&row)))
        .fetch_all(&mut conn, |_req: Request| failing());
    assert!(matches!((m, t), (Err(Error::Protocol(a)), Err(Error::Protocol(b))) if a == b && a == "gone"));
}

#[test]
fn try_map_collects_until_the_first_failure() {
    let mut conn = Connection::new();
    let all = query("SELECT * FROM t")
        .try_map(|row: Row| Ok(id_of(&row) + 1))
        .fetch_all(&mut conn, |_req: Request| results())
        .unwrap();
    assert_eq!(all, vec![5, 6]);
    let failed = query("SELECT * FROM t")
        .try_map(|row: Row| if id_of(&row) == 4 { Err(Error::Decode("four".to_string())) } else { Ok(0) })
        .fetch_all(&mut conn, |_req: Request| results());
    assert!(matches!(failed, Err(Error::Decode(m)) if m == "four"));
}

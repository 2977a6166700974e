//! Queries whose rows are each turned into a value of another type.
use vstd::prelude::*;

use crate::driver::{Arguments, Connection, Fetched, IsNull, Row, TypeInfo, Value};
use crate::error::Error;
use crate::map::collected;
use crate::query::{
    accepts_any, binds, fetch_outcome, optional_outcome, query, query_with, required,
    Query, Request,
};

verus! {

/// Whether `f` can be handed any row.
pub open spec fn reads_rows<O, F: Fn(&Row) -> Result<O, Error>>(f: F) -> bool {
    forall|row: &Row| #[trigger] f.requires((row,))
}

/// Whether `out` is what an item of a query's output gives when its row is
/// read with `f`; an error stays as it is.
pub open spec fn converted<O, F: Fn(&Row) -> Result<O, Error>>(f: F, item: Result<Row, Error>, out: Result<O, Error>) -> bool {
    match item {
        Ok(row) => f.ensures((&row,), out),
        Err(e) => out == Err::<O, Error>(e),
    }
}

/// Whether `out` is the output of running `q` through `run` with each row
/// read with `f`.
pub open spec fn fetched_converted<O, F: Fn(&Row) -> Result<O, Error>, R: FnOnce(Request) -> Vec<Fetched>>(
    q: Query,
    f: F,
    run: R,
    out: Seq<Result<O, Error>>,
) -> bool {
    exists|items: Seq<Result<Row, Error>>|
        {
            &&& #[trigger] fetch_outcome(q, run, items)
            &&& out.len() == items.len()
            &&& forall|j: int| 0 <= j < out.len() ==> #[trigger] converted(f, items[j], out[j])
        }
}

/// Whether `r` is what the first row of a query, if there is one, gives when
/// it is read with `f`.
pub open spec fn converted_first<O, F: Fn(&Row) -> Result<O, Error>>(
    f: F,
    first: Result<Option<Row>, Error>,
    r: Result<Option<O>, Error>,
) -> bool {
    match first {
        Ok(Some(row)) => match r {
            Ok(Some(o)) => f.ensures((&row,), Ok::<O, Error>(o)),
            Ok(None) => false,
            Err(e) => f.ensures((&row,), Err::<O, Error>(e)),
        },
        Ok(None) => r == Ok::<Option<O>, Error>(None),
        Err(e) => r == Err::<Option<O>, Error>(e),
    }
}

/// Whether `r` is the first row of running `q` through `run`, if there is
/// one, read with `f`.
pub open spec fn first_converted<O, F: Fn(&Row) -> Result<O, Error>, R: FnOnce(Request) -> Vec<Fetched>>(
    q: Query,
    f: F,
    run: R,
    r: Result<Option<O>, Error>,
) -> bool {
    exists|first: Result<Option<Row>, Error>|
        #[trigger] optional_outcome(q, run, first) && converted_first(f, first, r)
}

/// A query each of whose rows is read into a value with `from_row`.
pub struct QueryAs<F> {
    query: Query,
    from_row: F,
}

/// A query running the given statement, with no arguments bound yet, whose
/// rows are read with `from_row`.
pub fn query_as<O, F: Fn(&Row) -> Result<O, Error>>(sql: &str, from_row: F) -> (q: QueryAs<F>)
    ensures
        q.spec_query().spec_sql() == sql@,
        q.spec_query().spec_arguments() matches Ok(args) && args.spec_values().len() == 0,
        q.spec_from_row() == from_row,
{
    QueryAs { query: query(sql), from_row }
}

/// A query running the given statement with the given arguments, whose rows
/// are read with `from_row`.
pub fn query_as_with<O, F: Fn(&Row) -> Result<O, Error>>(sql: &str, arguments: Arguments, from_row: F) -> (q: QueryAs<F>)
    ensures
        q.spec_query().spec_sql() == sql@,
        q.spec_query().spec_arguments() == Ok::<Arguments, String>(arguments),
        q.spec_from_row() == from_row,
{
    QueryAs { query: query_with(sql, arguments), from_row }
}

impl<F> QueryAs<F> {
    /// The query that is run.
    pub closed spec fn spec_query(self) -> Query {
        self.query
    }

    /// What each row is read with.
    pub closed spec fn spec_from_row(self) -> F {
        self.from_row
    }

    /// Bind a value to the next parameter; see `Query::bind`.
    pub fn bind(self, ty: TypeInfo, written: Vec<Value>, encoded: Result<IsNull, String>) -> (q: QueryAs<F>)
        ensures
            q.spec_from_row() == self.spec_from_row(),
            binds(self.spec_query(), ty@, written@, encoded, q.spec_query()),
    {
        let QueryAs { query, from_row } = self;
        QueryAs { query: query.bind(ty, written, encoded), from_row }
    }

    /// Run the query and return its rows, each read into a value, one by
    /// one; the output ends with the first error of the query, while an
    /// error reading a row takes that row's place.
    pub fn fetch<O, R: FnOnce(Request) -> Vec<Fetched>>(self, conn: &mut Connection, run: R) -> (out: Vec<Result<O, Error>>)
        where
            F: Fn(&Row) -> Result<O, Error>,
        requires
            accepts_any(run),
            reads_rows(self.spec_from_row()),
        ensures
            fetched_converted(self.spec_query(), self.spec_from_row(), run, out@),
            final(conn).spec_depth() == old(conn).spec_depth(),
    {
        let QueryAs { query, from_row } = self;
        let items = query.fetch(conn, run);
        let ghost all = items@;
        let mut out: Vec<Result<O, Error>> = Vec::new();
        for item in it: items.into_iter()
            invariant
                it.seq() == all,
                fetch_outcome(self.spec_query(), run, all),
                from_row == self.spec_from_row(),
                conn.spec_depth() == old(conn).spec_depth(),
                forall|row: &Row| #[trigger] from_row.requires((row,)),
                out.len() == it.index(),
                forall|j: int| 0 <= j < out.len() ==> #[trigger] converted(from_row, all[j], out@[j]),
        {
            match item {
                Ok(row) => {
                    let x = from_row(&row);
                    out.push(x);
                },
                Err(e) => out.push(Err(e)),
            }
            proof {
                let k = out.len() - 1;
                assert(converted(from_row, all[k], out@[k]));
            }
        }
        out
    }

    /// Run the query and return all of its rows, each read into a value, or
    /// the first error.
    pub fn fetch_all<O, R: FnOnce(Request) -> Vec<Fetched>>(self, conn: &mut Connection, run: R) -> (r: Result<Vec<O>, Error>)
        where
            F: Fn(&Row) -> Result<O, Error>,
        requires
            accepts_any(run),
            reads_rows(self.spec_from_row()),
        ensures
            exists|out: Seq<Result<O, Error>>|
                #[trigger] fetched_converted(self.spec_query(), self.spec_from_row(), run, out) && collected(out, r),
            final(conn).spec_depth() == old(conn).spec_depth(),
    {
        let ghost q = self;
        let out = self.fetch(conn, run);
        let ghost all = out@;
        assert(fetched_converted(q.spec_query(), q.spec_from_row(), run, all));
        let mut values: Vec<O> = Vec::new();
        for x in it: out.into_iter()
            invariant
                it.seq() == all,
                fetched_converted(self.spec_query(), self.spec_from_row(), run, all),
                conn.spec_depth() == old(conn).spec_depth(),
                values.len() == it.index(),
                forall|j: int| 0 <= j < values.len() ==> #[trigger] all[j] == Ok::<O, Error>(values@[j]),
        {
            match x {
                Ok(o) => values.push(o),
                Err(e) => {
                    proof {
                        let k = it.index() as int;
                        assert forall|j: int| 0 <= j < k implies #[trigger] all[j] is Ok by {
                            assert(all[j] == Ok::<O, Error>(values@[j]));
                        }
                        assert(all[k] == Err::<O, Error>(e));
                        assert(!(all[k] is Ok));
                        assert(collected(all, Err::<Vec<O>, Error>(e)));
                    }
                    return Err(e);
                },
            }
        }
        proof {
            assert forall|j: int| 0 <= j < all.len() implies #[trigger] all[j] is Ok by {
                assert(all[j] == Ok::<O, Error>(values@[j]));
            }
        }
        Ok(values)
    }

    /// Run the query and return its first row, read into a value, if there
    /// is one.
    pub fn fetch_optional<O, R: FnOnce(Request) -> Vec<Fetched>>(self, conn: &mut Connection, run: R) -> (r: Result<Option<O>, Error>)
        where
            F: Fn(&Row) -> Result<O, Error>,
        requires
            accepts_any(run),
            reads_rows(self.spec_from_row()),
        ensures
            first_converted(self.spec_query(), self.spec_from_row(), run, r),
            final(conn).spec_depth() == old(conn).spec_depth(),
    {
        let QueryAs { query, from_row } = self;
        let ghost q = query;
        let first = query.fetch_optional(conn, run);
        let ghost g_first = first;
        assert(optional_outcome(q, run, g_first));
        match first {
            Ok(Some(row)) => {
                let x = from_row(&row);
                match x {
                    Ok(o) => Ok(Some(o)),
                    Err(e) => Err(e),
                }
            },
            Ok(None) => Ok(None),
            Err(e) => Err(e),
        }
    }

    /// Run the query and return its first row, read into a value, or
    /// `RowNotFound`.
    pub fn fetch_one<O, R: FnOnce(Request) -> Vec<Fetched>>(self, conn: &mut Connection, run: R) -> (r: Result<O, Error>)
        where
            F: Fn(&Row) -> Result<O, Error>,
        requires
            accepts_any(run),
            reads_rows(self.spec_from_row()),
        ensures
            exists|first: Result<Option<O>, Error>|
                #[trigger] first_converted(self.spec_query(), self.spec_from_row(), run, first) && r == required(first),
            final(conn).spec_depth() == old(conn).spec_depth(),
    {
        let ghost q = self;
        let first = self.fetch_optional(conn, run);
        assert(first_converted(q.spec_query(), q.spec_from_row(), run, first));
        match first {
            Ok(Some(o)) => Ok(o),
            Ok(None) => Err(Error::RowNotFound),
            Err(e) => Err(e),
        }
    }
}

} // verus!

//! Queries: a statement and the arguments bound to it.
//!
//! Running a query is a conversation with the runtime, which holds the
//! database connection. A query is run by an executor that the caller hands
//! in: it receives the request (statement, arguments and options) and gives
//! back the results that the runtime produced, one after the other. What the
//! query then returns is decided here from those results.
use vstd::prelude::*;

use crate::bindings as sql;
use crate::driver::connection::{
    executed, fetched_all, fetched_items, fetched_many, fetched_optional, fetched_rows_affected,
    many_options, optional_options,
};
use crate::driver::{Arguments, Connection, Fetched, IsNull, Item, QueryResult, Row, TypeInfo, Value};
use crate::driver::arguments::bound_values;
use crate::error::Error;
use crate::util::{decimal, u128_to_decimal};

verus! {

/// What is handed to the runtime to run a query.
#[derive(Debug)]
pub struct Request {
    /// The statement.
    pub sql: String,
    /// The values of its parameters, in order.
    pub params: Vec<sql::Value>,
    /// How the runtime should run it.
    pub options: sql::Options,
}

/// Whether `req` runs the statement `sql` with the arguments `args` and the
/// given options.
pub open spec fn request_for(req: Request, sql: Seq<char>, args: Arguments, options: sql::Options) -> bool {
    &&& req.sql@ == sql
    &&& req.options == options
    &&& req.params.len() == args.spec_values().len()
    &&& forall|i: int| 0 <= i < req.params.len() ==> #[trigger] req.params@[i] == args.spec_values()[i].0
}

/// The message kept when binding the `n`th argument fails with `error`.
pub open spec fn bind_error_message(n: nat, error: Seq<char>) -> Seq<char> {
    "Encoding argument $"@ + decimal(n) + " failed: "@ + error
}

/// The message given when binding after an earlier binding failed.
pub open spec fn previous_bind_message() -> Seq<char> {
    "A previous call to Query::bind produced an error"@
}

/// Whether `run` can be handed any request.
pub open spec fn accepts_any<F: FnOnce(Request) -> Vec<Fetched>>(run: F) -> bool {
    forall|req: Request| #[trigger] run.requires((req,))
}

/// Whether the rows affected that `run` reports add up to a `u64`.
pub open spec fn counts_fit<F: FnOnce(Request) -> Vec<Fetched>>(run: F) -> bool {
    forall|req: Request, fetched: Vec<Fetched>|
        #[trigger] run.ensures((req,), fetched) ==> fetched_rows_affected(fetched@) <= u64::MAX
}

/// Whether `r` is the outcome of running `q` through `run` and counting the
/// rows that it affected: the error of a failed binding, or what the runtime
/// reported for the request that `q` makes.
pub open spec fn execute_outcome<F: FnOnce(Request) -> Vec<Fetched>>(q: Query, run: F, r: Result<QueryResult, Error>) -> bool {
    match q.spec_arguments() {
        Err(m) => (r matches Err(Error::Encode(e)) && e@ == m@),
        Ok(args) => exists|req: Request, fetched: Vec<Fetched>|
            {
                &&& #[trigger] run.ensures((req,), fetched)
                &&& request_for(req, q.spec_sql(), args, many_options())
                &&& executed(fetched@, r)
            },
    }
}

/// Whether `r` is the outcome of running the statement `sql`, with no
/// arguments, through `run` and counting the rows that it affected.
pub open spec fn statement_outcome<F: FnOnce(Request) -> Vec<Fetched>>(sql: Seq<char>, run: F, r: Result<QueryResult, Error>) -> bool {
    exists|req: Request, fetched: Vec<Fetched>|
        {
            &&& #[trigger] run.ensures((req,), fetched)
            &&& req.sql@ == sql
            &&& req.params.len() == 0
            &&& req.options == many_options()
            &&& executed(fetched@, r)
        }
}

/// A query that binds no arguments is run as its bare statement.
pub proof fn lemma_unbound_outcome<F: FnOnce(Request) -> Vec<Fetched>>(q: Query, run: F, r: Result<QueryResult, Error>)
    requires
        q.spec_arguments() matches Ok(args) && args.spec_values().len() == 0,
        execute_outcome(q, run, r),
    ensures
        statement_outcome(q.spec_sql(), run, r),
{
}

/// Whether `items` is the output of running `q` through `run`, row by row:
/// the error of a failed binding alone, or the rows that the runtime reported
/// for the request that `q` makes, ending with the first error.
pub open spec fn fetch_outcome<F: FnOnce(Request) -> Vec<Fetched>>(q: Query, run: F, items: Seq<Result<Row, Error>>) -> bool {
    match q.spec_arguments() {
        Err(m) => items.len() == 1 && (items[0] matches Err(Error::Encode(e)) && e@ == m@),
        Ok(args) => exists|req: Request, fetched: Vec<Fetched>|
            {
                &&& #[trigger] run.ensures((req,), fetched)
                &&& request_for(req, q.spec_sql(), args, many_options())
                &&& fetched_items(fetched@, items)
            },
    }
}

/// Whether `items` is the output of running `q` through `run`, item by item
/// (outcomes and rows): the error of a failed binding alone, or what the
/// runtime reported for the request that `q` makes, up to and including the
/// first error.
pub open spec fn many_outcome<F: FnOnce(Request) -> Vec<Fetched>>(q: Query, run: F, items: Seq<Item>) -> bool {
    match q.spec_arguments() {
        Err(m) => items.len() == 1 && (items[0] matches Err(Error::Encode(e)) && e@ == m@),
        Ok(args) => exists|req: Request, fetched: Vec<Fetched>|
            {
                &&& #[trigger] run.ensures((req,), fetched)
                &&& request_for(req, q.spec_sql(), args, many_options())
                &&& fetched_many(fetched@, items)
            },
    }
}

/// Whether `r` is all the rows of running `q` through `run`, or the first
/// error.
pub open spec fn all_outcome<F: FnOnce(Request) -> Vec<Fetched>>(q: Query, run: F, r: Result<Vec<Row>, Error>) -> bool {
    match q.spec_arguments() {
        Err(m) => (r matches Err(Error::Encode(e)) && e@ == m@),
        Ok(args) => exists|req: Request, fetched: Vec<Fetched>|
            {
                &&& #[trigger] run.ensures((req,), fetched)
                &&& request_for(req, q.spec_sql(), args, many_options())
                &&& fetched_all(fetched@, r)
            },
    }
}

/// Whether `r` is the first row of running `q` through `run`, if there is
/// one, or the error that came before it.
pub open spec fn optional_outcome<F: FnOnce(Request) -> Vec<Fetched>>(q: Query, run: F, r: Result<Option<Row>, Error>) -> bool {
    match q.spec_arguments() {
        Err(m) => (r matches Err(Error::Encode(e)) && e@ == m@),
        Ok(args) => exists|req: Request, fetched: Vec<Fetched>|
            {
                &&& #[trigger] run.ensures((req,), fetched)
                &&& request_for(req, q.spec_sql(), args, optional_options())
                &&& fetched_optional(fetched@, r)
            },
    }
}

/// What a first row, if there is one, gives when one is required:
/// `RowNotFound` where there is none.
pub open spec fn required<T>(r: Result<Option<T>, Error>) -> Result<T, Error> {
    match r {
        Ok(Some(t)) => Ok(t),
        Ok(None) => Err(Error::RowNotFound),
        Err(e) => Err(e),
    }
}

/// Whether `r` is the first row of running `q` through `run`, or
/// `RowNotFound` where there is none, or the error that came before it.
pub open spec fn one_outcome<F: FnOnce(Request) -> Vec<Fetched>>(q: Query, run: F, r: Result<Row, Error>) -> bool {
    exists|first: Result<Option<Row>, Error>|
        #[trigger] optional_outcome(q, run, first) && r == required(first)
}

/// A binding that failed is reported by whichever way the query is run, as
/// an `Encode` error carrying the message kept when it failed, and nothing is
/// handed to the runtime.
pub proof fn lemma_failed_bind_surfaces<F: FnOnce(Request) -> Vec<Fetched>>(
    q: Query,
    run: F,
    counted: Result<QueryResult, Error>,
    items: Seq<Result<Row, Error>>,
    all: Result<Vec<Row>, Error>,
    first: Result<Option<Row>, Error>,
    one: Result<Row, Error>,
)
    requires
        q.spec_arguments() is Err,
    ensures
        execute_outcome(q, run, counted) ==> (counted matches Err(Error::Encode(e)) && e@
            == q.spec_arguments()->Err_0@),
        fetch_outcome(q, run, items) ==> items.len() == 1 && (items[0] matches Err(Error::Encode(e))
            && e@ == q.spec_arguments()->Err_0@),
        all_outcome(q, run, all) ==> (all matches Err(Error::Encode(e)) && e@
            == q.spec_arguments()->Err_0@),
        optional_outcome(q, run, first) ==> (first matches Err(Error::Encode(e)) && e@
            == q.spec_arguments()->Err_0@),
        one_outcome(q, run, one) ==> (one matches Err(Error::Encode(e)) && e@
            == q.spec_arguments()->Err_0@),
{
}

/// Whether `bound` is `q` with one more argument bound: of type `ty`, its
/// encoder having written `written` and reported `encoded`. A failed
/// encoding is kept as the message of the query's arguments, and once they
/// failed, they stay as they are.
pub open spec fn binds(q: Query, ty: sql::TypeInfo, written: Seq<Value>, encoded: Result<IsNull, String>, bound: Query) -> bool {
    &&& bound.spec_sql() == q.spec_sql()
    &&& q.spec_arguments() is Err ==> bound.spec_arguments() == q.spec_arguments()
    &&& q.spec_arguments() matches Ok(args) ==> (encoded is Ok ==> (bound.spec_arguments() matches Ok(a)
        && a.spec_values() == args.spec_values() + bound_values(ty, written, encoded)))
    &&& q.spec_arguments() matches Ok(args) ==> (encoded matches Err(e) ==> (bound.spec_arguments() matches Err(m)
        && m@ == bind_error_message(args.spec_values().len() + 1, e@)))
}

/// If encoding a bound value fails, binding still succeeds and keeps the
/// error; later bindings leave it as it is; and however the query is then
/// run it gives `Encode` with the message `Encoding argument $n failed: e`,
/// whatever the runtime would answer, since no request is handed over.
pub proof fn lemma_bind_error_surfaces<F: FnOnce(Request) -> Vec<Fetched>, G: FnOnce(Request) -> Vec<Fetched>>(
    q: Query,
    ty: sql::TypeInfo,
    written: Seq<Value>,
    e: String,
    bound: Query,
    later: (sql::TypeInfo, Seq<Value>, Result<IsNull, String>, Query),
    run: F,
    other: G,
    counted: Result<QueryResult, Error>,
    items: Seq<Result<Row, Error>>,
    all: Result<Vec<Row>, Error>,
    first: Result<Option<Row>, Error>,
    one: Result<Row, Error>,
)
    requires
        q.spec_arguments() is Ok,
        binds(q, ty, written, Err(e), bound),
    ensures
        bound.spec_arguments() matches Err(m) && m@ == bind_error_message(
            q.spec_arguments()->Ok_0.spec_values().len() + 1,
            e@,
        ),
        binds(bound, later.0, later.1, later.2, later.3) ==> later.3.spec_arguments() == bound.spec_arguments(),
        execute_outcome(bound, run, counted) ==> (counted matches Err(Error::Encode(x)) && x@
            == bound.spec_arguments()->Err_0@),
        fetch_outcome(bound, run, items) ==> items.len() == 1 && (items[0] matches Err(Error::Encode(x))
            && x@ == bound.spec_arguments()->Err_0@),
        all_outcome(bound, run, all) ==> (all matches Err(Error::Encode(x)) && x@
            == bound.spec_arguments()->Err_0@),
        optional_outcome(bound, run, first) ==> (first matches Err(Error::Encode(x)) && x@
            == bound.spec_arguments()->Err_0@),
        one_outcome(bound, run, one) ==> (one matches Err(Error::Encode(x)) && x@
            == bound.spec_arguments()->Err_0@),
        execute_outcome(bound, run, counted) == execute_outcome(bound, other, counted),
        fetch_outcome(bound, run, items) == fetch_outcome(bound, other, items),
        all_outcome(bound, run, all) == all_outcome(bound, other, all),
        optional_outcome(bound, run, first) == optional_outcome(bound, other, first),
        one_outcome(bound, run, one) == one_outcome(bound, other, one),
{
    lemma_failed_bind_surfaces(bound, run, counted, items, all, first, one);
    if one_outcome(bound, run, one) {
        let f = choose|f: Result<Option<Row>, Error>| #[trigger] optional_outcome(bound, run, f) && one == required(f);
        assert(optional_outcome(bound, other, f));
    }
    if one_outcome(bound, other, one) {
        let f = choose|f: Result<Option<Row>, Error>| #[trigger] optional_outcome(bound, other, f) && one == required(f);
        assert(optional_outcome(bound, run, f));
    }
}

/// A single SQL statement with the arguments bound to it.
#[derive(Debug)]
pub struct Query {
    sql: String,
    arguments: Result<Arguments, String>,
}

/// A query running the given statement with no arguments bound yet.
pub fn query(sql: &str) -> (q: Query)
    ensures
        q.spec_sql() == sql@,
        q.spec_arguments() matches Ok(args) && args.spec_values().len() == 0,
{
    Query { sql: sql.to_owned(), arguments: Ok(Arguments::new()) }
}

/// A query running the given statement with the given arguments.
pub fn query_with(sql: &str, arguments: Arguments) -> (q: Query)
    ensures
        q.spec_sql() == sql@,
        q.spec_arguments() == Ok::<Arguments, String>(arguments),
{
    Query { sql: sql.to_owned(), arguments: Ok(arguments) }
}

impl Query {
    /// The statement.
    pub closed spec fn spec_sql(self) -> Seq<char> {
        self.sql@
    }

    /// The arguments bound so far, or the message of a failed binding.
    pub closed spec fn spec_arguments(self) -> Result<Arguments, String> {
        self.arguments
    }

    /// The statement.
    pub fn sql(&self) -> (sql: &str)
        ensures
            sql@ == self.spec_sql(),
    {
        self.sql.as_str()
    }

    /// Bind a value to the next parameter.
    ///
    /// `written` are the values that the value's encoder wrote, `encoded`
    /// what it reported, and `ty` the value's type (used when it encodes as
    /// NULL). If encoding failed, the error is kept and reported when the
    /// query runs; after that, further bindings are ignored.
    pub fn bind(self, ty: TypeInfo, written: Vec<Value>, encoded: Result<IsNull, String>) -> (q: Query)
        ensures
            binds(self, ty@, written@, encoded, q),
    {
        let Query { sql, arguments } = self;
        match arguments {
            Err(e) => Query { sql, arguments: Err(e) },
            Ok(mut args) => {
                let n: u128 = args.len() as u128 + 1;
                match args.add(ty, written, encoded) {
                    Ok(()) => Query { sql, arguments: Ok(args) },
                    Err(e) => {
                        let mut msg = String::from_str("Encoding argument $");
                        let digits = u128_to_decimal(n);
                        msg.append(digits.as_str());
                        msg.append(" failed: ");
                        msg.append(e.as_str());
                        proof {
                            assert(msg@ =~= bind_error_message(n as nat, e@));
                        }
                        Query { sql, arguments: Err(msg) }
                    },
                }
            },
        }
    }

    /// Like `bind`, but a failure is reported at once.
    ///
    /// After an earlier failed binding, nothing is bound and the error says
    /// so.
    pub fn try_bind(&mut self, ty: TypeInfo, written: Vec<Value>, encoded: Result<IsNull, String>) -> (r: Result<(), String>)
        ensures
            final(self).spec_sql() == old(self).spec_sql(),
            old(self).spec_arguments() is Err ==> final(self).spec_arguments() == old(self).spec_arguments()
                && (r matches Err(m) && m@ == previous_bind_message()),
            old(self).spec_arguments() matches Ok(args) ==> {
                &&& final(self).spec_arguments() matches Ok(a)
                &&& a.spec_values() == args.spec_values() + bound_values(ty@, written@, encoded)
                &&& r is Ok <==> encoded is Ok
                &&& r matches Err(e) ==> encoded == Err::<IsNull, String>(e)
            },
    {
        match &mut self.arguments {
            Err(_) => Err(String::from_str("A previous call to Query::bind produced an error")),
            Ok(args) => args.add(ty, written, encoded),
        }
    }

    /// What is handed to the runtime, or the error of a failed binding.
    fn request(self, options: sql::Options) -> (r: Result<Request, Error>)
        ensures
            self.spec_arguments() matches Err(m) ==> (r matches Err(Error::Encode(e)) && e@ == m@),
            self.spec_arguments() matches Ok(args) ==> (r matches Ok(req) && request_for(
                req,
                self.spec_sql(),
                args,
                options,
            )),
    {
        match self.arguments {
            Err(e) => Err(Error::Encode(e)),
            Ok(args) => Ok(Request { sql: self.sql, params: args.into_raw(), options }),
        }
    }

    /// Run the query and return the number of rows it affected.
    pub fn execute<F: FnOnce(Request) -> Vec<Fetched>>(self, conn: &mut Connection, run: F) -> (r: Result<QueryResult, Error>)
        requires
            accepts_any(run),
            counts_fit(run),
        ensures
            execute_outcome(self, run, r),
            final(conn).spec_depth() == old(conn).spec_depth(),
    {
        let req = match self.request(Connection::fetch_many_options()) {
            Ok(req) => req,
            Err(e) => return Err(e),
        };
        let ghost g_req = req;
        let fetched = run(req);
        let ghost g_fetched = fetched;
        let r = conn.execute(fetched);
        assert(run.ensures((g_req,), g_fetched));
        r
    }

    /// Run the query and return its output item by item: the outcome of
    /// each statement and each row, ending with the first error.
    pub fn fetch_many<F: FnOnce(Request) -> Vec<Fetched>>(self, conn: &mut Connection, run: F) -> (items: Vec<Item>)
        requires
            accepts_any(run),
        ensures
            many_outcome(self, run, items@),
            final(conn).spec_depth() == old(conn).spec_depth(),
    {
        let req = match self.request(Connection::fetch_many_options()) {
            Ok(req) => req,
            Err(e) => {
                let mut items: Vec<Item> = Vec::new();
                items.push(Err(e));
                return items;
            },
        };
        let ghost g_req = req;
        let fetched = run(req);
        let ghost g_fetched = fetched;
        let items = conn.fetch_many(fetched);
        assert(run.ensures((g_req,), g_fetched));
        items
    }

    /// Run the query and return its rows one by one; the output ends with
    /// the first error.
    pub fn fetch<F: FnOnce(Request) -> Vec<Fetched>>(self, conn: &mut Connection, run: F) -> (items: Vec<Result<Row, Error>>)
        requires
            accepts_any(run),
        ensures
            fetch_outcome(self, run, items@),
            final(conn).spec_depth() == old(conn).spec_depth(),
    {
        let req = match self.request(Connection::fetch_many_options()) {
            Ok(req) => req,
            Err(e) => {
                let mut items: Vec<Result<Row, Error>> = Vec::new();
                items.push(Err(e));
                return items;
            },
        };
        let ghost g_req = req;
        let fetched = run(req);
        let ghost g_fetched = fetched;
        let items = conn.fetch(fetched);
        assert(run.ensures((g_req,), g_fetched));
        items
    }

    /// Run the query and return all of its rows.
    pub fn fetch_all<F: FnOnce(Request) -> Vec<Fetched>>(self, conn: &mut Connection, run: F) -> (r: Result<Vec<Row>, Error>)
        requires
            accepts_any(run),
        ensures
            all_outcome(self, run, r),
            final(conn).spec_depth() == old(conn).spec_depth(),
    {
        let req = match self.request(Connection::fetch_many_options()) {
            Ok(req) => req,
            Err(e) => return Err(e),
        };
        let ghost g_req = req;
        let fetched = run(req);
        let ghost g_fetched = fetched;
        let r = conn.fetch_all(fetched);
        assert(run.ensures((g_req,), g_fetched));
        r
    }

    /// Run the query and return its first row, or `RowNotFound`.
    pub fn fetch_one<F: FnOnce(Request) -> Vec<Fetched>>(self, conn: &mut Connection, run: F) -> (r: Result<Row, Error>)
        requires
            accepts_any(run),
        ensures
            one_outcome(self, run, r),
            final(conn).spec_depth() == old(conn).spec_depth(),
    {
        let ghost q = self;
        let first = self.fetch_optional(conn, run);
        assert(optional_outcome(q, run, first));
        match first {
            Ok(Some(row)) => Ok(row),
            Ok(None) => Err(Error::RowNotFound),
            Err(e) => Err(e),
        }
    }

    /// Run the query and return its first row, if there is one.
    pub fn fetch_optional<F: FnOnce(Request) -> Vec<Fetched>>(self, conn: &mut Connection, run: F) -> (r: Result<Option<Row>, Error>)
        requires
            accepts_any(run),
        ensures
            optional_outcome(self, run, r),
            final(conn).spec_depth() == old(conn).spec_depth(),
    {
        let req = match self.request(Connection::fetch_optional_options()) {
            Ok(req) => req,
            Err(e) => return Err(e),
        };
        let ghost g_req = req;
        let fetched = run(req);
        let ghost g_fetched = fetched;
        let r = conn.fetch_optional(fetched);
        assert(run.ensures((g_req,), g_fetched));
        r
    }
}

} // verus!

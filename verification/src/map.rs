//! Queries whose rows are mapped to another type as they are fetched.
use vstd::prelude::*;

use crate::driver::{Connection, Fetched, Row};
use crate::error::Error;
use crate::driver::connection::{error_at, fetched_items, fetched_rows, many_options, output_end};
use crate::query::{accepts_any, fetch_outcome, optional_outcome, request_for, required, Query, Request};

verus! {

/// Whether `f` can be handed any row.
pub open spec fn accepts_rows<O, F: Fn(Row) -> Result<O, Error>>(f: F) -> bool {
    forall|row: Row| #[trigger] f.requires((row,))
}

/// Whether `out` is what an item of a query's output gives when its row is
/// mapped with `f`; an error stays as it is.
pub open spec fn mapped<O, F: Fn(Row) -> Result<O, Error>>(f: F, item: Result<Row, Error>, out: Result<O, Error>) -> bool {
    match item {
        Ok(row) => f.ensures((row,), out),
        Err(e) => out == Err::<O, Error>(e),
    }
}

/// Whether `out` is the output `items` mapped with `f` one by one, up to and
/// including the first error, whether it was in `items` or came from `f`.
pub open spec fn mapped_items<O, F: Fn(Row) -> Result<O, Error>>(
    f: F,
    items: Seq<Result<Row, Error>>,
    out: Seq<Result<O, Error>>,
) -> bool {
    &&& out.len() <= items.len()
    &&& forall|j: int| 0 <= j < out.len() ==> #[trigger] mapped(f, items[j], out[j])
    &&& forall|j: int| 0 <= j < out.len() - 1 ==> #[trigger] out[j] is Ok
    &&& out.len() < items.len() ==> (out.len() > 0 && out[out.len() - 1] is Err)
}

/// Whether `r` collects `out`: all of its values when there is no error,
/// else its first error.
pub open spec fn collected<O>(out: Seq<Result<O, Error>>, r: Result<Vec<O>, Error>) -> bool {
    &&& r is Ok <==> (forall|j: int| 0 <= j < out.len() ==> #[trigger] out[j] is Ok)
    &&& (r matches Ok(v) ==> v@.len() == out.len() && forall|j: int|
        0 <= j < out.len() ==> #[trigger] out[j] == Ok::<O, Error>(v@[j]))
    &&& (r matches Err(e) ==> exists|k: int|
        0 <= k < out.len() && #[trigger] out[k] == Err::<O, Error>(e) && forall|j: int|
            0 <= j < k ==> #[trigger] out[j] is Ok)
}

/// Whether `r` is what the first row of a query, if there is one, gives when
/// it is mapped with `f`.
pub open spec fn mapped_first<O, F: Fn(Row) -> Result<O, Error>>(
    f: F,
    first: Result<Option<Row>, Error>,
    r: Result<Option<O>, Error>,
) -> bool {
    match first {
        Ok(Some(row)) => match r {
            Ok(Some(o)) => f.ensures((row,), Ok::<O, Error>(o)),
            Ok(None) => false,
            Err(e) => f.ensures((row,), Err::<O, Error>(e)),
        },
        Ok(None) => r == Ok::<Option<O>, Error>(None),
        Err(e) => r == Err::<Option<O>, Error>(e),
    }
}

/// Whether `out` is the output of running `q` through `run` with each row
/// mapped with `f`.
pub open spec fn fetched_mapped<O, F: Fn(Row) -> Result<O, Error>, R: FnOnce(Request) -> Vec<Fetched>>(
    q: Query,
    f: F,
    run: R,
    out: Seq<Result<O, Error>>,
) -> bool {
    exists|items: Seq<Result<Row, Error>>| #[trigger] fetch_outcome(q, run, items) && mapped_items(f, items, out)
}

/// Whether `r` is the first row of running `q` through `run`, if there is
/// one, mapped with `f`.
pub open spec fn first_mapped<O, F: Fn(Row) -> Result<O, Error>, R: FnOnce(Request) -> Vec<Fetched>>(
    q: Query,
    f: F,
    run: R,
    r: Result<Option<O>, Error>,
) -> bool {
    exists|first: Result<Option<Row>, Error>| #[trigger] optional_outcome(q, run, first) && mapped_first(f, first, r)
}

/// Whether `r` is what `g` gives for what `f` gives for `row`, where `g` may
/// fail; an error from `f` is kept.
pub open spec fn then_tried<O, P, F: Fn(Row) -> Result<O, Error>, G: Fn(O) -> Result<P, Error>>(
    f: &F,
    g: &G,
    row: Row,
    r: Result<P, Error>,
) -> bool {
    exists|x: Result<O, Error>|
        #[trigger] f.ensures((row,), x) && match x {
            Ok(o) => g.ensures((o,), r),
            Err(e) => r == Err::<P, Error>(e),
        }
}

/// Whether `r` is what `g` gives for what `f` gives for `row`; an error from
/// `f` is kept.
pub open spec fn then_mapped<O, P, F: Fn(Row) -> Result<O, Error>, G: Fn(O) -> P>(
    f: &F,
    g: &G,
    row: Row,
    r: Result<P, Error>,
) -> bool {
    exists|x: Result<O, Error>|
        #[trigger] f.ensures((row,), x) && match x {
            Ok(o) => (r matches Ok(p) && g.ensures((o,), p)),
            Err(e) => r == Err::<P, Error>(e),
        }
}

/// In the output of a query, only the last item can be an error.
proof fn lemma_only_last_fails<R: FnOnce(Request) -> Vec<Fetched>>(q: Query, run: R, items: Seq<Result<Row, Error>>)
    requires
        fetch_outcome(q, run, items),
    ensures
        forall|j: int| 0 <= j < items.len() - 1 ==> #[trigger] items[j] is Ok,
{
    match q.spec_arguments() {
        Err(_) => {},
        Ok(args) => {
            let (req, fetched) = choose|req: Request, fetched: Vec<Fetched>|
                {
                    &&& #[trigger] run.ensures((req,), fetched)
                    &&& request_for(req, q.spec_sql(), args, many_options())
                    &&& fetched_items(fetched@, items)
                };
            let f = fetched@;
            let k = choose|k: int|
                {
                    &&& #[trigger] output_end(f, k)
                    &&& items.len() == fetched_rows(f.subrange(0, k)).len() + if k < f.len() {
                        1int
                    } else {
                        0int
                    }
                    &&& forall|j: int|
                        0 <= j < fetched_rows(f.subrange(0, k)).len() ==> (#[trigger] items[j] matches Ok(
                            row,
                        ) && row.built_from(fetched_rows(f.subrange(0, k))[j]))
                    &&& k < f.len() ==> items[items.len() - 1] == Err::<Row, Error>(error_at(f, k))
                };
            assert forall|j: int| 0 <= j < items.len() - 1 implies #[trigger] items[j] is Ok by {
                assert(j < fetched_rows(f.subrange(0, k)).len());
            }
        },
    }
}

/// Mapping rows with a mapper that never fails and gives what `g` gives, as
/// `Query::map(g)` and `Query::try_map(|row| Ok(g(row)))` both do, maps every
/// row of the query's output with `g`, in order, and keeps the query's own
/// error where the output ends with one; collected, this gives every row
/// mapped, or that error. The two ways of mapping give the same results.
pub proof fn lemma_map_is_try_map_ok<O, F: Fn(Row) -> Result<O, Error>, G: Fn(Row) -> O, R: FnOnce(Request) -> Vec<Fetched>>(
    q: Query,
    mapper: F,
    g: G,
    run: R,
    out: Seq<Result<O, Error>>,
    r: Result<Vec<O>, Error>,
)
    requires
        forall|row: Row, x: Result<O, Error>|
            #[trigger] mapper.ensures((row,), x) ==> (x matches Ok(o) && g.ensures((row,), o)),
        fetched_mapped(q, mapper, run, out),
    ensures
        exists|items: Seq<Result<Row, Error>>|
            {
                &&& #[trigger] fetch_outcome(q, run, items)
                &&& out.len() == items.len()
                &&& forall|j: int|
                    0 <= j < items.len() ==> (#[trigger] items[j] matches Ok(row) ==> (out[j] matches Ok(
                        o,
                    ) && g.ensures((row,), o)))
                &&& forall|j: int|
                    0 <= j < items.len() ==> (#[trigger] items[j] matches Err(e) ==> out[j] == Err::<
                        O,
                        Error,
                    >(e))
                &&& collected(out, r) ==> (r is Ok <==> forall|j: int|
                    0 <= j < items.len() ==> #[trigger] items[j] is Ok)
                &&& collected(out, r) ==> (r matches Ok(v) ==> v@.len() == items.len() && forall|j: int|
                    0 <= j < items.len() ==> (#[trigger] items[j] matches Ok(row) && g.ensures(
                        (row,),
                        v@[j],
                    )))
                &&& collected(out, r) ==> (r matches Err(e) ==> exists|j: int|
                    0 <= j < items.len() && #[trigger] items[j] == Err::<Row, Error>(e))
            },
{
    let items = choose|items: Seq<Result<Row, Error>>|
        #[trigger] fetch_outcome(q, run, items) && mapped_items(mapper, items, out);
    lemma_only_last_fails(q, run, items);
    if out.len() < items.len() {
        let m = out.len() - 1;
        assert(mapped(mapper, items[m], out[m]));
        assert(items[m] is Ok);
        assert(out[m] is Err);
        assert(false);
    }
    assert forall|j: int|
        0 <= j < items.len() implies (#[trigger] items[j] matches Ok(row) ==> (out[j] matches Ok(o)
        && g.ensures((row,), o))) by {
        assert(mapped(mapper, items[j], out[j]));
    }
    assert forall|j: int|
        0 <= j < items.len() implies (#[trigger] items[j] matches Err(e) ==> out[j] == Err::<O, Error>(
        e,
    )) by {
        assert(mapped(mapper, items[j], out[j]));
    }
    if collected(out, r) {
        assert forall|j: int| 0 <= j < items.len() implies (#[trigger] items[j] is Ok <==> out[j] is Ok) by {
            assert(mapped(mapper, items[j], out[j]));
        }
        match r {
            Ok(v) => {
                assert forall|j: int|
                    0 <= j < items.len() implies (#[trigger] items[j] matches Ok(row) && g.ensures(
                    (row,),
                    v@[j],
                )) by {
                    assert(mapped(mapper, items[j], out[j]));
                    assert(out[j] == Ok::<O, Error>(v@[j]));
                }
            },
            Err(e) => {
                let k = choose|k: int|
                    0 <= k < out.len() && #[trigger] out[k] == Err::<O, Error>(e) && forall|j: int|
                        0 <= j < k ==> #[trigger] out[j] is Ok;
                assert(mapped(mapper, items[k], out[k]));
                assert(items[k] == Err::<Row, Error>(e));
            },
        }
    }
}

/// Collecting the rows of a query mapped with `f`, as `QueryMap::fetch_all`
/// does, gives every row mapped when `f` maps each of them to a value, in the
/// order of the rows; otherwise it gives the first error, either the
/// query's own or the first that `f` gave, with every earlier row mapped to a
/// value.
pub proof fn lemma_try_map_fetch_all<O, F: Fn(Row) -> Result<O, Error>, R: FnOnce(Request) -> Vec<Fetched>>(
    q: Query,
    f: F,
    run: R,
    r: Result<Vec<O>, Error>,
)
    requires
        exists|out: Seq<Result<O, Error>>| #[trigger] fetched_mapped(q, f, run, out) && collected(out, r),
    ensures
        exists|items: Seq<Result<Row, Error>>, out: Seq<Result<O, Error>>|
            {
                &&& #[trigger] fetch_outcome(q, run, items)
                &&& #[trigger] mapped_items(f, items, out)
                &&& r matches Ok(v) ==> v@.len() == items.len() && forall|j: int|
                    0 <= j < items.len() ==> (#[trigger] items[j] matches Ok(row) && f.ensures(
                        (row,),
                        Ok::<O, Error>(v@[j]),
                    ))
                &&& r matches Err(e) ==> exists|k: int|
                    {
                        &&& 0 <= k < items.len()
                        &&& forall|j: int|
                            0 <= j < k ==> (#[trigger] items[j] matches Ok(row) && out[j] is Ok && f.ensures(
                                (row,),
                                out[j],
                            ))
                        &&& (#[trigger] items[k] == Err::<Row, Error>(e) || (items[k] matches Ok(row)
                            && f.ensures((row,), Err::<O, Error>(e))))
                    }
            },
{
    let out = choose|out: Seq<Result<O, Error>>| #[trigger] fetched_mapped(q, f, run, out) && collected(out, r);
    let items = choose|items: Seq<Result<Row, Error>>|
        #[trigger] fetch_outcome(q, run, items) && mapped_items(f, items, out);
    match r {
        Ok(v) => {
            if out.len() < items.len() {
                assert(out[out.len() - 1] is Ok);
            }
            assert forall|j: int|
                0 <= j < items.len() implies (#[trigger] items[j] matches Ok(row) && f.ensures(
                (row,),
                Ok::<O, Error>(v@[j]),
            )) by {
                assert(mapped(f, items[j], out[j]));
                assert(out[j] == Ok::<O, Error>(v@[j]));
            }
        },
        Err(e) => {
            let k = choose|k: int|
                0 <= k < out.len() && #[trigger] out[k] == Err::<O, Error>(e) && forall|j: int|
                    0 <= j < k ==> #[trigger] out[j] is Ok;
            assert(mapped(f, items[k], out[k]));
            assert forall|j: int|
                0 <= j < k implies (#[trigger] items[j] matches Ok(row) && out[j] is Ok && f.ensures(
                (row,),
                out[j],
            )) by {
                assert(mapped(f, items[j], out[j]));
                assert(out[j] is Ok);
            }
            assert(items[k] == Err::<Row, Error>(e) || (items[k] matches Ok(row) && f.ensures(
                (row,),
                Err::<O, Error>(e),
            )));
        },
    }
}

/// Over a whole run, `q.map(g)` and `q.try_map(|row| Ok(g(row)))` collect
/// the same: each has a mapper that never fails and gives what `g` gives, so
/// collecting gives every row of the query mapped with `g`, in order, when
/// the query gives no error, and the query's error otherwise.
pub proof fn lemma_map_fetch_all<O, F: Fn(Row) -> Result<O, Error>, G: Fn(Row) -> O, R: FnOnce(Request) -> Vec<Fetched>>(
    q: Query,
    mapper: F,
    g: G,
    run: R,
    r: Result<Vec<O>, Error>,
)
    requires
        forall|row: Row, x: Result<O, Error>|
            #[trigger] mapper.ensures((row,), x) ==> (x matches Ok(o) && g.ensures((row,), o)),
        exists|out: Seq<Result<O, Error>>| #[trigger] fetched_mapped(q, mapper, run, out) && collected(out, r),
    ensures
        exists|items: Seq<Result<Row, Error>>|
            {
                &&& #[trigger] fetch_outcome(q, run, items)
                &&& r is Ok <==> forall|j: int| 0 <= j < items.len() ==> #[trigger] items[j] is Ok
                &&& r matches Ok(v) ==> v@.len() == items.len() && forall|j: int|
                    0 <= j < items.len() ==> (#[trigger] items[j] matches Ok(row) && g.ensures(
                        (row,),
                        v@[j],
                    ))
                &&& r matches Err(e) ==> exists|j: int|
                    0 <= j < items.len() && #[trigger] items[j] == Err::<Row, Error>(e)
            },
{
    let out = choose|out: Seq<Result<O, Error>>| #[trigger] fetched_mapped(q, mapper, run, out) && collected(out, r);
    lemma_map_is_try_map_ok(q, mapper, g, run, out, r);
}

/// A query that maps each row of its output with `mapper`.
pub struct QueryMap<F> {
    query: Query,
    mapper: F,
}

impl<F> QueryMap<F> {
    /// The query that is run.
    pub closed spec fn spec_query(self) -> Query {
        self.query
    }

    /// What each row is mapped with.
    pub closed spec fn spec_mapper(self) -> F {
        self.mapper
    }
}

impl Query {
    /// Map each row of the output with `f`, which may fail.
    pub fn try_map<O, F: Fn(Row) -> Result<O, Error>>(self, f: F) -> (m: QueryMap<F>)
        ensures
            m.spec_query() == self,
            m.spec_mapper() == f,
    {
        QueryMap { query: self, mapper: f }
    }

    /// Map each row of the output with `g`.
    pub fn map<O, G: Fn(Row) -> O>(self, g: G) -> (m: QueryMap<impl Fn(Row) -> Result<O, Error>>)
        requires
            forall|row: Row| #[trigger] g.requires((row,)),
        ensures
            m.spec_query() == self,
            accepts_rows(m.spec_mapper()),
            forall|row: Row, r: Result<O, Error>|
                #[trigger] m.spec_mapper().ensures((row,), r) ==> (r matches Ok(o) && g.ensures((row,), o)),
    {
        let f = move |row: Row| -> (r: Result<O, Error>)
            requires
                (&g).requires((row,)),
            ensures
                r matches Ok(o) && (&g).ensures((row,), o),
            { Ok((&g)(row)) };
        QueryMap { query: self, mapper: f }
    }
}

impl<F> QueryMap<F> {
    /// Map each mapped row further with `g`, which may fail.
    pub fn try_map<O, P, G: Fn(O) -> Result<P, Error>>(self, g: G) -> (m: QueryMap<impl Fn(Row) -> Result<P, Error>>)
        where
            F: Fn(Row) -> Result<O, Error>,
        requires
            accepts_rows(self.spec_mapper()),
            forall|o: O| #[trigger] g.requires((o,)),
        ensures
            m.spec_query() == self.spec_query(),
            accepts_rows(m.spec_mapper()),
            forall|row: Row, r: Result<P, Error>|
                #[trigger] m.spec_mapper().ensures((row,), r) ==> then_tried(&self.spec_mapper(), &g, row, r),
    {
        let QueryMap { query, mapper } = self;
        let f = move |row: Row| -> (r: Result<P, Error>)
            requires
                (&mapper).requires((row,)),
                forall|o: O| #[trigger] (&g).requires((o,)),
            ensures
                then_tried(&mapper, &g, row, r),
            {
                let ghost g_row = row;
                let x = (&mapper)(row);
                assert((&mapper).ensures((g_row,), x));
                match x {
                    Ok(o) => (&g)(o),
                    Err(e) => Err(e),
                }
            };
        QueryMap { query, mapper: f }
    }

    /// Map each mapped row further with `g`.
    pub fn map<O, P, G: Fn(O) -> P>(self, g: G) -> (m: QueryMap<impl Fn(Row) -> Result<P, Error>>)
        where
            F: Fn(Row) -> Result<O, Error>,
        requires
            accepts_rows(self.spec_mapper()),
            forall|o: O| #[trigger] g.requires((o,)),
        ensures
            m.spec_query() == self.spec_query(),
            accepts_rows(m.spec_mapper()),
            forall|row: Row, r: Result<P, Error>|
                #[trigger] m.spec_mapper().ensures((row,), r) ==> then_mapped(&self.spec_mapper(), &g, row, r),
    {
        let QueryMap { query, mapper } = self;
        let f = move |row: Row| -> (r: Result<P, Error>)
            requires
                (&mapper).requires((row,)),
                forall|o: O| #[trigger] (&g).requires((o,)),
            ensures
                then_mapped(&mapper, &g, row, r),
            {
                let ghost g_row = row;
                let x = (&mapper)(row);
                assert((&mapper).ensures((g_row,), x));
                match x {
                    Ok(o) => Ok((&g)(o)),
                    Err(e) => Err(e),
                }
            };
        QueryMap { query, mapper: f }
    }
}

impl<F> QueryMap<F> {
    /// Run the query and return its rows, mapped, one by one; the output ends
    /// with the first error, whether the query or the mapping gave it.
    pub fn fetch<O, R: FnOnce(Request) -> Vec<Fetched>>(self, conn: &mut Connection, run: R) -> (out: Vec<Result<O, Error>>)
        where
            F: Fn(Row) -> Result<O, Error>,
        requires
            accepts_any(run),
            accepts_rows(self.spec_mapper()),
        ensures
            fetched_mapped(self.spec_query(), self.spec_mapper(), run, out@),
            final(conn).spec_depth() == old(conn).spec_depth(),
    {
        let QueryMap { query, mapper } = self;
        let ghost q = query;
        let items = query.fetch(conn, run);
        let ghost all = items@;
        let mut out: Vec<Result<O, Error>> = Vec::new();
        for item in it: items.into_iter()
            invariant
                it.seq() == all,
                fetch_outcome(q, run, all),
                q == self.spec_query(),
                mapper == self.spec_mapper(),
                conn.spec_depth() == old(conn).spec_depth(),
                forall|row: Row| #[trigger] mapper.requires((row,)),
                out.len() == it.index(),
                forall|j: int| 0 <= j < out.len() ==> #[trigger] mapped(mapper, all[j], out@[j]),
                forall|j: int| 0 <= j < out.len() ==> #[trigger] out@[j] is Ok,
        {
            match item {
                Ok(row) => {
                    let ghost g_row = row;
                    let x = mapper(row);
                    assert(mapper.ensures((g_row,), x));
                    match x {
                        Ok(o) => out.push(Ok(o)),
                        Err(e) => {
                            out.push(Err(e));
                            proof {
                                assert(mapped(mapper, all[out.len() - 1], out@[out.len() - 1]));
                                assert(mapped_items(mapper, all, out@));
                            }
                            return out;
                        },
                    }
                },
                Err(e) => {
                    out.push(Err(e));
                    proof {
                        assert(mapped(mapper, all[out.len() - 1], out@[out.len() - 1]));
                        assert(mapped_items(mapper, all, out@));
                    }
                    return out;
                },
            }
        }
        proof {
            assert(mapped_items(mapper, all, out@));
        }
        out
    }

    /// Run the query and return all of its rows, mapped, or the first error,
    /// whether the query or the mapping gave it.
    pub fn fetch_all<O, R: FnOnce(Request) -> Vec<Fetched>>(self, conn: &mut Connection, run: R) -> (r: Result<Vec<O>, Error>)
        where
            F: Fn(Row) -> Result<O, Error>,
        requires
            accepts_any(run),
            accepts_rows(self.spec_mapper()),
        ensures
            exists|out: Seq<Result<O, Error>>|
                #[trigger] fetched_mapped(self.spec_query(), self.spec_mapper(), run, out) && collected(out, r),
            final(conn).spec_depth() == old(conn).spec_depth(),
    {
        let ghost m = self;
        let out = self.fetch(conn, run);
        let ghost all = out@;
        assert(fetched_mapped(m.spec_query(), m.spec_mapper(), run, all));
        let mut values: Vec<O> = Vec::new();
        for x in it: out.into_iter()
            invariant
                it.seq() == all,
                fetched_mapped(self.spec_query(), self.spec_mapper(), run, all),
                conn.spec_depth() == old(conn).spec_depth(),
                values.len() == it.index(),
                forall|j: int| 0 <= j < values.len() ==> #[trigger] all[j] == Ok::<O, Error>(values@[j]),
        {
            match x {
                Ok(o) => values.push(o),
                Err(e) => {
                    proof {
                        let k = it.index() as int;
                        assert forall|j: int| 0 <= j < k implies #[trigger] all[j] is Ok by {
                            assert(all[j] == Ok::<O, Error>(values@[j]));
                        }
                        assert(all[k] == Err::<O, Error>(e));
                        assert(!(all[k] is Ok));
                        assert(collected(all, Err::<Vec<O>, Error>(e)));
                    }
                    return Err(e);
                },
            }
        }
        proof {
            assert forall|j: int| 0 <= j < all.len() implies #[trigger] all[j] is Ok by {
                assert(all[j] == Ok::<O, Error>(values@[j]));
            }
        }
        Ok(values)
    }

    /// Run the query and return its first row, mapped, if there is one.
    pub fn fetch_optional<O, R: FnOnce(Request) -> Vec<Fetched>>(self, conn: &mut Connection, run: R) -> (r: Result<Option<O>, Error>)
        where
            F: Fn(Row) -> Result<O, Error>,
        requires
            accepts_any(run),
            accepts_rows(self.spec_mapper()),
        ensures
            first_mapped(self.spec_query(), self.spec_mapper(), run, r),
            final(conn).spec_depth() == old(conn).spec_depth(),
    {
        let QueryMap { query, mapper } = self;
        let ghost q = query;
        let first = query.fetch_optional(conn, run);
        let ghost g_first = first;
        assert(optional_outcome(q, run, g_first));
        match first {
            Ok(Some(row)) => {
                let ghost g_row = row;
                let x = mapper(row);
                assert(mapper.ensures((g_row,), x));
                match x {
                    Ok(o) => Ok(Some(o)),
                    Err(e) => Err(e),
                }
            },
            Ok(None) => Ok(None),
            Err(e) => Err(e),
        }
    }

    /// Run the query and return its first row, mapped, or `RowNotFound`.
    pub fn fetch_one<O, R: FnOnce(Request) -> Vec<Fetched>>(self, conn: &mut Connection, run: R) -> (r: Result<O, Error>)
        where
            F: Fn(Row) -> Result<O, Error>,
        requires
            accepts_any(run),
            accepts_rows(self.spec_mapper()),
        ensures
            exists|first: Result<Option<O>, Error>|
                #[trigger] first_mapped(self.spec_query(), self.spec_mapper(), run, first) && r == required(first),
            final(conn).spec_depth() == old(conn).spec_depth(),
    {
        let ghost m = self;
        let first = self.fetch_optional(conn, run);
        assert(first_mapped(m.spec_query(), m.spec_mapper(), run, first));
        match first {
            Ok(Some(o)) => Ok(o),
            Ok(None) => Err(Error::RowNotFound),
            Err(e) => Err(e),
        }
    }
}

} // verus!

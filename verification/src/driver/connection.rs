//! The connection of a workflow to its database.
//!
//! Making a query is a conversation with the runtime: the driver hands it a
//! statement, its arguments and options, then fetches one result after the
//! other until there are none left. The functions here decide what is handed
//! over and what the fetched results mean.
use vstd::prelude::*;

use crate::bindings as sql;
use crate::driver::error::{convert_query_error, spec_convert_query_error, UnsupportedError};
use crate::driver::{Either, QueryResult, Row};
use crate::error::Error;

verus! {

/// A result fetched from the runtime while a query runs.
pub type Fetched = Result<sql::QueryResult, sql::Error>;

/// An item of a query's output: an outcome or a row.
pub type Item = Result<Either<QueryResult, Row>, Error>;

/// Whether `item` is what the fetched result `fetched` stands for.
pub open spec fn item_of(item: Item, fetched: Fetched) -> bool {
    match fetched {
        Ok(sql::QueryResult::Count(count)) => item matches Ok(Either::Left(q))
            && q.spec_rows_affected() == count,
        Ok(sql::QueryResult::Row(raw)) => item matches Ok(Either::Right(row)) && row.built_from(
            raw,
        ),
        Err(e) => item == Err::<Either<QueryResult, Row>, Error>(spec_convert_query_error(e)),
    }
}

/// Whether a fetched result ends a search for the first row: a row or an
/// error.
pub open spec fn ends_search(fetched: Fetched) -> bool {
    match fetched {
        Ok(sql::QueryResult::Count(_)) => false,
        _ => true,
    }
}

/// The number of rows that the outcomes among fetched results affected.
pub open spec fn fetched_rows_affected(fetched: Seq<Fetched>) -> int
    decreases fetched.len(),
{
    if fetched.len() == 0 {
        0
    } else {
        fetched_rows_affected(fetched.drop_last()) + match fetched.last() {
            Ok(sql::QueryResult::Count(c)) => c as int,
            _ => 0,
        }
    }
}

/// Counts of affected rows add up over fetched results: results one after
/// the other affect the rows of the first and those of the second, a result
/// that reports a count affects that many rows, and a row or an error affects
/// none.
pub proof fn lemma_fetched_counts_add_up(a: Seq<Fetched>, b: Seq<Fetched>, f: Fetched)
    ensures
        fetched_rows_affected(Seq::<Fetched>::empty()) == 0,
        fetched_rows_affected(a + b) == fetched_rows_affected(a) + fetched_rows_affected(b),
        f matches Ok(sql::QueryResult::Count(c)) ==> fetched_rows_affected(seq![f]) == c,
        !(f matches Ok(sql::QueryResult::Count(_))) ==> fetched_rows_affected(seq![f]) == 0,
    decreases b.len(),
{
    assert(seq![f].drop_last() =~= Seq::<Fetched>::empty());
    if b.len() == 0 {
        assert(a + b =~= a);
    } else {
        lemma_fetched_counts_add_up(a, b.drop_last(), f);
        assert((a + b).drop_last() =~= a + b.drop_last());
    }
}

/// The rows among fetched results, in order.
pub open spec fn fetched_rows(fetched: Seq<Fetched>) -> Seq<sql::Row>
    decreases fetched.len(),
{
    if fetched.len() == 0 {
        Seq::empty()
    } else {
        match fetched.last() {
            Ok(sql::QueryResult::Row(r)) => fetched_rows(fetched.drop_last()).push(r),
            _ => fetched_rows(fetched.drop_last()),
        }
    }
}

/// Whether position `k` is where the output of a query ends: the first error,
/// or the end of the fetched results when there is no error.
pub open spec fn output_end(fetched: Seq<Fetched>, k: int) -> bool {
    &&& 0 <= k <= fetched.len()
    &&& k < fetched.len() ==> fetched[k] is Err
    &&& forall|j: int| 0 <= j < k ==> #[trigger] fetched[j] is Ok
}

/// Whether `rows` were built, in order, from the rows of the runtime `raw`.
pub open spec fn rows_built_from(rows: Seq<Row>, raw: Seq<sql::Row>) -> bool {
    &&& rows.len() == raw.len()
    &&& forall|i: int| 0 <= i < rows.len() ==> #[trigger] rows[i].built_from(raw[i])
}

/// The error at the end of a query's output, if the output ends with one.
pub open spec fn error_at(fetched: Seq<Fetched>, k: int) -> Error {
    match fetched[k] {
        Err(e) => spec_convert_query_error(e),
        _ => Error::RowNotFound,
    }
}

proof fn lemma_fetched_step(fetched: Seq<Fetched>, i: int)
    requires
        0 <= i < fetched.len(),
    ensures
        fetched_rows_affected(fetched.subrange(0, i + 1)) == fetched_rows_affected(
            fetched.subrange(0, i),
        ) + match fetched[i] {
            Ok(sql::QueryResult::Count(c)) => c as int,
            _ => 0,
        },
        fetched_rows(fetched.subrange(0, i + 1)) == match fetched[i] {
            Ok(sql::QueryResult::Row(r)) => fetched_rows(fetched.subrange(0, i)).push(r),
            _ => fetched_rows(fetched.subrange(0, i)),
        },
{
    assert(fetched.subrange(0, i + 1).drop_last() =~= fetched.subrange(0, i));
}

/// A query's output has a single end.
proof fn lemma_output_end_unique(fetched: Seq<Fetched>, a: int, b: int)
    requires
        output_end(fetched, a),
        output_end(fetched, b),
    ensures
        a == b,
{
    if a < b {
        assert(fetched[a] is Ok);
    }
    if b < a {
        assert(fetched[b] is Ok);
    }
}

/// Before the first row or error there are no rows.
proof fn lemma_no_rows_before(fetched: Seq<Fetched>, i: int)
    requires
        0 <= i <= fetched.len(),
        forall|j: int| 0 <= j < i ==> !ends_search(#[trigger] fetched[j]),
    ensures
        fetched_rows(fetched.subrange(0, i)).len() == 0,
    decreases i,
{
    if i > 0 {
        lemma_no_rows_before(fetched, i - 1);
        lemma_fetched_step(fetched, i - 1);
        assert(!ends_search(fetched[i - 1]));
    } else {
        assert(fetched.subrange(0, 0) =~= Seq::<Fetched>::empty());
    }
}

/// The rows among a prefix of the fetched results begin the rows among a
/// longer prefix.
proof fn lemma_rows_prefix(fetched: Seq<Fetched>, m: int, n: int)
    requires
        0 <= m <= n <= fetched.len(),
    ensures
        fetched_rows(fetched.subrange(0, m)).len() <= fetched_rows(fetched.subrange(0, n)).len(),
        forall|j: int|
            0 <= j < fetched_rows(fetched.subrange(0, m)).len() ==> #[trigger] fetched_rows(
                fetched.subrange(0, m),
            )[j] == fetched_rows(fetched.subrange(0, n))[j],
    decreases n - m,
{
    if m < n {
        lemma_rows_prefix(fetched, m, n - 1);
        lemma_fetched_step(fetched, n - 1);
    }
}

/// The rows affected by the outcomes among the items of a query's output.
pub open spec fn items_rows_affected(items: Seq<Item>) -> int
    decreases items.len(),
{
    if items.len() == 0 {
        0
    } else {
        items_rows_affected(items.drop_last()) + match items.last() {
            Ok(Either::Left(q)) => q.spec_rows_affected() as int,
            _ => 0,
        }
    }
}

/// Items that stand for fetched results affect the rows that those results
/// affect.
proof fn lemma_items_rows_affected(fetched: Seq<Fetched>, items: Seq<Item>)
    requires
        items.len() == fetched.len(),
        forall|i: int| 0 <= i < items.len() ==> #[trigger] item_of(items[i], fetched[i]),
    ensures
        items_rows_affected(items) == fetched_rows_affected(fetched),
    decreases items.len(),
{
    if items.len() > 0 {
        let n = items.len() - 1;
        assert(item_of(items[n], fetched[n]));
        assert forall|i: int| 0 <= i < n implies #[trigger] item_of(items.drop_last()[i], fetched.drop_last()[i]) by {
            assert(item_of(items[i], fetched[i]));
        }
        lemma_items_rows_affected(fetched.drop_last(), items.drop_last());
    }
}

/// Executing a query gives the total of the outcomes that its output item by
/// item holds, or the error that ends that output.
pub proof fn lemma_execute_totals_fetch_many(fetched: Seq<Fetched>, items: Seq<Item>, r: Result<QueryResult, Error>)
    requires
        fetched_many(fetched, items),
        executed(fetched, r),
    ensures
        r is Ok <==> (forall|i: int| 0 <= i < items.len() ==> #[trigger] items[i] is Ok),
        r matches Ok(q) ==> q.spec_rows_affected() == items_rows_affected(items),
        r matches Err(e) ==> items.len() > 0 && items[items.len() - 1] == Err::<Either<QueryResult, Row>, Error>(e),
{
    match r {
        Ok(q) => {
            assert(items.len() == fetched.len()) by {
                if items.len() < fetched.len() {
                    assert(fetched[items.len() - 1] is Ok);
                }
            }
            assert forall|i: int| 0 <= i < items.len() implies #[trigger] items[i] is Ok by {
                assert(item_of(items[i], fetched[i]));
                assert(fetched[i] is Ok);
            }
            lemma_items_rows_affected(fetched, items);
        },
        Err(e) => {
            let k = choose|k: int| output_end(fetched, k) && k < fetched.len() && e == error_at(fetched, k);
            if items.len() <= k {
                if items.len() > 0 && items.len() < fetched.len() {
                    assert(fetched[items.len() - 1] is Err);
                    assert(fetched[items.len() - 1] is Ok);
                }
                assert(items.len() == fetched.len() || items.len() == 0);
                assert(false);
            }
            let last = items.len() - 1;
            assert(item_of(items[last], fetched[last]));
            if last < k {
                assert(fetched[last] is Ok);
                if items.len() < fetched.len() {
                    assert(fetched[last] is Err);
                }
                assert(items.len() == fetched.len());
            }
            if k < last {
                assert(fetched[k] is Ok);
            }
            assert(last == k);
            assert(!(items[last] is Ok));
        },
    }
}

/// When the runtime reports an error before any other, executing the query
/// or collecting its rows fails with that error as the library reports it; a
/// database error in particular comes back as that same database error, with
/// its kind, code, constraint and table.
pub proof fn lemma_first_error_is_reported(
    fetched: Seq<Fetched>,
    k: int,
    r: Result<QueryResult, Error>,
    all: Result<Vec<Row>, Error>,
)
    requires
        0 <= k < fetched.len(),
        fetched[k] is Err,
        forall|j: int| 0 <= j < k ==> #[trigger] fetched[j] is Ok,
    ensures
        executed(fetched, r) ==> r == Err::<QueryResult, Error>(
            spec_convert_query_error(fetched[k]->Err_0),
        ),
        fetched_all(fetched, all) ==> all == Err::<Vec<Row>, Error>(
            spec_convert_query_error(fetched[k]->Err_0),
        ),
        fetched[k] matches Err(sql::Error::Database(d)) ==> (executed(fetched, r) ==> r
            == Err::<QueryResult, Error>(Error::Database(d))),
{
    assert(output_end(fetched, k));
    if executed(fetched, r) {
        assert(!output_end(fetched, fetched.len() as int));
        let e = r->Err_0;
        let m = choose|m: int| output_end(fetched, m) && m < fetched.len() && e == error_at(fetched, m);
        lemma_output_end_unique(fetched, k, m);
    }
    if fetched_all(fetched, all) {
        assert(!output_end(fetched, fetched.len() as int));
        let e = all->Err_0;
        let m = choose|m: int| output_end(fetched, m) && m < fetched.len() && e == error_at(fetched, m);
        lemma_output_end_unique(fetched, k, m);
    }
}

/// Collecting all the rows of a query gives what fetching them one by one
/// gives: every row when none failed, else the error that ends the output.
pub proof fn lemma_fetch_all_collects_fetch(
    fetched: Seq<Fetched>,
    items: Seq<Result<Row, Error>>,
    r: Result<Vec<Row>, Error>,
)
    requires
        fetched_items(fetched, items),
        fetched_all(fetched, r),
    ensures
        r is Ok <==> (forall|j: int| 0 <= j < items.len() ==> #[trigger] items[j] is Ok),
        r matches Ok(rows) ==> rows@.len() == items.len() && forall|j: int|
            0 <= j < items.len() ==> (#[trigger] items[j] matches Ok(row) && row.built_from(
                fetched_rows(fetched)[j],
            ) && rows@[j].built_from(fetched_rows(fetched)[j])),
        r matches Err(e) ==> items.len() > 0 && items[items.len() - 1] == Err::<Row, Error>(e),
{
    let k = choose|k: int|
        {
            &&& #[trigger] output_end(fetched, k)
            &&& items.len() == fetched_rows(fetched.subrange(0, k)).len() + if k < fetched.len() {
                1int
            } else {
                0int
            }
            &&& forall|j: int|
                0 <= j < fetched_rows(fetched.subrange(0, k)).len() ==> (#[trigger] items[j] matches Ok(
                    row,
                ) && row.built_from(fetched_rows(fetched.subrange(0, k))[j]))
            &&& k < fetched.len() ==> items[items.len() - 1] == Err::<Row, Error>(
                error_at(fetched, k),
            )
        };
    match r {
        Ok(rows) => {
            lemma_output_end_unique(fetched, k, fetched.len() as int);
            assert(fetched.subrange(0, fetched.len() as int) =~= fetched);
        },
        Err(e) => {
            let k2 = choose|k2: int|
                output_end(fetched, k2) && k2 < fetched.len() && e == error_at(fetched, k2);
            lemma_output_end_unique(fetched, k, k2);
            assert(!(items[items.len() - 1] is Ok));
        },
    }
}

/// The first row of a query, if there is one, is the first item of its
/// output row by row, and the error that comes before any row is that first
/// item too.
pub proof fn lemma_optional_is_first_item(
    fetched: Seq<Fetched>,
    items: Seq<Result<Row, Error>>,
    r: Result<Option<Row>, Error>,
)
    requires
        fetched_items(fetched, items),
        fetched_optional(fetched, r),
    ensures
        r == Ok::<Option<Row>, Error>(None) ==> items.len() == 0,
        r matches Ok(Some(row)) ==> items.len() > 0 && (items[0] matches Ok(first) && exists|raw: sql::Row|
            #[trigger] row.built_from(raw) && first.built_from(raw)),
        r matches Err(e) ==> items.len() == 1 && items[0] == Err::<Row, Error>(e),
{
    let k = choose|k: int|
        {
            &&& #[trigger] output_end(fetched, k)
            &&& items.len() == fetched_rows(fetched.subrange(0, k)).len() + if k < fetched.len() {
                1int
            } else {
                0int
            }
            &&& forall|j: int|
                0 <= j < fetched_rows(fetched.subrange(0, k)).len() ==> (#[trigger] items[j] matches Ok(
                    row,
                ) && row.built_from(fetched_rows(fetched.subrange(0, k))[j]))
            &&& k < fetched.len() ==> items[items.len() - 1] == Err::<Row, Error>(
                error_at(fetched, k),
            )
        };
    match r {
        Ok(None) => {
            assert forall|j: int| 0 <= j < fetched.len() implies #[trigger] fetched[j] is Ok by {
                assert(!ends_search(fetched[j]));
            }
            assert(output_end(fetched, fetched.len() as int));
            lemma_output_end_unique(fetched, k, fetched.len() as int);
            lemma_no_rows_before(fetched, fetched.len() as int);
        },
        Ok(Some(row)) => {
            let i = choose|i: int|
                {
                    &&& 0 <= i < fetched.len()
                    &&& forall|j: int| 0 <= j < i ==> !ends_search(#[trigger] fetched[j])
                    &&& #[trigger] fetched[i] matches Ok(sql::QueryResult::Row(raw))
                    &&& row.built_from(raw)
                };
            let raw = fetched[i]->Ok_0->Row_0;
            if k <= i {
                if k < fetched.len() {
                    assert(fetched[k] is Err);
                    if k < i {
                        assert(!ends_search(fetched[k]));
                    }
                }
            }
            assert(k > i);
            lemma_no_rows_before(fetched, i);
            lemma_fetched_step(fetched, i);
            lemma_rows_prefix(fetched, i + 1, k);
            assert(fetched_rows(fetched.subrange(0, i + 1))[0] == raw);
            assert(fetched_rows(fetched.subrange(0, k))[0] == raw);
            assert(items[0] matches Ok(first) && first.built_from(raw));
        },
        Err(e) => {
            let i = choose|i: int|
                {
                    &&& 0 <= i < fetched.len()
                    &&& forall|j: int| 0 <= j < i ==> !ends_search(#[trigger] fetched[j])
                    &&& #[trigger] fetched[i] matches Err(x)
                    &&& e == spec_convert_query_error(x)
                };
            assert forall|j: int| 0 <= j < i implies #[trigger] fetched[j] is Ok by {
                assert(!ends_search(fetched[j]));
            }
            assert(output_end(fetched, i));
            lemma_output_end_unique(fetched, k, i);
            lemma_no_rows_before(fetched, i);
        },
    }
}

/// Whether `r` is the outcome of a statement whose results were `fetched`:
/// the rows affected by all of its parts, or the first error.
pub open spec fn executed(fetched: Seq<Fetched>, r: Result<QueryResult, Error>) -> bool {
    &&& r is Ok <==> output_end(fetched, fetched.len() as int)
    &&& (r matches Ok(q) ==> q.spec_rows_affected() == fetched_rows_affected(fetched))
    &&& (r matches Err(e) ==> exists|k: int|
        output_end(fetched, k) && k < fetched.len() && e == error_at(fetched, k))
}

/// Whether `items` is the output, item by item, of a query whose results
/// were `fetched`: each fetched result in order, up to and including the
/// first error.
pub open spec fn fetched_many(fetched: Seq<Fetched>, items: Seq<Item>) -> bool {
    &&& items.len() <= fetched.len()
    &&& forall|i: int| 0 <= i < items.len() ==> #[trigger] item_of(items[i], fetched[i])
    &&& forall|i: int| 0 <= i < items.len() - 1 ==> #[trigger] fetched[i] is Ok
    &&& items.len() == fetched.len() || (items.len() > 0 && fetched[items.len() - 1] is Err)
}

/// Whether `r` is all the rows of a query whose results were `fetched`, or
/// the first error.
pub open spec fn fetched_all(fetched: Seq<Fetched>, r: Result<Vec<Row>, Error>) -> bool {
    &&& r is Ok <==> output_end(fetched, fetched.len() as int)
    &&& (r matches Ok(rows) ==> rows_built_from(rows@, fetched_rows(fetched)))
    &&& (r matches Err(e) ==> exists|k: int|
        output_end(fetched, k) && k < fetched.len() && e == error_at(fetched, k))
}

/// Whether `items` are the rows of a query whose results were `fetched`, one
/// by one, ending with the first error.
pub open spec fn fetched_items(fetched: Seq<Fetched>, items: Seq<Result<Row, Error>>) -> bool {
    exists|k: int|
        {
            &&& #[trigger] output_end(fetched, k)
            &&& items.len() == fetched_rows(fetched.subrange(0, k)).len() + if k < fetched.len() {
                1int
            } else {
                0int
            }
            &&& forall|j: int|
                0 <= j < fetched_rows(fetched.subrange(0, k)).len() ==> (#[trigger] items[j] matches Ok(
                    row,
                ) && row.built_from(fetched_rows(fetched.subrange(0, k))[j]))
            &&& k < fetched.len() ==> items[items.len() - 1] == Err::<Row, Error>(
                error_at(fetched, k),
            )
        }
}

/// Whether `r` is the first row of a query whose results were `fetched`:
/// `None` when there is none, or the first error when one comes before any
/// row.
pub open spec fn fetched_optional(fetched: Seq<Fetched>, r: Result<Option<Row>, Error>) -> bool {
    &&& (r matches Ok(None) ==> forall|i: int|
        0 <= i < fetched.len() ==> !ends_search(#[trigger] fetched[i]))
    &&& ((forall|i: int| 0 <= i < fetched.len() ==> !ends_search(#[trigger] fetched[i])) ==> (r
        matches Ok(None)))
    &&& (r matches Ok(Some(row)) ==> exists|i: int|
        {
            &&& 0 <= i < fetched.len()
            &&& forall|j: int| 0 <= j < i ==> !ends_search(#[trigger] fetched[j])
            &&& #[trigger] fetched[i] matches Ok(sql::QueryResult::Row(raw))
            &&& row.built_from(raw)
        })
    &&& (r matches Err(e) ==> exists|i: int|
        {
            &&& 0 <= i < fetched.len()
            &&& forall|j: int| 0 <= j < i ==> !ends_search(#[trigger] fetched[j])
            &&& #[trigger] fetched[i] matches Err(x)
            &&& e == spec_convert_query_error(x)
        })
}

/// Whether position `k` holds the first row or error among the fetched
/// results: where a search for the first row ends.
pub open spec fn first_end(fetched: Seq<Fetched>, k: int) -> bool {
    &&& 0 <= k < fetched.len()
    &&& ends_search(fetched[k])
    &&& forall|j: int| 0 <= j < k ==> !ends_search(#[trigger] fetched[j])
}

/// The first row of a query, or the error before it, depends on the fetched
/// results up to and including the first row or error alone: nothing after
/// it needs to be fetched.
pub proof fn lemma_optional_reads_to_first_end(fetched: Seq<Fetched>, k: int, r: Result<Option<Row>, Error>)
    requires
        first_end(fetched, k),
    ensures
        fetched_optional(fetched, r) == fetched_optional(fetched.subrange(0, k + 1), r),
{
    let prefix = fetched.subrange(0, k + 1);
    assert forall|j: int| 0 <= j <= k implies #[trigger] prefix[j] == fetched[j] by {}
    assert(!ends_search(prefix[k]) == false);
    if fetched_optional(fetched, r) {
        match r {
            Ok(Some(row)) => {
                let i = choose|i: int|
                    {
                        &&& 0 <= i < fetched.len()
                        &&& forall|j: int| 0 <= j < i ==> !ends_search(#[trigger] fetched[j])
                        &&& #[trigger] fetched[i] matches Ok(sql::QueryResult::Row(raw))
                        &&& row.built_from(raw)
                    };
                if i > k {
                    assert(!ends_search(fetched[k]));
                }
                if i < k {
                    assert(!ends_search(fetched[i]));
                }
                assert(i == k);
                assert(prefix[i] == fetched[i]);
            },
            Err(e) => {
                let i = choose|i: int|
                    {
                        &&& 0 <= i < fetched.len()
                        &&& forall|j: int| 0 <= j < i ==> !ends_search(#[trigger] fetched[j])
                        &&& #[trigger] fetched[i] matches Err(x)
                        &&& e == spec_convert_query_error(x)
                    };
                if i > k {
                    assert(!ends_search(fetched[k]));
                }
                if i < k {
                    assert(!ends_search(fetched[i]));
                }
                assert(i == k);
                assert(prefix[i] == fetched[i]);
            },
            Ok(None) => {
                assert(!ends_search(fetched[k]));
            },
        }
    }
    if fetched_optional(prefix, r) {
        match r {
            Ok(Some(row)) => {
                let i = choose|i: int|
                    {
                        &&& 0 <= i < prefix.len()
                        &&& forall|j: int| 0 <= j < i ==> !ends_search(#[trigger] prefix[j])
                        &&& #[trigger] prefix[i] matches Ok(sql::QueryResult::Row(raw))
                        &&& row.built_from(raw)
                    };
                assert(prefix[i] == fetched[i]);
                assert forall|j: int| 0 <= j < i implies !ends_search(#[trigger] fetched[j]) by {
                    assert(prefix[j] == fetched[j]);
                }
            },
            Err(e) => {
                let i = choose|i: int|
                    {
                        &&& 0 <= i < prefix.len()
                        &&& forall|j: int| 0 <= j < i ==> !ends_search(#[trigger] prefix[j])
                        &&& #[trigger] prefix[i] matches Err(x)
                        &&& e == spec_convert_query_error(x)
                    };
                assert(prefix[i] == fetched[i]);
                assert forall|j: int| 0 <= j < i implies !ends_search(#[trigger] fetched[j]) by {
                    assert(prefix[j] == fetched[j]);
                }
            },
            Ok(None) => {
                assert(!ends_search(prefix[k]));
            },
        }
    }
}

/// Whether `r` is the first row of a query whose results were `fetched`, or
/// `RowNotFound` when there is none, or the first error when one comes before
/// any row.
pub open spec fn fetched_one(fetched: Seq<Fetched>, r: Result<Row, Error>) -> bool {
    fetched_optional(
        fetched,
        match r {
            Ok(row) => Ok(Some(row)),
            Err(Error::RowNotFound) => Ok(None),
            Err(e) => Err(e),
        },
    )
}

/// The options of a query whose whole output is wanted.
pub open spec fn many_options() -> sql::Options {
    sql::Options { limit: 255, persistent: true }
}

/// The options of a query of which at most one row is wanted.
pub open spec fn optional_options() -> sql::Options {
    sql::Options { limit: 1, persistent: true }
}

/// Options for opening a connection.
///
/// A workflow cannot open connections of its own: its one connection is the
/// runtime's. No value of this type can be made; parsing one always fails.
#[derive(Debug)]
pub struct ConnectOptions {
    unconstructible: (),
}

impl ConnectOptions {
    /// Parse connection options from a connection string: always refused as
    /// unsupported.
    pub fn from_str(s: &str) -> (r: Result<ConnectOptions, Error>)
        ensures
            r matches Err(Error::Configuration(m)) && m@ == "operation not supported"@,
    {
        Err(Error::Configuration(UnsupportedError::new().message()))
    }

    /// Parse connection options from a URL: always refused as unsupported.
    pub fn from_url(url: &str) -> (r: Result<ConnectOptions, Error>)
        ensures
            r matches Err(Error::Configuration(m)) && m@ == "operation not supported"@,
    {
        Self::from_str(url)
    }
}

/// A connection to the database that the runtime holds for the workflow.
///
/// There is a single such connection; a value of this type is the permission
/// to use it. It records how many savepoints are open on it.
#[derive(Debug)]
pub struct Connection {
    txn_depth: u32,
}

impl Connection {
    /// The number of open savepoints.
    pub closed spec fn spec_depth(self) -> u32 {
        self.txn_depth
    }

    /// A connection with no open savepoint.
    pub fn new() -> (conn: Self)
        ensures
            conn.spec_depth() == 0,
    {
        Connection { txn_depth: 0 }
    }

    /// The number of open savepoints.
    pub fn depth(&self) -> (depth: u32)
        ensures
            depth == self.spec_depth(),
    {
        self.txn_depth
    }

    /// Close the connection. The runtime owns the connection, so there is
    /// nothing to close and this always succeeds.
    pub fn close(self) -> (r: Result<(), Error>)
        ensures
            r is Ok,
    {
        Ok(())
    }

    /// Check that the connection is alive: it always is, and nothing changes.
    pub fn ping(&mut self) -> (r: Result<(), Error>)
        ensures
            r is Ok,
            final(self).spec_depth() == old(self).spec_depth(),
    {
        Ok(())
    }

    /// Send buffered statements: nothing is buffered, so this always
    /// succeeds and nothing changes.
    pub fn flush(&mut self) -> (r: Result<(), Error>)
        ensures
            r is Ok,
            final(self).spec_depth() == old(self).spec_depth(),
    {
        Ok(())
    }

    /// Whether there are buffered statements to send: never.
    pub fn should_flush(&self) -> (b: bool)
        ensures
            !b,
    {
        false
    }

    /// Record that a savepoint was opened.
    pub(crate) fn enter(&mut self)
        requires
            old(self).spec_depth() < u32::MAX,
        ensures
            final(self).spec_depth() == old(self).spec_depth() + 1,
    {
        self.txn_depth = self.txn_depth + 1;
    }

    /// Record that the innermost savepoint was released or rolled back.
    pub(crate) fn leave(&mut self)
        requires
            old(self).spec_depth() > 0,
        ensures
            final(self).spec_depth() == old(self).spec_depth() - 1,
    {
        self.txn_depth = self.txn_depth - 1;
    }

    /// The options of a query whose whole output is wanted.
    pub fn fetch_many_options() -> (options: sql::Options)
        ensures
            options == many_options(),
    {
        sql::Options { limit: u8::MAX, persistent: true }
    }

    /// The options of a query of which at most one row is wanted.
    pub fn fetch_optional_options() -> (options: sql::Options)
        ensures
            options == optional_options(),
    {
        sql::Options { limit: 1, persistent: true }
    }

    /// The item that a result fetched from the runtime stands for, or `None`
    /// when the runtime has no more results.
    pub fn next_item(fetched: Option<Fetched>) -> (item: Option<Item>)
        ensures
            item is Some <==> fetched is Some,
            item matches Some(item) ==> item_of(item, fetched.unwrap()),
    {
        match fetched {
            None => None,
            Some(Ok(sql::QueryResult::Count(count))) => Some(Ok(Either::Left(QueryResult::new(count)))),
            Some(Ok(sql::QueryResult::Row(row))) => Some(Ok(Either::Right(Row::from_raw(row)))),
            Some(Err(e)) => Some(Err(convert_query_error(e))),
        }
    }

    /// Whether a fetched result ends a search for the first row: a row or an
    /// error. A search fetches no result after the one that ends it.
    pub fn ends_search(fetched: &Fetched) -> (b: bool)
        ensures
            b == ends_search(*fetched),
    {
        match fetched {
            Ok(sql::QueryResult::Count(_)) => false,
            _ => true,
        }
    }

    /// The output of a query, item by item, from the results fetched from the
    /// runtime. The output ends with the first error.
    pub fn fetch_many(&mut self, fetched: Vec<Fetched>) -> (items: Vec<Item>)
        ensures
            fetched_many(fetched@, items@),
            final(self).spec_depth() == old(self).spec_depth(),
    {
        let ghost all = fetched@;
        let mut items: Vec<Item> = Vec::new();
        for f in it: fetched.into_iter()
            invariant
                it.seq() == all,
                items.len() == it.index(),
                forall|i: int| 0 <= i < items.len() ==> #[trigger] item_of(items@[i], all[i]),
                forall|i: int| 0 <= i < items.len() ==> #[trigger] all[i] is Ok,
        {
            let is_err = f.is_err();
            let item = Self::next_item(Some(f));
            match item {
                Some(item) => items.push(item),
                None => {},
            }
            if is_err {
                return items;
            }
        }
        items
    }

    /// The first row of a query's output, from the results fetched from the
    /// runtime: `None` when there is no row, or the first error when one
    /// comes before any row.
    pub fn fetch_optional(&mut self, fetched: Vec<Fetched>) -> (row: Result<Option<Row>, Error>)
        ensures
            fetched_optional(fetched@, row),
            forall|k: int| #[trigger] first_end(fetched@, k) ==> fetched_optional(fetched@.subrange(0, k + 1), row),
            final(self).spec_depth() == old(self).spec_depth(),
    {
        let ghost all = fetched@;
        let row = Self::first_row(fetched);
        proof {
            assert forall|k: int| #[trigger] first_end(all, k) implies fetched_optional(all.subrange(0, k + 1), row) by {
                lemma_optional_reads_to_first_end(all, k, row);
            }
        }
        row
    }

    /// The first row among fetched results, or the error before it.
    fn first_row(fetched: Vec<Fetched>) -> (row: Result<Option<Row>, Error>)
        ensures
            fetched_optional(fetched@, row),
    {
        let ghost all = fetched@;
        for f in it: fetched.into_iter()
            invariant
                it.seq() == all,
                forall|j: int| 0 <= j < it.index() ==> !ends_search(#[trigger] all[j]),
        {
            match f {
                Ok(sql::QueryResult::Count(_)) => {},
                Ok(sql::QueryResult::Row(raw)) => {
                    let ghost i = it.index() as int;
                    assert(all[i] matches Ok(sql::QueryResult::Row(raw)));
                    return Ok(Some(Row::from_raw(raw)));
                },
                Err(e) => {
                    let ghost i = it.index() as int;
                    assert(all[i] matches Err(x) && x == e);
                    return Err(convert_query_error(e));
                },
            }
        }
        Ok(None)
    }

    /// The outcome of a statement, from the results fetched from the runtime:
    /// the rows affected by all of its parts, or the first error.
    pub fn execute(&mut self, fetched: Vec<Fetched>) -> (r: Result<QueryResult, Error>)
        requires
            fetched_rows_affected(fetched@) <= u64::MAX,
        ensures
            executed(fetched@, r),
            final(self).spec_depth() == old(self).spec_depth(),
    {
        let ghost all = fetched@;
        let mut total: u64 = 0;
        for f in it: fetched.into_iter()
            invariant
                it.seq() == all,
                fetched_rows_affected(all) <= u64::MAX,
                output_end(all.subrange(0, it.index() as int), it.index() as int),
                forall|j: int| 0 <= j < it.index() ==> #[trigger] all[j] is Ok,
                total == fetched_rows_affected(all.subrange(0, it.index() as int)),
        {
            let ghost i = it.index() as int;
            proof {
                lemma_fetched_step(all, i);
                lemma_prefix_rows_affected(all, i + 1);
            }
            match f {
                Ok(sql::QueryResult::Count(c)) => {
                    total = total + c;
                },
                Ok(sql::QueryResult::Row(_)) => {},
                Err(e) => {
                    assert(output_end(all, i));
                    return Err(convert_query_error(e));
                },
            }
        }
        proof {
            assert(all.subrange(0, all.len() as int) =~= all);
        }
        Ok(QueryResult::new(total))
    }

    /// All the rows of a query's output, from the results fetched from the
    /// runtime, or the first error.
    pub fn fetch_all(&mut self, fetched: Vec<Fetched>) -> (r: Result<Vec<Row>, Error>)
        ensures
            fetched_all(fetched@, r),
            final(self).spec_depth() == old(self).spec_depth(),
    {
        let ghost all = fetched@;
        let mut rows: Vec<Row> = Vec::new();
        for f in it: fetched.into_iter()
            invariant
                it.seq() == all,
                forall|j: int| 0 <= j < it.index() ==> #[trigger] all[j] is Ok,
                rows_built_from(rows@, fetched_rows(all.subrange(0, it.index() as int))),
        {
            let ghost i = it.index() as int;
            proof {
                lemma_fetched_step(all, i);
            }
            match f {
                Ok(sql::QueryResult::Count(_)) => {},
                Ok(sql::QueryResult::Row(raw)) => {
                    rows.push(Row::from_raw(raw));
                },
                Err(e) => {
                    assert(output_end(all, i));
                    return Err(convert_query_error(e));
                },
            }
        }
        proof {
            assert(all.subrange(0, all.len() as int) =~= all);
        }
        Ok(rows)
    }

    /// The rows of a query's output, one by one, from the results fetched
    /// from the runtime; the output ends with the first error.
    pub fn fetch(&mut self, fetched: Vec<Fetched>) -> (items: Vec<Result<Row, Error>>)
        ensures
            fetched_items(fetched@, items@),
            final(self).spec_depth() == old(self).spec_depth(),
    {
        let ghost all = fetched@;
        let mut items: Vec<Result<Row, Error>> = Vec::new();
        for f in it: fetched.into_iter()
            invariant
                it.seq() == all,
                forall|j: int| 0 <= j < it.index() ==> #[trigger] all[j] is Ok,
                items.len() == fetched_rows(all.subrange(0, it.index() as int)).len(),
                forall|j: int|
                    0 <= j < items.len() ==> (#[trigger] items@[j] matches Ok(row)
                        && row.built_from(fetched_rows(all.subrange(0, it.index() as int))[j])),
        {
            let ghost i = it.index() as int;
            proof {
                lemma_fetched_step(all, i);
            }
            match f {
                Ok(sql::QueryResult::Count(_)) => {},
                Ok(sql::QueryResult::Row(raw)) => {
                    items.push(Ok(Row::from_raw(raw)));
                },
                Err(e) => {
                    assert(output_end(all, i));
                    items.push(Err(convert_query_error(e)));
                    return items;
                },
            }
        }
        proof {
            assert(all.subrange(0, all.len() as int) =~= all);
            assert(output_end(all, all.len() as int));
        }
        items
    }

    /// The first row of a query's output, from the results fetched from the
    /// runtime: `RowNotFound` when there is no row, or the first error when
    /// one comes before any row.
    pub fn fetch_one(&mut self, fetched: Vec<Fetched>) -> (row: Result<Row, Error>)
        ensures
            fetched_one(fetched@, row),
            final(self).spec_depth() == old(self).spec_depth(),
    {
        match self.fetch_optional(fetched) {
            Ok(Some(row)) => Ok(row),
            Ok(None) => Err(Error::RowNotFound),
            Err(e) => Err(e),
        }
    }
}

/// The rows affected by a prefix of the fetched results are no more than
/// those affected by all of them.
proof fn lemma_prefix_rows_affected(fetched: Seq<Fetched>, n: int)
    requires
        0 <= n <= fetched.len(),
    ensures
        fetched_rows_affected(fetched.subrange(0, n)) <= fetched_rows_affected(fetched),
    decreases fetched.len() - n,
{
    if n < fetched.len() {
        lemma_fetched_step(fetched, n);
        lemma_prefix_rows_affected(fetched, n + 1);
    } else {
        assert(fetched.subrange(0, n) =~= fetched);
    }
}

} // verus!

//! The database the driver talks to and the outcome of a statement.
use vstd::prelude::*;

verus! {

/// The database that the durable runtime holds for a workflow.
#[derive(Debug)]
pub struct Durable;

impl Durable {
    /// The name of the driver.
    pub fn name() -> (name: &'static str)
        ensures
            name@ == "durable"@,
    {
        "durable"
    }
}

/// The outcome of a statement: the number of rows it affected.
#[derive(Copy, Clone, Debug)]
pub struct QueryResult {
    rows_affected: u64,
}

impl Default for QueryResult {
    /// The outcome of a statement that affected no row.
    fn default() -> (r: Self)
        ensures
            r.spec_rows_affected() == 0,
    {
        QueryResult { rows_affected: 0 }
    }
}

/// The total number of rows that a list of outcomes affected.
pub open spec fn total_rows_affected(results: Seq<QueryResult>) -> int
    decreases results.len(),
{
    if results.len() == 0 {
        0
    } else {
        total_rows_affected(results.drop_last()) + results.last().spec_rows_affected()
    }
}

impl QueryResult {
    /// The number of rows affected.
    pub closed spec fn spec_rows_affected(self) -> u64 {
        self.rows_affected
    }

    /// The outcome of a statement that affected the given number of rows.
    pub fn new(rows_affected: u64) -> (r: Self)
        ensures
            r.spec_rows_affected() == rows_affected,
    {
        Self { rows_affected }
    }

    /// The number of rows affected.
    pub fn rows_affected(&self) -> (n: u64)
        ensures
            n == self.spec_rows_affected(),
    {
        self.rows_affected
    }

    /// Add the rows affected by each of `results` to this outcome.
    pub fn extend(&mut self, results: &Vec<QueryResult>)
        requires
            old(self).spec_rows_affected() + total_rows_affected(results@) <= u64::MAX,
        ensures
            final(self).spec_rows_affected() == old(self).spec_rows_affected()
                + total_rows_affected(results@),
    {
        let mut i: usize = 0;
        while i < results.len()
            invariant
                i <= results.len(),
                old(self).spec_rows_affected() + total_rows_affected(results@) <= u64::MAX,
                self.rows_affected == old(self).spec_rows_affected() + total_rows_affected(
                    results@.subrange(0, i as int),
                ),
            decreases results.len() - i,
        {
            proof {
                lemma_total_prefix(results@, i as int);
                assert(results@.subrange(0, i + 1).drop_last() =~= results@.subrange(0, i as int));
            }
            self.rows_affected = self.rows_affected + results[i].rows_affected;
            i += 1;
        }
        assert(results@.subrange(0, results.len() as int) =~= results@);
    }
}

/// Totals add up: no outcomes affect no row, a single outcome affects its own
/// rows, and two lists of outcomes one after the other affect the rows of the
/// first and those of the second.
pub proof fn lemma_total_adds_up(a: Seq<QueryResult>, b: Seq<QueryResult>, q: QueryResult)
    ensures
        total_rows_affected(Seq::<QueryResult>::empty()) == 0,
        total_rows_affected(seq![q]) == q.spec_rows_affected(),
        total_rows_affected(a + b) == total_rows_affected(a) + total_rows_affected(b),
    decreases b.len(),
{
    assert(seq![q].drop_last() =~= Seq::<QueryResult>::empty());
    assert(seq![q].last() == q);
    assert(total_rows_affected(Seq::<QueryResult>::empty()) == 0);
    if b.len() == 0 {
        assert(a + b =~= a);
    } else {
        lemma_total_adds_up(a, b.drop_last(), q);
        assert((a + b).drop_last() =~= a + b.drop_last());
    }
}

/// The rows affected by a prefix of a list of outcomes are no more than the
/// rows affected by the whole list.
proof fn lemma_total_prefix(results: Seq<QueryResult>, n: int)
    requires
        0 <= n < results.len(),
    ensures
        total_rows_affected(results.subrange(0, n)) + results[n].spec_rows_affected()
            == total_rows_affected(results.subrange(0, n + 1)),
        total_rows_affected(results.subrange(0, n + 1)) <= total_rows_affected(results),
    decreases results.len(),
{
    assert(results.subrange(0, n + 1).drop_last() =~= results.subrange(0, n));
    if n + 1 == results.len() {
        assert(results.subrange(0, n + 1) =~= results);
    } else {
        lemma_total_prefix(results.drop_last(), n);
        assert(results.drop_last().subrange(0, n + 1) =~= results.subrange(0, n + 1));
        assert(results.drop_last().subrange(0, n) =~= results.subrange(0, n));
    }
}

/// Either the outcome of a statement or a row that it produced.
#[derive(Debug)]
pub enum Either<L, R> {
    Left(L),
    Right(R),
}

} // verus!

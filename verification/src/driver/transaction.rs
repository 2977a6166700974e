//! Nested transactions on the workflow's connection.
//!
//! The runtime already runs the workflow inside a database transaction, so
//! nested transactions are savepoints. The savepoint opened at depth `d` is
//! named `savepoint_d`; committing releases the innermost one and rolling back
//! returns to it.
use vstd::prelude::*;

use crate::driver::{Connection, Fetched, QueryResult};
use crate::query::{accepts_any, counts_fit, lemma_unbound_outcome, query, statement_outcome, Request};
use crate::error::Error;
use crate::util::{decimal, lemma_decimal_injective, u128_to_decimal};

verus! {

/// The name of the savepoint opened at depth `depth`.
pub open spec fn savepoint_name(depth: nat) -> Seq<char> {
    "savepoint_"@ + decimal(depth)
}

/// The statement that opens a savepoint at depth `depth`.
pub open spec fn begin_sql(depth: nat) -> Seq<char> {
    "SAVEPOINT "@ + savepoint_name(depth)
}

/// The statement that releases the innermost savepoint when `depth` are open.
pub open spec fn commit_sql(depth: nat) -> Seq<char> {
    "RELEASE "@ + savepoint_name((depth - 1) as nat)
}

/// The statement that rolls back to the innermost savepoint when `depth` are
/// open.
pub open spec fn rollback_sql(depth: nat) -> Seq<char> {
    "ROLLBACK TO "@ + savepoint_name((depth - 1) as nat)
}

/// The error given when committing with no open transaction.
pub open spec fn no_commit_message() -> Seq<char> {
    "attempted to commit a database transaction when no transaction was active"@
}

/// The error given when rolling back with no open transaction.
pub open spec fn no_rollback_message() -> Seq<char> {
    "attempted to rollback a database transaction when no transaction was active"@
}

/// Committing or rolling back right after opening a savepoint addresses the
/// savepoint that was just opened, and savepoints opened at different depths
/// have different names.
pub proof fn lemma_savepoints_pair(depth: nat, other: nat)
    ensures
        begin_sql(depth) == "SAVEPOINT "@ + savepoint_name(depth),
        commit_sql(depth + 1) == "RELEASE "@ + savepoint_name(depth),
        rollback_sql(depth + 1) == "ROLLBACK TO "@ + savepoint_name(depth),
        depth != other ==> savepoint_name(depth) != savepoint_name(other),
{
    if depth != other && savepoint_name(depth) == savepoint_name(other) {
        let prefix = "savepoint_"@;
        assert(savepoint_name(depth).subrange(prefix.len() as int, savepoint_name(depth).len() as int)
            =~= decimal(depth));
        assert(savepoint_name(other).subrange(prefix.len() as int, savepoint_name(other).len() as int)
            =~= decimal(other));
        lemma_decimal_injective(depth, other);
    }
}

/// Builds `prefix` followed by the savepoint name for `depth`.
fn savepoint_statement(prefix: &str, depth: u32) -> (sql: String)
    ensures
        sql@ == prefix@ + savepoint_name(depth as nat),
{
    let mut sql = String::from_str(prefix);
    sql.append("savepoint_");
    let digits = u128_to_decimal(depth as u128);
    sql.append(digits.as_str());
    proof {
        assert(sql@ =~= prefix@ + savepoint_name(depth as nat));
    }
    sql
}

/// Drives nested transactions on the workflow's connection.
#[derive(Debug)]
pub struct TransactionManager;

impl TransactionManager {
    /// Open a savepoint, running its statement through `run`; on success one
    /// more savepoint is open.
    pub fn begin<F: FnOnce(Request) -> Vec<Fetched>>(conn: &mut Connection, run: F) -> (r: Result<(), Error>)
        requires
            accepts_any(run),
            counts_fit(run),
            old(conn).spec_depth() < u32::MAX,
        ensures
            exists|x: Result<QueryResult, Error>|
                {
                    &&& #[trigger] statement_outcome(begin_sql(old(conn).spec_depth() as nat), run, x)
                    &&& r is Ok <==> x is Ok
                    &&& x matches Err(e) ==> r == Err::<(), Error>(e)
                },
            r is Ok ==> final(conn).spec_depth() == old(conn).spec_depth() + 1,
            r is Err ==> final(conn).spec_depth() == old(conn).spec_depth(),
    {
        let ghost d = conn.spec_depth() as nat;
        let sql = savepoint_statement("SAVEPOINT ", conn.depth());
        assert(sql@ == begin_sql(d));
        let x = run_statement(conn, sql, run);
        assert(statement_outcome(begin_sql(d), run, x));
        match x {
            Ok(_) => {
                conn.enter();
                Ok(())
            },
            Err(e) => Err(e),
        }
    }

    /// Release the innermost savepoint, running its statement through `run`;
    /// on success one savepoint fewer is open. With none open nothing is run
    /// and the error says so.
    pub fn commit<F: FnOnce(Request) -> Vec<Fetched>>(conn: &mut Connection, run: F) -> (r: Result<(), Error>)
        requires
            accepts_any(run),
            counts_fit(run),
        ensures
            old(conn).spec_depth() == 0 ==> (r matches Err(Error::Protocol(m)) && m@ == no_commit_message()),
            old(conn).spec_depth() > 0 ==> exists|x: Result<QueryResult, Error>|
                {
                    &&& #[trigger] statement_outcome(commit_sql(old(conn).spec_depth() as nat), run, x)
                    &&& r is Ok <==> x is Ok
                    &&& x matches Err(e) ==> r == Err::<(), Error>(e)
                },
            r is Ok ==> final(conn).spec_depth() == old(conn).spec_depth() - 1,
            r is Err ==> final(conn).spec_depth() == old(conn).spec_depth(),
    {
        let depth = conn.depth();
        if depth == 0 {
            return Err(Error::Protocol(String::from_str(
                "attempted to commit a database transaction when no transaction was active",
            )));
        }
        let ghost d = conn.spec_depth() as nat;
        let sql = savepoint_statement("RELEASE ", depth - 1);
        assert(sql@ == commit_sql(d));
        let x = run_statement(conn, sql, run);
        assert(statement_outcome(commit_sql(d), run, x));
        match x {
            Ok(_) => {
                conn.leave();
                Ok(())
            },
            Err(e) => Err(e),
        }
    }

    /// Roll back to the innermost savepoint, running its statement through
    /// `run`; on success one savepoint fewer is open. With none open nothing
    /// is run and the error says so.
    pub fn rollback<F: FnOnce(Request) -> Vec<Fetched>>(conn: &mut Connection, run: F) -> (r: Result<(), Error>)
        requires
            accepts_any(run),
            counts_fit(run),
        ensures
            old(conn).spec_depth() == 0 ==> (r matches Err(Error::Protocol(m)) && m@ == no_rollback_message()),
            old(conn).spec_depth() > 0 ==> exists|x: Result<QueryResult, Error>|
                {
                    &&& #[trigger] statement_outcome(rollback_sql(old(conn).spec_depth() as nat), run, x)
                    &&& r is Ok <==> x is Ok
                    &&& x matches Err(e) ==> r == Err::<(), Error>(e)
                },
            r is Ok ==> final(conn).spec_depth() == old(conn).spec_depth() - 1,
            r is Err ==> final(conn).spec_depth() == old(conn).spec_depth(),
    {
        let depth = conn.depth();
        if depth == 0 {
            return Err(Error::Protocol(String::from_str(
                "attempted to rollback a database transaction when no transaction was active",
            )));
        }
        let ghost d = conn.spec_depth() as nat;
        let sql = savepoint_statement("ROLLBACK TO ", depth - 1);
        assert(sql@ == rollback_sql(d));
        let x = run_statement(conn, sql, run);
        assert(statement_outcome(rollback_sql(d), run, x));
        match x {
            Ok(_) => {
                conn.leave();
                Ok(())
            },
            Err(e) => Err(e),
        }
    }

    /// Start rolling back to the innermost savepoint, ignoring the outcome.
    pub fn start_rollback<F: FnOnce(Request) -> Vec<Fetched>>(conn: &mut Connection, run: F)
        requires
            accepts_any(run),
            counts_fit(run),
        ensures
            old(conn).spec_depth() == 0 ==> final(conn).spec_depth() == 0,
            old(conn).spec_depth() > 0 ==> exists|x: Result<QueryResult, Error>|
                {
                    &&& #[trigger] statement_outcome(rollback_sql(old(conn).spec_depth() as nat), run, x)
                    &&& x is Ok ==> final(conn).spec_depth() == old(conn).spec_depth() - 1
                    &&& x is Err ==> final(conn).spec_depth() == old(conn).spec_depth()
                },
    {
        let _ = Self::rollback(conn, run);
    }

    /// The number of open savepoints.
    pub fn get_transaction_depth(conn: &Connection) -> (depth: usize)
        ensures
            depth == conn.spec_depth(),
    {
        conn.depth() as usize
    }
}

/// Run `sql`, with no arguments, through `run`.
fn run_statement<F: FnOnce(Request) -> Vec<Fetched>>(conn: &mut Connection, sql: String, run: F) -> (r: Result<QueryResult, Error>)
    requires
        accepts_any(run),
        counts_fit(run),
    ensures
        statement_outcome(sql@, run, r),
        final(conn).spec_depth() == old(conn).spec_depth(),
{
    let q = query(sql.as_str());
    let ghost g = q;
    let r = q.execute(conn, run);
    proof {
        lemma_unbound_outcome(g, run, r);
    }
    r
}

} // verus!

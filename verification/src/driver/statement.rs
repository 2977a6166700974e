//! Prepared statements.
use vstd::prelude::*;

verus! {

/// The text of a statement that the runtime prepares and caches.
#[derive(Debug)]
pub struct Statement {
    sql: String,
}

impl Statement {
    /// The text of the statement.
    pub closed spec fn spec_sql(self) -> Seq<char> {
        self.sql@
    }

    /// A statement with the given text.
    pub fn new(sql: &str) -> (s: Self)
        ensures
            s.spec_sql() == sql@,
    {
        Statement { sql: sql.to_owned() }
    }

    /// The text of the statement.
    pub fn sql(&self) -> (sql: &str)
        ensures
            sql@ == self.spec_sql(),
    {
        self.sql.as_str()
    }

    /// A copy of the statement that owns its text.
    pub fn to_owned(&self) -> (s: Statement)
        ensures
            s.spec_sql() == self.spec_sql(),
    {
        Statement { sql: self.sql.clone() }
    }
}

} // verus!

//! The errors that the library reports.
use vstd::prelude::*;

use crate::bindings;

verus! {

/// Errors that can occur when a workflow talks to its database.
///
/// Each error carries plain data so that it can be recorded and passed back
/// out of a transaction.
#[derive(Debug)]
pub enum Error {
    /// Error occurred while parsing a connection string.
    Configuration(String),
    /// Error returned from the database.
    Database(bindings::DatabaseError),
    /// Unexpected or invalid data encountered while communicating with the
    /// database.
    Protocol(String),
    /// No rows returned by a query that expected to return at least one row.
    RowNotFound,
    /// Type in query doesn't exist. Likely due to typo or missing user type.
    TypeNotFound { name: String },
    /// Column index was out of bounds.
    ColumnIndexOutOfBounds { index: usize, len: usize },
    /// No column found for the given name.
    ColumnNotFound(String),
    /// Error occurred while decoding a value from a specific column.
    ColumnDecode { index: String, source: String },
    /// Error occurred while encoding a value.
    Encode(String),
    /// Error occurred while decoding a value.
    Decode(String),
    /// A different error occurred that could not be handled.
    Other(String),
}

/// The result type of the library.
pub type Result<T> = core::result::Result<T, Error>;

} // verus!

//! Make SQL queries as part of a durable workflow.
//!
//! The database connection of a workflow is held by the durable runtime. This
//! crate holds the guest side of that connection: the values that cross the
//! boundary, how arguments are bound, how fetched results are turned into rows
//! and errors, and how nested transactions are driven with savepoints.

pub mod bindings;
pub mod driver;
pub mod error;
pub mod map;
pub mod query;
pub mod query_as;
pub mod util;

pub use crate::driver::Connection;
pub use crate::error::{Error, Result};
pub use crate::map::QueryMap;
pub use crate::query::{query, query_with, Query, Request};
pub use crate::query_as::{query_as, query_as_with, QueryAs};

use vstd::prelude::*;

verus! {

} // verus!

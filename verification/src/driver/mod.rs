//! The database driver.
//!
//! These are the pieces of the connection between a workflow and the
//! database that the runtime holds for it.
pub mod arguments;
pub mod connection;
pub mod database;
pub mod error;
pub mod row;
pub mod statement;
pub mod transaction;
pub mod types;
pub mod value;
pub mod type_info;

pub use self::error::{DatabaseError, ErrorKind, UnsupportedError};
pub use self::type_info::TypeInfo;
pub use self::row::{Column, ColumnIndex, Row};
pub use self::value::Value;
pub use self::database::{Durable, Either, QueryResult};
pub use self::arguments::{Arguments, IsNull};
pub use self::connection::{ConnectOptions, Connection, Fetched, Item};
pub use self::statement::Statement;
pub use self::transaction::TransactionManager;

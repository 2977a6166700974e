//! Errors raised by the driver and their conversion from the runtime's
//! errors.
use vstd::prelude::*;

use crate::bindings as sql;
use crate::error::Error;

verus! {

/// An operation that the driver does not support.
#[derive(Clone, Copy, Debug, Default)]
pub struct UnsupportedError;

impl UnsupportedError {
    pub fn new() -> (e: Self)
        ensures
            e == UnsupportedError,
    {
        UnsupportedError
    }

    /// The message of this error.
    pub fn message(&self) -> (msg: String)
        ensures
            msg@ == "operation not supported"@,
    {
        String::from_str("operation not supported")
    }
}

/// The kinds of constraint violations that a database error may report.
#[derive(Clone, Copy, Debug, PartialEq, Eq, Structural)]
pub enum ErrorKind {
    UniqueViolation,
    ForeignKeyViolation,
    NotNullViolation,
    CheckViolation,
    Other,
}

/// The kind that the runtime's kind of database error stands for.
pub open spec fn spec_kind(kind: sql::DatabaseErrorKind) -> ErrorKind {
    match kind {
        sql::DatabaseErrorKind::UniqueViolation => ErrorKind::UniqueViolation,
        sql::DatabaseErrorKind::ForeignKeyViolation => ErrorKind::ForeignKeyViolation,
        sql::DatabaseErrorKind::NotNullViolation => ErrorKind::NotNullViolation,
        sql::DatabaseErrorKind::CheckViolation => ErrorKind::CheckViolation,
        sql::DatabaseErrorKind::Other => ErrorKind::Other,
    }
}

/// The runtime's kind of database error for a kind.
pub open spec fn spec_wire_kind(kind: ErrorKind) -> sql::DatabaseErrorKind {
    match kind {
        ErrorKind::UniqueViolation => sql::DatabaseErrorKind::UniqueViolation,
        ErrorKind::ForeignKeyViolation => sql::DatabaseErrorKind::ForeignKeyViolation,
        ErrorKind::NotNullViolation => sql::DatabaseErrorKind::NotNullViolation,
        ErrorKind::CheckViolation => sql::DatabaseErrorKind::CheckViolation,
        ErrorKind::Other => sql::DatabaseErrorKind::Other,
    }
}

/// The runtime's kind of database error for a kind.
pub fn wire_kind(kind: ErrorKind) -> (w: sql::DatabaseErrorKind)
    ensures
        w == spec_wire_kind(kind),
{
    match kind {
        ErrorKind::UniqueViolation => sql::DatabaseErrorKind::UniqueViolation,
        ErrorKind::ForeignKeyViolation => sql::DatabaseErrorKind::ForeignKeyViolation,
        ErrorKind::NotNullViolation => sql::DatabaseErrorKind::NotNullViolation,
        ErrorKind::CheckViolation => sql::DatabaseErrorKind::CheckViolation,
        ErrorKind::Other => sql::DatabaseErrorKind::Other,
    }
}

/// Turning a kind into the runtime's kind and back gives it back, and the
/// other way round.
pub proof fn lemma_kind_roundtrip(kind: ErrorKind, wire: sql::DatabaseErrorKind)
    ensures
        spec_kind(spec_wire_kind(kind)) == kind,
        spec_wire_kind(spec_kind(wire)) == wire,
{
}

/// Each kind of database error that the runtime reports stands for the kind
/// of the same name, and each kind goes to the runtime as the kind of the same
/// name.
pub proof fn lemma_kind_names_agree()
    ensures
        spec_kind(sql::DatabaseErrorKind::UniqueViolation) == ErrorKind::UniqueViolation,
        spec_kind(sql::DatabaseErrorKind::ForeignKeyViolation) == ErrorKind::ForeignKeyViolation,
        spec_kind(sql::DatabaseErrorKind::NotNullViolation) == ErrorKind::NotNullViolation,
        spec_kind(sql::DatabaseErrorKind::CheckViolation) == ErrorKind::CheckViolation,
        spec_kind(sql::DatabaseErrorKind::Other) == ErrorKind::Other,
        spec_wire_kind(ErrorKind::UniqueViolation) == sql::DatabaseErrorKind::UniqueViolation,
        spec_wire_kind(ErrorKind::ForeignKeyViolation)
            == sql::DatabaseErrorKind::ForeignKeyViolation,
        spec_wire_kind(ErrorKind::NotNullViolation) == sql::DatabaseErrorKind::NotNullViolation,
        spec_wire_kind(ErrorKind::CheckViolation) == sql::DatabaseErrorKind::CheckViolation,
        spec_wire_kind(ErrorKind::Other) == sql::DatabaseErrorKind::Other,
{
}

/// An error reported by the database.
#[derive(Debug)]
pub struct DatabaseError(pub sql::DatabaseError);

impl DatabaseError {
    /// The message of the error.
    pub fn message(&self) -> (msg: &str)
        ensures
            msg@ == self.0.message@,
    {
        self.0.message.as_str()
    }

    /// The kind of the error: the kind of the same name as the runtime's.
    pub fn kind(&self) -> (kind: ErrorKind)
        ensures
            kind == spec_kind(self.0.kind),
            self.0.kind == sql::DatabaseErrorKind::UniqueViolation <==> kind
                == ErrorKind::UniqueViolation,
            self.0.kind == sql::DatabaseErrorKind::ForeignKeyViolation <==> kind
                == ErrorKind::ForeignKeyViolation,
            self.0.kind == sql::DatabaseErrorKind::NotNullViolation <==> kind
                == ErrorKind::NotNullViolation,
            self.0.kind == sql::DatabaseErrorKind::CheckViolation <==> kind
                == ErrorKind::CheckViolation,
            self.0.kind == sql::DatabaseErrorKind::Other <==> kind == ErrorKind::Other,
    {
        match self.0.kind {
            sql::DatabaseErrorKind::UniqueViolation => ErrorKind::UniqueViolation,
            sql::DatabaseErrorKind::ForeignKeyViolation => ErrorKind::ForeignKeyViolation,
            sql::DatabaseErrorKind::NotNullViolation => ErrorKind::NotNullViolation,
            sql::DatabaseErrorKind::CheckViolation => ErrorKind::CheckViolation,
            _ => ErrorKind::Other,
        }
    }
}

/// The library error that a runtime error stands for.
pub open spec fn spec_convert_query_error(err: sql::Error) -> Error {
    match err {
        sql::Error::ColumnDecode(e) => Error::ColumnDecode { index: e.index, source: e.source },
        sql::Error::Encode(e) => Error::Encode(e),
        sql::Error::Decode(e) => Error::Decode(e),
        sql::Error::Database(e) => Error::Database(e),
        sql::Error::TypeNotFound(name) => Error::TypeNotFound { name },
        sql::Error::Other(e) => Error::Protocol(e),
    }
}

/// An error that the runtime reports reaches the caller as the library error
/// that carries the same payload: a database error as a database error (with
/// its message, kind, code, constraint and table), a decoding failure of a
/// column with its column and cause, encoding and decoding failures with their
/// messages, an unknown type with its name, and any other failure as a
/// protocol error with its message.
pub proof fn lemma_convert_keeps_payload(
    db: sql::DatabaseError,
    col: sql::ColumnDecodeError,
    name: String,
    msg: String,
)
    ensures
        spec_convert_query_error(sql::Error::Database(db)) == Error::Database(db),
        spec_convert_query_error(sql::Error::ColumnDecode(col)) == (Error::ColumnDecode {
            index: col.index,
            source: col.source,
        }),
        spec_convert_query_error(sql::Error::Encode(msg)) == Error::Encode(msg),
        spec_convert_query_error(sql::Error::Decode(msg)) == Error::Decode(msg),
        spec_convert_query_error(sql::Error::TypeNotFound(name)) == (Error::TypeNotFound {
            name,
        }),
        spec_convert_query_error(sql::Error::Other(msg)) == Error::Protocol(msg),
{
}

/// Convert an error reported by the runtime into a library error.
pub fn convert_query_error(err: sql::Error) -> (e: Error)
    ensures
        e == spec_convert_query_error(err),
{
    match err {
        sql::Error::ColumnDecode(e) => Error::ColumnDecode { index: e.index, source: e.source },
        sql::Error::Encode(e) => Error::Encode(e),
        sql::Error::Decode(e) => Error::Decode(e),
        sql::Error::Database(e) => Error::Database(e),
        sql::Error::TypeNotFound(name) => Error::TypeNotFound { name },
        sql::Error::Other(e) => Error::Protocol(e),
    }
}

} // verus!

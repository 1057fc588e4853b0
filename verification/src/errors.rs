//! Error type shared by the library and the application around it.

use rusqlite::Error as SqliteError;
use vstd::prelude::*;

verus! {

/// The SQLite driver's error, carried through unchanged.
#[verifier::external_type_specification]
#[verifier::external_body]
pub struct ExSqliteError(SqliteError);

/// An operating-system I/O error, carried through unchanged.
#[verifier::external_type_specification]
#[verifier::external_body]
pub struct ExIoError(std::io::Error);

/// Everything that can go wrong in Belfry's data layer.
#[derive(Debug)]
pub enum Error {
    /// The SQLite engine refused a statement or a connection.
    Sqlite(SqliteError),
    /// A filesystem operation failed.
    Io(std::io::Error),
    /// The writer task's channel is gone.
    WorkerChannelClosed,
    /// Neither `XDG_DATA_HOME` nor `HOME` was available.
    NoLibraryPath,
    /// A stored sentinel string or number named no known variant.
    InvalidEnum { field: &'static str, value: String },
}

} // verus!

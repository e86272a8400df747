//! Database drivers: what a worker needs of the engine under test.

pub mod sqlite_in_mem;

use crate::drivers::sqlite_in_mem::{is_sqlite_failure, SqliteDriver};
use crate::generators::sqlite::schema::TableWithColumns;
use vstd::prelude::*;

verus! {

/// The engines that can be put under test.
#[allow(non_camel_case_types)]
#[derive(Debug, Clone, Copy, PartialEq, Eq, Structural)]
pub enum DRIVER_KIND {
    /// SQLite with an in-memory database.
    SQLITE_IN_MEM,
    /// Limbo with an in-memory database.
    LIMBO_IN_MEM,
}

/// Why a driver could not do what it was asked.
#[derive(Debug, Clone, Copy, PartialEq, Eq, Structural)]
pub enum DriverError {
    /// The engine refused a statement because of a constraint.
    ConstraintViolation,
    /// The engine failed in any other way.
    Other,
    /// No driver of the requested kind can be made here.
    Unsupported,
    /// A fresh database did not pass its self-test.
    VerifyFailed,
}

/// A connection to a database engine, owned by one worker.
pub trait DatabaseDriver {
    /// The connection object of the engine.
    type Connection;

    /// Runs a statement and reports the number of rows that it changed.
    fn exec(&self, sql: &str) -> Result<usize, DriverError>;

    /// Runs a query and reports the number of rows that it returned.
    fn query(&self, sql: &str) -> Result<usize, DriverError>;

    /// The connection underneath.
    fn get_connection(&self) -> &Self::Connection;

    /// The tables of the database with their columns, read from its catalog
    /// at the time of the call; nothing where the catalog cannot be read.
    fn tables(&self) -> Option<Vec<TableWithColumns>>;
}

/// A driver of the given kind on a fresh database. Only SQLite can be made:
/// for Limbo the result is always `Unsupported`, and no other kind gives
/// that error. Whether a database can be had for SQLite is for SQLite to
/// say, and a failure is one of SQLite.
pub fn new_conn(kind: DRIVER_KIND) -> (driver: Result<SqliteDriver, DriverError>)
    ensures
        kind == DRIVER_KIND::LIMBO_IN_MEM ==> driver matches Err(DriverError::Unsupported),
        kind == DRIVER_KIND::SQLITE_IN_MEM ==> (driver matches Err(failure) ==> is_sqlite_failure(
            failure,
        )),
{
    match kind {
        DRIVER_KIND::SQLITE_IN_MEM => SqliteDriver::new(),
        DRIVER_KIND::LIMBO_IN_MEM => Err(DriverError::Unsupported),
    }
}

} // verus!

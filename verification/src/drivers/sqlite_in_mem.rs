//! The driver for SQLite with an in-memory database.
//!
//! What SQLite answers depends on the database, so nothing is claimed of an
//! answer beyond its shape. The functions that ask say what holds whatever
//! the answer is; what is asked, and what is made of each answer, is said by
//! functions that take the answer as an argument: `reported`, `row_count`,
//! `unless_failed`, `advance`, `catalog_of`, `SqliteDriver::over` and
//! `SqliteDriver::admitted`.

use crate::drivers::{DatabaseDriver, DriverError};
use crate::generators::common::insert_stmt_common::column_views;
use crate::generators::sqlite::schema::{clone_columns, TableWithColumns};
use crate::text::str_eq;
use vstd::prelude::*;
use vstd::string::*;

verus! {

/// `rusqlite::Connection`, a handle to one database. Nothing is known of
/// what is inside.
#[verifier::external_type_specification]
#[verifier::external_body]
pub struct ExConnection(rusqlite::Connection);

/// `rusqlite::Error`, what a call into SQLite fails with. Nothing is known
/// of what is inside.
#[verifier::external_type_specification]
#[verifier::external_body]
pub struct ExSqliteError(rusqlite::Error);

/// The query that lists the tables of a database, those of SQLite itself
/// left out.
pub open spec fn catalog_sql() -> Seq<char> {
    "SELECT name FROM sqlite_master WHERE type='table' AND name NOT LIKE 'sqlite_%';"@
}

/// The query that lists the columns of the table `name`.
pub open spec fn table_info_sql(name: Seq<char>) -> Seq<char> {
    "PRAGMA table_info('"@ + name + "')"@
}

/// The query that lists the tables of a database.
pub fn catalog_query() -> (sql: &'static str)
    ensures
        sql@ == catalog_sql(),
{
    "SELECT name FROM sqlite_master WHERE type='table' AND name NOT LIKE 'sqlite_%';"
}

/// The query that lists the columns of the table `name`.
pub fn table_info_query(name: &str) -> (sql: String)
    ensures
        sql@ == table_info_sql(name@),
{
    let mut sql = String::from_str("PRAGMA table_info('");
    sql.append(name);
    sql.append("')");
    sql
}

/// Whether the self-test found the row that it had written: one row, named
/// `test`.
pub fn row_as_written(count: i32, name: &str) -> (same: bool)
    ensures
        same == (count == 1 && name@ == "test"@),
{
    count == 1 && str_eq(name, "test")
}

/// The tables that the catalog lists under `names` with, for each, the
/// columns in `columns` at the same position.
pub fn tables_of(names: &Vec<String>, columns: &Vec<Vec<(String, String)>>) -> (tables: Vec<
    TableWithColumns,
>)
    requires
        names.len() == columns.len(),
    ensures
        tables.len() == names.len(),
        forall|k: int|
            0 <= k < tables.len() ==> (#[trigger] tables[k]).name@ == names[k]@ && column_views(
                tables[k].columns@,
            ) == column_views(columns[k]@),
{
    let mut tables: Vec<TableWithColumns> = Vec::new();
    let mut k: usize = 0;
    while k < names.len()
        invariant
            k <= names.len() == columns.len(),
            tables.len() == k,
            forall|m: int|
                0 <= m < k ==> (#[trigger] tables[m]).name@ == names[m]@ && column_views(
                    tables[m].columns@,
                ) == column_views(columns[m]@),
        decreases names.len() - k,
    {
        tables.push(TableWithColumns::new(names[k].clone(), clone_columns(&columns[k])));
        k += 1;
    }
    tables
}

/// Calls `rusqlite::Connection::open_in_memory`, which opens a connection
/// to a new in-memory database. Nothing is claimed of the answer.
#[verifier::external_body]
fn open_in_memory() -> Result<rusqlite::Connection, rusqlite::Error> {
    rusqlite::Connection::open_in_memory()
}

/// Calls `rusqlite::Connection::execute` without parameters, which runs
/// one statement and reports the number of rows that it changed. Nothing is
/// claimed of the answer: it depends on the database.
#[verifier::external_body]
fn execute(conn: &rusqlite::Connection, sql: &str) -> Result<usize, rusqlite::Error> {
    conn.execute(sql, ())
}

/// Calls `rusqlite::Connection::execute_batch`, which runs the statements
/// of `sql` one after the other for as long as text is left. The claim is
/// that an empty text succeeds: no statement is then handed to SQLite. Of
/// any other text nothing is claimed.
#[verifier::external_body]
fn execute_batch(conn: &rusqlite::Connection, sql: &str) -> (done: Result<(), rusqlite::Error>)
    ensures
        sql@.len() == 0 ==> done is Ok,
{
    conn.execute_batch(sql)
}

/// Calls `rusqlite::Connection::prepare` and `rusqlite::Statement::query_map`
/// and collects one unit for each row that the query returned. Nothing is
/// claimed of the answer.
#[verifier::external_body]
fn query_rows(conn: &rusqlite::Connection, sql: &str) -> Result<Vec<()>, rusqlite::Error> {
    let mut stmt = conn.prepare(sql)?;
    let rows = stmt.query_map([], |_row| Ok(()))?;
    rows.collect()
}

/// Calls `rusqlite::Connection::prepare` and `rusqlite::Statement::query_map`
/// with `rusqlite::Row::get`, and collects the text in column `column` of
/// each row that the query returned. Nothing is claimed of the answer.
#[verifier::external_body]
fn query_text(conn: &rusqlite::Connection, sql: &str, column: usize) -> Result<
    Vec<String>,
    rusqlite::Error,
> {
    let mut stmt = conn.prepare(sql)?;
    let rows = stmt.query_map([], |row| row.get::<_, String>(column))?;
    rows.collect()
}

/// Calls `rusqlite::Connection::prepare` and `rusqlite::Statement::query_map`
/// with `rusqlite::Row::get`, and collects the texts in the columns `first`
/// and `second` of each row that the query returned. Nothing is claimed of
/// the answer.
#[verifier::external_body]
fn query_text_pairs(conn: &rusqlite::Connection, sql: &str, first: usize, second: usize) -> Result<
    Vec<(String, String)>,
    rusqlite::Error,
> {
    let mut stmt = conn.prepare(sql)?;
    let rows = stmt.query_map([], |row| Ok((row.get(first)?, row.get(second)?)))?;
    rows.collect()
}

/// Calls `rusqlite::Connection::query_row` with `rusqlite::Row::get` for
/// the integer in the first column of the one row that the query returned.
/// Nothing is claimed of the answer.
#[verifier::external_body]
fn query_count(conn: &rusqlite::Connection, sql: &str) -> Result<i32, rusqlite::Error> {
    conn.query_row(sql, [], |row| row.get(0))
}

/// Calls `rusqlite::Connection::query_row` with `rusqlite::Row::get` for
/// the integer in the first column and the text in the second of the one
/// row that the query returned. Nothing is claimed of the answer.
#[verifier::external_body]
fn query_count_and_text(conn: &rusqlite::Connection, sql: &str) -> Result<
    (i32, String),
    rusqlite::Error,
> {
    conn.query_row(sql, [], |row| Ok((row.get(0)?, row.get(1)?)))
}

/// Calls `rusqlite::Error::sqlite_error_code` and tells a failure that
/// SQLite reports as a constraint violation from every other error. The
/// claim is that the result is one of these two: never `Unsupported`, never
/// `VerifyFailed`.
#[verifier::external_body]
fn failure_of(error: &rusqlite::Error) -> (failure: DriverError)
    ensures
        failure == DriverError::ConstraintViolation || failure == DriverError::Other,
{
    match error.sqlite_error_code() {
        Some(rusqlite::ErrorCode::ConstraintViolation) => DriverError::ConstraintViolation,
        _ => DriverError::Other,
    }
}

/// Whether `failure` is one of the two classes that a failure of SQLite is
/// sorted into.
pub open spec fn is_sqlite_failure(failure: DriverError) -> bool {
    failure == DriverError::ConstraintViolation || failure == DriverError::Other
}

/// What the driver reports for an answer of SQLite: the value where there
/// is one, else the class of the failure.
pub fn reported<T>(answer: Result<T, rusqlite::Error>) -> (report: Result<T, DriverError>)
    ensures
        answer matches Ok(value) ==> report == Ok::<T, DriverError>(value),
        answer is Err ==> (report matches Err(failure) && is_sqlite_failure(failure)),
{
    match answer {
        Ok(value) => Ok(value),
        Err(error) => Err(failure_of(&error)),
    }
}

/// `value`, unless the step before it failed: then the failure of that step.
pub fn unless_failed<T, U>(value: T, step: Result<U, DriverError>) -> (kept: Result<T, DriverError>)
    ensures
        step is Ok ==> kept == Ok::<T, DriverError>(value),
        step matches Err(failure) ==> kept == Err::<T, DriverError>(failure),
{
    match step {
        Ok(_) => Ok(value),
        Err(failure) => Err(failure),
    }
}

/// The number of rows that a query returned, or its failure.
pub fn row_count(rows: Result<Vec<()>, DriverError>) -> (count: Result<usize, DriverError>)
    ensures
        rows matches Ok(rows) ==> count == Ok::<usize, DriverError>(rows.len()),
        rows matches Err(failure) ==> count == Err::<usize, DriverError>(failure),
{
    match rows {
        Ok(rows) => Ok(rows.len()),
        Err(failure) => Err(failure),
    }
}

/// The statement that switches on the enforcement of foreign keys.
pub fn foreign_keys_pragma() -> (sql: &'static str)
    ensures
        sql@ == "PRAGMA foreign_keys = ON;"@,
{
    "PRAGMA foreign_keys = ON;"
}

/// The self-test of a fresh database, by the question that is asked next.
/// The test is run on the `warehouse` table.
#[derive(Debug, Clone, Copy)]
pub enum SelfTest {
    /// Count the rows before anything is written.
    CountBefore,
    /// Write one row.
    Insert,
    /// Read the row back, with the number of rows.
    ReadBack,
    /// Delete the row; the flag says whether it had read back as written.
    Delete(bool),
    /// Count the rows once more.
    CountAfter,
    /// The test is over with this verdict.
    Over(Result<bool, DriverError>),
}

/// What the database answered to one question of the self-test.
pub enum SelfTestAnswer {
    /// A number of rows.
    Count(Result<i32, DriverError>),
    /// A statement was run and changed this many rows.
    Changed(Result<usize, DriverError>),
    /// A number of rows and the name in the row that was read.
    Row(Result<(i32, String), DriverError>),
}

/// The number of questions that the self-test may still ask.
pub open spec fn questions_left(stage: SelfTest) -> nat {
    match stage {
        SelfTest::CountBefore => 5,
        SelfTest::Insert => 4,
        SelfTest::ReadBack => 3,
        SelfTest::Delete(_) => 2,
        SelfTest::CountAfter => 1,
        SelfTest::Over(_) => 0,
    }
}

/// Where the self-test stands after `answer` to the question of `stage`.
///
/// A failure ends the test with that failure. The table must be empty at
/// the start, else the verdict is `false`. The row that was written must
/// read back as the only row, named `test`; it is deleted in any case, and
/// the verdict is `false` where it had not read back so. At the end the
/// verdict says whether the table is empty again. An answer that does not
/// fit the question ends the test with a failure.
pub open spec fn after_answer(stage: SelfTest, answer: SelfTestAnswer) -> SelfTest {
    match (stage, answer) {
        (SelfTest::Over(verdict), _) => SelfTest::Over(verdict),
        (SelfTest::CountBefore, SelfTestAnswer::Count(Ok(count))) => if count == 0 {
            SelfTest::Insert
        } else {
            SelfTest::Over(Ok(false))
        },
        (SelfTest::Insert, SelfTestAnswer::Changed(Ok(_))) => SelfTest::ReadBack,
        (SelfTest::ReadBack, SelfTestAnswer::Row(Ok(row))) => SelfTest::Delete(
            row.0 == 1 && row.1@ == "test"@,
        ),
        (SelfTest::Delete(as_written), SelfTestAnswer::Changed(Ok(_))) => if as_written {
            SelfTest::CountAfter
        } else {
            SelfTest::Over(Ok(false))
        },
        (SelfTest::CountAfter, SelfTestAnswer::Count(Ok(count))) => SelfTest::Over(Ok(count == 0)),
        (_, SelfTestAnswer::Count(Err(failure))) => SelfTest::Over(Err(failure)),
        (_, SelfTestAnswer::Changed(Err(failure))) => SelfTest::Over(Err(failure)),
        (_, SelfTestAnswer::Row(Err(failure))) => SelfTest::Over(Err(failure)),
        _ => SelfTest::Over(Err(DriverError::Other)),
    }
}

/// Where the self-test stands after `answer` to the question of `stage`.
pub fn advance(stage: SelfTest, answer: SelfTestAnswer) -> (next: SelfTest)
    ensures
        next == after_answer(stage, answer),
        !(stage is Over) ==> questions_left(next) < questions_left(stage),
{
    match (stage, answer) {
        (SelfTest::Over(verdict), _) => SelfTest::Over(verdict),
        (SelfTest::CountBefore, SelfTestAnswer::Count(Ok(count))) => if count == 0 {
            SelfTest::Insert
        } else {
            SelfTest::Over(Ok(false))
        },
        (SelfTest::Insert, SelfTestAnswer::Changed(Ok(_))) => SelfTest::ReadBack,
        (SelfTest::ReadBack, SelfTestAnswer::Row(Ok(row))) => SelfTest::Delete(
            row_as_written(row.0, row.1.as_str()),
        ),
        (SelfTest::Delete(as_written), SelfTestAnswer::Changed(Ok(_))) => if as_written {
            SelfTest::CountAfter
        } else {
            SelfTest::Over(Ok(false))
        },
        (SelfTest::CountAfter, SelfTestAnswer::Count(Ok(count))) => SelfTest::Over(Ok(count == 0)),
        (_, SelfTestAnswer::Count(Err(failure))) => SelfTest::Over(Err(failure)),
        (_, SelfTestAnswer::Changed(Err(failure))) => SelfTest::Over(Err(failure)),
        (_, SelfTestAnswer::Row(Err(failure))) => SelfTest::Over(Err(failure)),
        _ => SelfTest::Over(Err(DriverError::Other)),
    }
}

/// Whether a failure in `answer`, if there is one, is a failure of SQLite.
pub open spec fn answered_by_sqlite(answer: SelfTestAnswer) -> bool {
    match answer {
        SelfTestAnswer::Count(Err(failure)) => is_sqlite_failure(failure),
        SelfTestAnswer::Changed(Err(failure)) => is_sqlite_failure(failure),
        SelfTestAnswer::Row(Err(failure)) => is_sqlite_failure(failure),
        _ => true,
    }
}

/// Whether a failure in the verdict of `stage`, if there is one, is a
/// failure of SQLite.
pub open spec fn failed_in_sqlite(stage: SelfTest) -> bool {
    match stage {
        SelfTest::Over(Err(failure)) => is_sqlite_failure(failure),
        _ => true,
    }
}

/// A connection to an in-memory SQLite database.
pub struct SqliteDriver {
    conn: rusqlite::Connection,
}

impl SqliteDriver {
    /// The connection underneath.
    pub closed spec fn connection(&self) -> rusqlite::Connection {
        self.conn
    }

    /// The driver on the connection that was opened, or the failure to open
    /// one.
    pub fn over(opened: Result<rusqlite::Connection, DriverError>) -> (driver: Result<
        Self,
        DriverError,
    >)
        ensures
            opened matches Ok(conn) ==> (driver matches Ok(driver) && driver.connection() == conn),
            opened matches Err(failure) ==> (driver matches Err(same) && same == failure),
    {
        match opened {
            Ok(conn) => Ok(SqliteDriver { conn }),
            Err(failure) => Err(failure),
        }
    }

    /// The driver, if its database has passed the self-test: `VerifyFailed`
    /// where the verdict is `false`, and the failure where the test could not
    /// be finished.
    pub fn admitted(self, passed: Result<bool, DriverError>) -> (driver: Result<Self, DriverError>)
        ensures
            passed matches Ok(true) ==> (driver matches Ok(driver) && driver == self),
            passed matches Ok(false) ==> driver matches Err(DriverError::VerifyFailed),
            passed matches Err(failure) ==> (driver matches Err(same) && same == failure),
    {
        match passed {
            Ok(true) => Ok(self),
            Ok(false) => Err(DriverError::VerifyFailed),
            Err(failure) => Err(failure),
        }
    }

    /// Opens a new in-memory database and switches on the enforcement of
    /// foreign keys. Whether that succeeds is for SQLite to say; a failure is
    /// one of SQLite.
    pub fn connect() -> (conn: Result<rusqlite::Connection, DriverError>)
        ensures
            conn matches Err(failure) ==> is_sqlite_failure(failure),
    {
        match reported(open_in_memory()) {
            Ok(conn) => {
                let switched = reported(execute(&conn, foreign_keys_pragma()));
                unless_failed(conn, switched)
            },
            Err(failure) => Err(failure),
        }
    }

    /// A driver on a new in-memory database with foreign keys enforced.
    /// Whether one can be had is for SQLite to say; a failure is one of
    /// SQLite.
    pub fn new() -> (driver: Result<Self, DriverError>)
        ensures
            driver matches Err(failure) ==> is_sqlite_failure(failure),
    {
        SqliteDriver::over(SqliteDriver::connect())
    }

    /// Runs the statements of `sql_content`, which set up the schema. An
    /// empty text sets up nothing and succeeds; of any other text SQLite
    /// decides, and a failure is one of SQLite.
    pub fn init(&self, sql_content: &str) -> (done: Result<(), DriverError>)
        ensures
            sql_content@.len() == 0 ==> done is Ok,
            done matches Err(failure) ==> is_sqlite_failure(failure),
    {
        reported(execute_batch(&self.conn, sql_content))
    }

    /// A driver on a new in-memory database that was set up with the
    /// statements of `sql_content`. Whether that succeeds is for SQLite to
    /// say; a failure is one of SQLite.
    pub fn with_schema(sql_content: &str) -> (driver: Result<Self, DriverError>)
        ensures
            driver matches Err(failure) ==> is_sqlite_failure(failure),
    {
        match SqliteDriver::new() {
            Ok(driver) => {
                let done = driver.init(sql_content);
                unless_failed(driver, done)
            },
            Err(failure) => Err(failure),
        }
    }

    /// Asks the database the question of `stage`.
    fn ask(&self, stage: SelfTest) -> (answer: SelfTestAnswer)
        requires
            !(stage is Over),
        ensures
            answered_by_sqlite(answer),
    {
        match stage {
            SelfTest::CountBefore => SelfTestAnswer::Count(
                reported(query_count(&self.conn, "SELECT count(*) FROM warehouse")),
            ),
            SelfTest::Insert => SelfTestAnswer::Changed(
                reported(
                    execute(
                        &self.conn,
                        "INSERT INTO warehouse (w_id, w_name, w_ytd, w_tax, w_street_1, w_street_2, w_city, w_state, w_zip) VALUES (1, 'test', 0, 0, 'a', 'b', 'c', 'd', 'e')",
                    ),
                ),
            ),
            SelfTest::ReadBack => SelfTestAnswer::Row(
                reported(
                    query_count_and_text(&self.conn, "SELECT count(*), w_name FROM warehouse"),
                ),
            ),
            SelfTest::Delete(_) => SelfTestAnswer::Changed(
                reported(execute(&self.conn, "DELETE FROM warehouse WHERE w_id=1")),
            ),
            SelfTest::CountAfter => SelfTestAnswer::Count(
                reported(query_count(&self.conn, "SELECT count(*) FROM warehouse")),
            ),
            SelfTest::Over(_) => vstd::pervasive::unreached(),
        }
    }

    /// Tests the database on its `warehouse` table: the table is empty, takes
    /// one row, gives it back as written, and is empty again once the row is
    /// deleted. The questions are asked in the order of `SelfTest`, and
    /// `after_answer` says what each answer leads to; the answers are for
    /// SQLite to give, and a failure is one of SQLite.
    pub fn verify(&self) -> (passed: Result<bool, DriverError>)
        ensures
            passed matches Err(failure) ==> is_sqlite_failure(failure),
    {
        let mut stage = SelfTest::CountBefore;
        loop
            invariant
                failed_in_sqlite(stage),
            decreases questions_left(stage),
        {
            match stage {
                SelfTest::Over(verdict) => {
                    return verdict;
                },
                _ => {},
            }
            let answer = self.ask(stage);
            stage = advance(stage, answer);
        }
    }

    /// A driver on a fresh database that was set up with `sql_content` and
    /// has passed the self-test; `VerifyFailed` where the verdict of the test
    /// is `false`. What the database answers is for SQLite to say.
    pub fn prepare(sql_content: &str) -> (driver: Result<Self, DriverError>)
        ensures
            driver matches Err(failure) ==> is_sqlite_failure(failure) || failure
                == DriverError::VerifyFailed,
    {
        match SqliteDriver::new() {
            Ok(driver) => {
                let passed = match driver.init(sql_content) {
                    Ok(()) => driver.verify(),
                    Err(failure) => Err(failure),
                };
                driver.admitted(passed)
            },
            Err(failure) => Err(failure),
        }
    }

    /// The columns of each of the tables `names`, or nothing where the
    /// columns of one of them cannot be read.
    fn columns_of(&self, names: &Vec<String>) -> (columns: Option<Vec<Vec<(String, String)>>>)
        ensures
            columns matches Some(columns) ==> columns.len() == names.len(),
    {
        let mut columns: Vec<Vec<(String, String)>> = Vec::new();
        let mut k: usize = 0;
        while k < names.len()
            invariant
                k <= names.len(),
                columns.len() == k,
            decreases names.len() - k,
        {
            let sql = table_info_query(names[k].as_str());
            match reported(query_text_pairs(&self.conn, sql.as_str(), 1, 2)) {
                Ok(found) => {
                    columns.push(found);
                },
                Err(_) => {
                    return None;
                },
            }
            k += 1;
        }
        Some(columns)
    }
}

/// Whether `tables` are the tables `names` with, for each, the columns in
/// `columns` at the same position.
pub open spec fn pairs_up(
    tables: Seq<TableWithColumns>,
    names: Seq<String>,
    columns: Seq<Vec<(String, String)>>,
) -> bool {
    &&& tables.len() == names.len()
    &&& names.len() == columns.len()
    &&& forall|k: int|
        0 <= k < tables.len() ==> (#[trigger] tables[k]).name@ == names[k]@ && column_views(
            tables[k].columns@,
        ) == column_views(columns[k]@)
}

/// The schema that the answers of the catalog make up: the tables `names`
/// in the order of the catalog, each with the columns that were read for
/// it. There is no schema where the names could not be read, where the
/// columns of a table could not be read, or where there are not columns for
/// every name.
pub fn catalog_of(
    names: &Result<Vec<String>, DriverError>,
    columns: &Option<Vec<Vec<(String, String)>>>,
) -> (tables: Option<Vec<TableWithColumns>>)
    ensures
        match (names, columns) {
            (Ok(names), Some(columns)) => if names.len() == columns.len() {
                tables matches Some(tables) && pairs_up(tables@, names@, columns@)
            } else {
                tables is None
            },
            _ => tables is None,
        },
{
    match names {
        Ok(names) => match columns {
            Some(columns) => if names.len() == columns.len() {
                Some(tables_of(names, columns))
            } else {
                None
            },
            None => None,
        },
        Err(_) => None,
    }
}

impl DatabaseDriver for SqliteDriver {
    type Connection = rusqlite::Connection;

    fn exec(&self, sql: &str) -> (changed: Result<usize, DriverError>)
        ensures
            changed matches Err(failure) ==> is_sqlite_failure(failure),
    {
        reported(execute(&self.conn, sql))
    }

    fn query(&self, sql: &str) -> (count: Result<usize, DriverError>)
        ensures
            count matches Err(failure) ==> is_sqlite_failure(failure),
    {
        row_count(reported(query_rows(&self.conn, sql)))
    }

    fn get_connection(&self) -> (conn: &rusqlite::Connection)
        ensures
            *conn == self.connection(),
    {
        &self.conn
    }

    fn tables(&self) -> (tables: Option<Vec<TableWithColumns>>) {
        let names = reported(query_text(&self.conn, catalog_query(), 0));
        let columns = match &names {
            Ok(names) => self.columns_of(names),
            Err(_) => None,
        };
        catalog_of(&names, &columns)
    }
}

} // verus!

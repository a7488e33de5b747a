//! The storage-engine interface: plain cell values, the error taxonomy
//! of the mapping layer, and the trusted boundary to the SQLite driver.
//! Everything behind the boundary is reached through the three wrappers
//! at the end of this file; the rest of the crate only ever sees rows of
//! `SqlValue` cells and `DbError` results.

use rusqlite::types::ValueRef as CellRef;
use rusqlite::Error::InvalidQuery;
use vstd::prelude::*;

verus! {

/// Why a repository operation failed: the storage handle could not be
/// opened, the engine refused a statement, a fetched row did not fit the
/// entity it was asked to fill, or a required row was absent.
#[derive(Debug, Clone, Copy, PartialEq, Eq, Structural)]
pub enum DbError {
    ConnectionError,
    SqlExecutionError,
    HydrationError,
    NotFound,
}

/// One storage-engine cell, as a plain value. The schema of this crate
/// only ever stores integers and text; anything else a statement could
/// produce is reported as a hydration failure by the query wrapper.
#[derive(Debug)]
pub enum SqlValue {
    Null,
    Integer(i64),
    Text(String),
}

/// Mathematical image of a `SqlValue`.
pub ghost enum SqlValueV {
    Null,
    Integer(i64),
    Text(Seq<char>),
}

impl View for SqlValue {
    type V = SqlValueV;

    open spec fn view(&self) -> SqlValueV {
        match self {
            SqlValue::Null => SqlValueV::Null,
            SqlValue::Integer(n) => SqlValueV::Integer(*n),
            SqlValue::Text(s) => SqlValueV::Text(s@),
        }
    }
}

/// The image of a whole row of cells.
pub open spec fn row_view(row: Seq<SqlValue>) -> Seq<SqlValueV> {
    row.map_values(|v: SqlValue| v@)
}

/// The images of a sequence of fetched rows.
pub open spec fn rows_views(rows: Seq<Vec<SqlValue>>) -> Seq<Seq<SqlValueV>> {
    rows.map_values(|row: Vec<SqlValue>| row_view(row@))
}

impl Clone for SqlValue {
    fn clone(&self) -> (res: Self)
        ensures
            res@ == self@,
    {
        match self {
            SqlValue::Null => SqlValue::Null,
            SqlValue::Integer(n) => SqlValue::Integer(*n),
            SqlValue::Text(s) => SqlValue::Text(s.clone()),
        }
    }
}

impl PartialEq for SqlValue {
    fn eq(&self, other: &SqlValue) -> (r: bool) {
        match (self, other) {
            (SqlValue::Null, SqlValue::Null) => true,
            (SqlValue::Integer(a), SqlValue::Integer(b)) => *a == *b,
            (SqlValue::Text(a), SqlValue::Text(b)) => *a == *b,
            _ => false,
        }
    }
}

impl vstd::std_specs::cmp::PartialEqSpecImpl for SqlValue {
    open spec fn obeys_eq_spec() -> bool {
        true
    }

    open spec fn eq_spec(&self, other: &SqlValue) -> bool {
        self@ == other@
    }
}

impl DbError {
    /// The fixed description of this error.
    pub open spec fn spec_message(self) -> Seq<char> {
        match self {
            DbError::ConnectionError => "could not open the database connection"@,
            DbError::SqlExecutionError => "the storage engine refused the statement"@,
            DbError::HydrationError => "a fetched row did not match the entity shape"@,
            DbError::NotFound => "no matching row was found"@,
        }
    }

    /// Renders the error as text, for callers that report rather than
    /// match.
    pub fn message(&self) -> (s: String)
        ensures
            s@ == self.spec_message(),
    {
        match self {
            DbError::ConnectionError => "could not open the database connection".to_owned(),
            DbError::SqlExecutionError => "the storage engine refused the statement".to_owned(),
            DbError::HydrationError => "a fetched row did not match the entity shape".to_owned(),
            DbError::NotFound => "no matching row was found".to_owned(),
        }
    }
}

/// Declares rusqlite's `Connection` so that it can stand in signatures
/// and fields; a value of it is opaque here and only ever handed to the
/// wrappers below.
#[verifier::external_type_specification]
#[verifier::external_body]
pub struct ExConnection(rusqlite::Connection);

/// Relies on rusqlite's `Connection::open_in_memory`: opens a fresh
/// in-memory database. Any driver failure comes back as
/// `ConnectionError`.
#[verifier::external_body]
pub(crate) fn open_in_memory() -> (r: Result<rusqlite::Connection, DbError>)
    ensures
        r is Err ==> (r == Err::<rusqlite::Connection, DbError>(DbError::ConnectionError)),
{
    match rusqlite::Connection::open_in_memory() {
        Ok(c) => Ok(c),
        Err(_) => Err(DbError::ConnectionError),
    }
}

/// Relies on rusqlite's `Connection::execute`, with `params_from_iter`
/// binding the cells positionally (`?1` takes the first cell): runs one
/// SQL statement and hands back the engine's changed-row count. Any
/// driver failure comes back as `SqlExecutionError`.
#[verifier::external_body]
pub(crate) fn exec_sql(conn: &rusqlite::Connection, sql: &str, params: &Vec<SqlValue>) -> (r:
    Result<usize, DbError>)
    ensures
        r is Err ==> (r == Err::<usize, DbError>(DbError::SqlExecutionError)),
{
    let bound: Vec<rusqlite::types::Value> = params
        .iter()
        .map(|p| match p {
            SqlValue::Null => rusqlite::types::Value::Null,
            SqlValue::Integer(n) => rusqlite::types::Value::Integer(*n),
            SqlValue::Text(t) => rusqlite::types::Value::Text(t.clone()),
        })
        .collect();
    match conn.execute(sql, rusqlite::params_from_iter(bound)) {
        Ok(n) => Ok(n),
        Err(_) => Err(DbError::SqlExecutionError),
    }
}

/// Relies on rusqlite's `Connection::prepare`, `Statement::query_map` and
/// `Row::get_ref`: runs the statement and hands back every result row as
/// plain cells, in the engine's result order. A failure to prepare or run
/// comes back as `SqlExecutionError`; a cell that is neither null, an
/// integer nor text comes back as `HydrationError`.
#[verifier::external_body]
pub(crate) fn query_sql(conn: &rusqlite::Connection, sql: &str) -> (r: Result<
    Vec<Vec<SqlValue>>,
    DbError,
>)
    ensures
        r is Err ==> (r == Err::<Vec<Vec<SqlValue>>, DbError>(DbError::SqlExecutionError) || r
            == Err::<Vec<Vec<SqlValue>>, DbError>(DbError::HydrationError)),
{
    let run = || -> rusqlite::Result<Vec<Vec<SqlValue>>> {
        let mut stmt = conn.prepare(sql)?;
        let width = stmt.column_count();
        let rows = stmt.query_map([], |row| (0..width).map(|i| match row.get_ref(i)? {
            CellRef::Null => Ok(SqlValue::Null),
            CellRef::Integer(n) => Ok(SqlValue::Integer(n)),
            CellRef::Text(t) => Ok(SqlValue::Text(String::from_utf8_lossy(t).into_owned())),
            CellRef::Real(_) | CellRef::Blob(_) => Err(InvalidQuery),
        }).collect())?;
        rows.collect()
    };
    run().map_err(|e| if matches!(e, InvalidQuery) { DbError::HydrationError } else { DbError::SqlExecutionError })
}

} // verus!

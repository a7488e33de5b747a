//! The schema manager: fixed DDL per entity, an idempotent
//! table-by-table bootstrap, and the catalog check it rests on. The
//! creation order is Meter, then Metric, then MetricValue, because each
//! later table's foreign key references the one before it.

use vstd::prelude::*;
use vstd::string::*;

use crate::engine::{exec_sql, query_sql, rows_views, DbError, SqlValue, SqlValueV};
use crate::ops::unit_outcome;
use crate::structs::{Meter, Metric, MetricValue, TableName};

verus! {

/// Fixed DDL for an entity's table, and its execution against the
/// engine.
pub trait CreateTable: TableName {
    /// The CREATE TABLE text, as a mathematical value.
    spec fn spec_create_table_sql() -> Seq<char>;

    /// The CREATE TABLE text.
    fn create_table_sql() -> (s: String)
        ensures
            s@ == Self::spec_create_table_sql(),
    ;

    /// Executes the DDL once. What the engine then holds is its own
    /// affair; a refusal comes back as `SqlExecutionError`.
    fn create_table(conn: &rusqlite::Connection) -> (r: Result<usize, DbError>)
        ensures
            r is Err ==> (r == Err::<usize, DbError>(DbError::SqlExecutionError)),
    ;
}

impl CreateTable for Meter {
    open spec fn spec_create_table_sql() -> Seq<char> {
        "CREATE TABLE "@ + Meter::spec_table_name()
            + " (id INTEGER PRIMARY KEY, name TEXT NOT NULL)"@
    }

    fn create_table_sql() -> (s: String) {
        let mut q = String::from_str("CREATE TABLE ");
        q.append(Meter::table_name());
        q.append(" (id INTEGER PRIMARY KEY, name TEXT NOT NULL)");
        q
    }

    fn create_table(conn: &rusqlite::Connection) -> (r: Result<usize, DbError>) {
        let sql = Meter::create_table_sql();
        let no_params: Vec<SqlValue> = Vec::new();
        exec_sql(conn, sql.as_str(), &no_params)
    }
}

impl CreateTable for Metric {
    open spec fn spec_create_table_sql() -> Seq<char> {
        "CREATE TABLE "@ + Metric::spec_table_name()
            + " (id INTEGER PRIMARY KEY, name TEXT NOT NULL, meter_id INTEGER, rate INTEGER, FOREIGN KEY(meter_id) REFERENCES meter(id))"@
    }

    fn create_table_sql() -> (s: String) {
        let mut q = String::from_str("CREATE TABLE ");
        q.append(Metric::table_name());
        q.append(
            " (id INTEGER PRIMARY KEY, name TEXT NOT NULL, meter_id INTEGER, rate INTEGER, FOREIGN KEY(meter_id) REFERENCES meter(id))",
        );
        q
    }

    fn create_table(conn: &rusqlite::Connection) -> (r: Result<usize, DbError>) {
        let sql = Metric::create_table_sql();
        let no_params: Vec<SqlValue> = Vec::new();
        exec_sql(conn, sql.as_str(), &no_params)
    }
}

impl CreateTable for MetricValue {
    open spec fn spec_create_table_sql() -> Seq<char> {
        "CREATE TABLE "@ + MetricValue::spec_table_name()
            + " (id INTEGER PRIMARY KEY, metric_id INTEGER, value INTEGER, added INTEGER, FOREIGN KEY(metric_id) REFERENCES metric(id))"@
    }

    fn create_table_sql() -> (s: String) {
        let mut q = String::from_str("CREATE TABLE ");
        q.append(MetricValue::table_name());
        q.append(
            " (id INTEGER PRIMARY KEY, metric_id INTEGER, value INTEGER, added INTEGER, FOREIGN KEY(metric_id) REFERENCES metric(id))",
        );
        q
    }

    fn create_table(conn: &rusqlite::Connection) -> (r: Result<usize, DbError>) {
        let sql = MetricValue::create_table_sql();
        let no_params: Vec<SqlValue> = Vec::new();
        exec_sql(conn, sql.as_str(), &no_params)
    }
}

/// The catalog decision, on plain values: the fetched rows name the
/// table exactly once — one row, one cell, holding precisely the
/// table's name as text.
pub open spec fn spec_rows_name_table(rows: Seq<Seq<SqlValueV>>, t: Seq<char>) -> bool {
    rows.len() == 1 && rows[0].len() == 1 && rows[0][0] == SqlValueV::Text(t)
}

/// Decides `spec_rows_name_table` on fetched rows.
pub fn rows_name_table(rows: &Vec<Vec<SqlValue>>, t: &str) -> (b: bool)
    ensures
        b == spec_rows_name_table(rows_views(rows@), t@),
{
    if rows.len() != 1 {
        return false;
    }
    let row = &rows[0];
    if row.len() != 1 {
        return false;
    }
    let ts = String::from_str(t);
    match &row[0] {
        SqlValue::Text(s) => *s == ts,
        _ => false,
    }
}

/// The catalog verdict over the whole query outcome: true exactly when
/// the query ran and its rows name the table; a failed catalog query
/// counts as absent, never as an error.
pub fn catalog_decision(r: &Result<Vec<Vec<SqlValue>>, DbError>, t: &str) -> (b: bool)
    ensures
        b == (r matches Ok(rows) && spec_rows_name_table(rows_views(rows@), t@)),
{
    match r {
        Ok(rows) => rows_name_table(rows, t),
        Err(_) => false,
    }
}

/// Asks the engine's catalog whether the entity's table is present:
/// `catalog_decision` applied to the catalog query's outcome — true
/// exactly when the query yields the table's name, false on any engine
/// failure.
pub fn table_exists<T: TableName>(conn: &rusqlite::Connection) -> (b: bool) {
    let mut q = String::from_str("SELECT name FROM sqlite_master WHERE type='table' AND name='");
    q.append(T::table_name());
    q.append("'");
    let outcome = query_sql(conn, q.as_str());
    catalog_decision(&outcome, T::table_name())
}

/// Creates the entity's table unless the catalog already names it.
/// Idempotent by that check; a creation refusal comes back as
/// `SqlExecutionError` instead of aborting.
pub fn create_table_if_does_not_exist<T: TableName + CreateTable>(conn: &rusqlite::Connection) -> (r:
    Result<(), DbError>)
    ensures
        r is Err ==> (r == Err::<(), DbError>(DbError::SqlExecutionError)),
{
    if !table_exists::<T>(conn) {
        unit_outcome(T::create_table(conn))
    } else {
        Ok(())
    }
}

/// Bootstraps the whole schema: Meter, then Metric, then MetricValue,
/// in that order because of the foreign keys; stops at the first
/// refusal. Safe to run on every process start.
pub fn create_tables_if_do_not_exist(conn: &rusqlite::Connection) -> (r: Result<(), DbError>)
    ensures
        r is Err ==> (r == Err::<(), DbError>(DbError::SqlExecutionError)),
{
    match create_table_if_does_not_exist::<Meter>(conn) {
        Ok(_) => {},
        Err(e) => {
            return Err(e);
        },
    }
    match create_table_if_does_not_exist::<Metric>(conn) {
        Ok(_) => {},
        Err(e) => {
            return Err(e);
        },
    }
    create_table_if_does_not_exist::<MetricValue>(conn)
}

} // verus!

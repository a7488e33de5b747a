//! The repository: generic CRUD operations over any entity type that
//! supplies the full metadata capability set, executed against one
//! exclusively owned connection. Each operation renders its statement
//! through the query builder (that text is exact, see `query`), hands
//! it to the engine through the trusted boundary, and decides the
//! outcome from whatever came back in fully verified code.

use vstd::prelude::*;
use vstd::string::*;

use crate::engine::{exec_sql, open_in_memory, query_sql, row_view, rows_views, DbError, SqlValue};
use crate::query::{Order, Query, WhereExprOperator};
use crate::structs::{FieldNames, FromRow, InsertValues, TableName};
use crate::text::usize_to_string;

verus! {

/// Which whole row sequences hydrate, and to what: every row in result
/// order, or nothing as soon as one row does not fit.
pub open spec fn spec_hydrate_rows<T: FromRow>(rows: Seq<Seq<crate::engine::SqlValueV>>) -> Option<
    Seq<T::V>,
>
    decreases rows.len(),
{
    if rows.len() == 0 {
        Option::Some(Seq::empty())
    } else {
        match (spec_hydrate_rows::<T>(rows.drop_last()), T::spec_from_row(rows.last())) {
            (Option::Some(s), Option::Some(v)) => Option::Some(s.push(v)),
            _ => Option::None,
        }
    }
}

/// One unfit row anywhere makes the whole sequence fail to hydrate.
proof fn lemma_hydrate_rows_failure<T: FromRow>(rows: Seq<Seq<crate::engine::SqlValueV>>, i: int)
    requires
        0 <= i < rows.len(),
        T::spec_from_row(rows[i]) is None,
    ensures
        spec_hydrate_rows::<T>(rows) is None,
    decreases rows.len(),
{
    if i < rows.len() - 1 {
        lemma_hydrate_rows_failure::<T>(rows.drop_last(), i);
    }
}

/// Hydrates every fetched row, in result order; the first row whose
/// shape does not fit yields `HydrationError` instead.
pub fn hydrate_rows<T: FromRow>(rows: &Vec<Vec<SqlValue>>) -> (r: Result<Vec<T>, DbError>)
    ensures
        match spec_hydrate_rows::<T>(rows_views(rows@)) {
            Option::Some(vs) => r matches Ok(es) && es@.map_values(|e: T| e@) == vs,
            Option::None => r matches Err(e) && e == DbError::HydrationError,
        },
{
    let ghost views = rows_views(rows@);
    let mut out: Vec<T> = Vec::new();
    let mut i: usize = 0;
    while i < rows.len()
        invariant
            0 <= i <= rows@.len(),
            views == rows_views(rows@),
            views.len() == rows@.len(),
            spec_hydrate_rows::<T>(views.subrange(0, i as int)) == Option::Some(
                out@.map_values(|e: T| e@),
            ),
        decreases rows@.len() - i,
    {
        let entity = match T::from_row(&rows[i]) {
            Ok(entity) => entity,
            Err(e) => {
                proof {
                    lemma_hydrate_rows_failure::<T>(views, i as int);
                }
                return Err(DbError::HydrationError);
            },
        };
        out.push(entity);
        proof {
            assert(views.subrange(0, (i + 1) as int).drop_last() =~= views.subrange(0, i as int));
            assert(views.subrange(0, (i + 1) as int).last() == views[i as int]);
            assert(out@.map_values(|e: T| e@) =~= spec_hydrate_rows::<T>(
                views.subrange(0, i as int),
            ).unwrap().push(out@.last()@));
        }
        i = i + 1;
    }
    proof {
        assert(views.subrange(0, views.len() as int) =~= views);
    }
    Ok(out)
}

/// The one-row decision, on plain values: no row at all means
/// `NotFound`; otherwise the first row is hydrated and any further rows
/// are ignored.
pub fn first_row_entity<T: FromRow>(rows: &Vec<Vec<SqlValue>>) -> (r: Result<T, DbError>)
    ensures
        rows@.len() == 0 ==> (r matches Err(e) && e == DbError::NotFound),
        rows@.len() > 0 ==> (match T::spec_from_row(row_view(rows@[0]@)) {
            Option::Some(v) => r matches Ok(x) && x@ == v,
            Option::None => r matches Err(e) && e == DbError::HydrationError,
        }),
{
    if rows.len() == 0 {
        return Err(DbError::NotFound);
    }
    T::from_row(&rows[0])
}

/// The existence decision, on plain values: a filtered result set
/// witnesses existence exactly when it holds at least one row.
pub fn rows_nonempty(rows: &Vec<Vec<SqlValue>>) -> (b: bool)
    ensures
        b == (rows@.len() > 0),
{
    rows.len() > 0
}

/// The outcome mapping of the mutating operations: the operation
/// succeeds exactly when the engine accepted the statement, and an
/// engine error propagates unchanged.
pub fn unit_outcome(r: Result<usize, DbError>) -> (out: Result<(), DbError>)
    ensures
        out is Ok <==> r is Ok,
        r matches Err(e) ==> out == Err::<(), DbError>(e),
{
    match r {
        Ok(_) => Ok(()),
        Err(e) => Err(e),
    }
}

/// The outcome mapping of the existence check: success exactly when
/// the query ran, the answer then being whether any row came back; an
/// engine error propagates unchanged.
pub fn existence_outcome(r: Result<Vec<Vec<SqlValue>>, DbError>) -> (out: Result<bool, DbError>)
    ensures
        out is Ok <==> r is Ok,
        r matches Ok(rows) ==> out == Ok::<bool, DbError>(rows@.len() > 0),
        r matches Err(e) ==> out == Err::<bool, DbError>(e),
{
    match r {
        Ok(rows) => Ok(rows_nonempty(&rows)),
        Err(e) => Err(e),
    }
}

/// The outcome mapping of a fetch-all: an engine error propagates
/// unchanged, and a fetched row set is decided by `hydrate_rows`.
pub fn all_rows_outcome<T: FromRow>(r: Result<Vec<Vec<SqlValue>>, DbError>) -> (out: Result<
    Vec<T>,
    DbError,
>)
    ensures
        r matches Err(e) ==> out == Err::<Vec<T>, DbError>(e),
        r matches Ok(rows) ==> (match spec_hydrate_rows::<T>(rows_views(rows@)) {
            Option::Some(vs) => out matches Ok(es) && es@.map_values(|e: T| e@) == vs,
            Option::None => out == Err::<Vec<T>, DbError>(DbError::HydrationError),
        }),
{
    match r {
        Ok(rows) => hydrate_rows::<T>(&rows),
        Err(e) => Err(e),
    }
}

/// The outcome mapping of a fetch-one: an engine error propagates
/// unchanged, and a fetched row set is decided by `first_row_entity` —
/// no row means `NotFound`.
pub fn last_row_outcome<T: FromRow>(r: Result<Vec<Vec<SqlValue>>, DbError>) -> (out: Result<
    T,
    DbError,
>)
    ensures
        r matches Err(e) ==> out == Err::<T, DbError>(e),
        r matches Ok(rows) ==> (rows@.len() == 0 ==> out == Err::<T, DbError>(DbError::NotFound)),
        r matches Ok(rows) ==> (rows@.len() > 0 ==> (match T::spec_from_row(
            row_view(rows@[0]@),
        ) {
            Option::Some(v) => out matches Ok(x) && x@ == v,
            Option::None => out == Err::<T, DbError>(DbError::HydrationError),
        })),
{
    match r {
        Ok(rows) => first_row_entity::<T>(&rows),
        Err(e) => Err(e),
    }
}

/// The repository: one exclusively owned storage connection, and the
/// generic operations over it.
pub struct Operations {
    connection: rusqlite::Connection,
}

impl Operations {
    /// Opens the repository over a fresh in-memory database.
    pub fn in_memory() -> (r: Result<Operations, DbError>)
        ensures
            r is Err ==> (r == Err::<Operations, DbError>(DbError::ConnectionError)),
    {
        match open_in_memory() {
            Ok(c) => Ok(Operations { connection: c }),
            Err(e) => Err(e),
        }
    }

    /// The owned connection, for the schema bootstrap at process start.
    pub fn get_connection(&self) -> &rusqlite::Connection {
        &self.connection
    }

    /// Renders the entity type's INSERT, binds the entity's insertable
    /// values positionally, and executes it. The assigned identifier is
    /// not returned; callers re-query to learn it.
    pub fn insert<T: TableName + FieldNames + InsertValues>(&self, entry: T) -> (r: Result<
        (),
        DbError,
    >)
        ensures
            r is Err ==> (r == Err::<(), DbError>(DbError::SqlExecutionError)),
    {
        let ins = Query::insert::<T>();
        let sql = ins.render();
        let vals = entry.get_insert_values();
        unit_outcome(exec_sql(&self.connection, sql.as_str(), &vals))
    }

    /// Executes a DELETE filtered by `id = <value>`.
    pub fn delete_by_id<T: TableName>(&self, id: u32) -> (r: Result<(), DbError>)
        ensures
            r is Err ==> (r == Err::<(), DbError>(DbError::SqlExecutionError)),
    {
        let id_text = usize_to_string(id as usize);
        let w = Query::delete::<T>().where_("id", WhereExprOperator::Equal, id_text.as_str());
        let sql = w.render();
        let no_params: Vec<SqlValue> = Vec::new();
        unit_outcome(exec_sql(&self.connection, sql.as_str(), &no_params))
    }

    /// Executes a SELECT filtered by `name = <value>`; true exactly
    /// when the result set the engine handed back is non-empty.
    pub fn exists_by_name<T: TableName + FromRow>(&self, name: String) -> (r: Result<
        bool,
        DbError,
    >)
        ensures
            r is Err ==> (r == Err::<bool, DbError>(DbError::SqlExecutionError) || r == Err::<
                bool,
                DbError,
            >(DbError::HydrationError)),
    {
        let sel = Query::select::<T>();
        let w = sel.where_("name", WhereExprOperator::Equal, name.as_str());
        let sql = w.render();
        existence_outcome(query_sql(&self.connection, sql.as_str()))
    }

    /// Executes a bare SELECT and hydrates every returned row, in the
    /// engine's result order — no ORDER BY is added.
    pub fn get_all<T: TableName + FromRow>(&self) -> (r: Result<Vec<T>, DbError>)
        ensures
            r is Err ==> (r == Err::<Vec<T>, DbError>(DbError::SqlExecutionError) || r == Err::<
                Vec<T>,
                DbError,
            >(DbError::HydrationError)),
    {
        let sel = Query::select::<T>();
        let sql = sel.render();
        all_rows_outcome::<T>(query_sql(&self.connection, sql.as_str()))
    }

    /// Executes a SELECT ordered by `id` descending and limited to one
    /// row; an empty table yields `NotFound`.
    pub fn get_last<T: TableName + FromRow>(&self) -> (r: Result<T, DbError>)
        ensures
            r is Err ==> (r == Err::<T, DbError>(DbError::NotFound) || r == Err::<T, DbError>(
                DbError::SqlExecutionError,
            ) || r == Err::<T, DbError>(DbError::HydrationError)),
    {
        let sel = Query::select::<T>().order_by("id", Order::Descending).limit(1);
        let sql = sel.render();
        last_row_outcome::<T>(query_sql(&self.connection, sql.as_str()))
    }
}

} // verus!

use meters::create::{
    catalog_decision, create_table_if_does_not_exist, create_tables_if_do_not_exist, table_exists,
    CreateTable,
};
use meters::engine::{DbError, SqlValue};
use meters::ops::Operations;
use meters::structs::{Meter, Metric, MetricValue};

#[test]
fn test_create_tables() {
    let ops = Operations::in_memory().unwrap();
    let connection = ops.get_connection();

    assert!(!table_exists::<Meter>(connection));
    assert!(!table_exists::<Metric>(connection));
    assert!(!table_exists::<MetricValue>(connection));

    Meter::create_table(connection).unwrap();
    assert!(table_exists::<Meter>(connection));

    Metric::create_table(connection).unwrap();
    assert!(table_exists::<Metric>(connection));

    MetricValue::create_table(connection).unwrap();
    assert!(table_exists::<MetricValue>(connection));
}

#[test]
fn test_create_table_if_does_not_exist() {
    let ops = Operations::in_memory().unwrap();
    let connection = ops.get_connection();

    assert!(!table_exists::<Meter>(connection));
    create_table_if_does_not_exist::<Meter>(connection).unwrap();
    create_table_if_does_not_exist::<Meter>(connection).unwrap();
    assert!(table_exists::<Meter>(connection));
}

#[test]
fn test_create_tables_if_do_not_exist() {
    let ops = Operations::in_memory().unwrap();
    let connection = ops.get_connection();

    assert!(!table_exists::<Meter>(connection));
    assert!(!table_exists::<Metric>(connection));
    assert!(!table_exists::<MetricValue>(connection));

    create_tables_if_do_not_exist(connection).unwrap();

    assert!(table_exists::<Meter>(connection));
    assert!(table_exists::<Metric>(connection));
    assert!(table_exists::<MetricValue>(connection));
}

#[test]
fn test_catalog_decision() {
    // present exactly when the query ran and named the table once
    let hit: Result<Vec<Vec<SqlValue>>, DbError> =
        Ok(vec![vec![SqlValue::Text("meter".to_string())]]);
    assert!(catalog_decision(&hit, "meter"));

    let wrong_name: Result<Vec<Vec<SqlValue>>, DbError> =
        Ok(vec![vec![SqlValue::Text("metric".to_string())]]);
    assert!(!catalog_decision(&wrong_name, "meter"));

    let no_rows: Result<Vec<Vec<SqlValue>>, DbError> = Ok(vec![]);
    assert!(!catalog_decision(&no_rows, "meter"));

    // a failed catalog query counts as absent, never as an error
    let failed: Result<Vec<Vec<SqlValue>>, DbError> = Err(DbError::SqlExecutionError);
    assert!(!catalog_decision(&failed, "meter"));
}

#[test]
fn test_create_all_twice_leaves_one_of_each_table() {
    let ops = Operations::in_memory().unwrap();
    let connection = ops.get_connection();

    assert!(create_tables_if_do_not_exist(connection).is_ok());
    assert!(create_tables_if_do_not_exist(connection).is_ok());

    // the catalog still names each table exactly once, so the check
    // that demands a single catalog row per table keeps passing
    assert!(table_exists::<Meter>(connection));
    assert!(table_exists::<Metric>(connection));
    assert!(table_exists::<MetricValue>(connection));
}

use meters::create::create_tables_if_do_not_exist;
use meters::engine::{DbError, SqlValue};
use meters::ops::{existence_outcome, unit_outcome, Operations};
use meters::structs::{InsertValues, Meter, Metric, MetricValue};

#[test]
fn test_insert_and_get_all_records() {
    let ops = Operations::in_memory().unwrap();
    create_tables_if_do_not_exist(ops.get_connection()).unwrap();

    ops.insert(Meter::new("meter1")).unwrap();
    ops.insert(Meter::new("meter2")).unwrap();

    let meters = ops.get_all::<Meter>().unwrap();
    assert_eq!(meters.len(), 2);
    assert_eq!(meters[0].name, "meter1");
    assert_eq!(meters[1].name, "meter2");

    ops.insert(Metric::new("metric1", meters[0].id, 100)).unwrap();
    ops.insert(Metric::new("metric2", meters[1].id, 200)).unwrap();

    let metrics = ops.get_all::<Metric>().unwrap();
    assert_eq!(metrics.len(), 2);
    assert_eq!(metrics[0].name, "metric1");
    assert_eq!(metrics[0].meter_id, meters[0].id);
    assert_eq!(metrics[0].rate, 100);
    assert_eq!(metrics[1].name, "metric2");
    assert_eq!(metrics[1].meter_id, meters[1].id);
    assert_eq!(metrics[1].rate, 200);

    let now = chrono::Local::now().timestamp();
    ops.insert(MetricValue::new(metrics[0].id, 123, now)).unwrap();
    ops.insert(MetricValue::new(metrics[1].id, 456, now)).unwrap();

    let values = ops.get_all::<MetricValue>().unwrap();
    assert_eq!(values.len(), 2);
    assert_eq!(values[0].metric_id, metrics[0].id);
    assert_eq!(values[0].value, 123);
    assert_eq!(values[0].added, now);
    assert_eq!(values[1].metric_id, metrics[1].id);
    assert_eq!(values[1].value, 456);
    assert_eq!(values[1].added, now);
}

#[test]
fn test_insert_and_get_last_records() {
    let ops = Operations::in_memory().unwrap();
    create_tables_if_do_not_exist(ops.get_connection()).unwrap();

    ops.insert(Meter::new("meter1")).unwrap();
    ops.insert(Meter::new("meter2")).unwrap();

    let last_meter = ops.get_last::<Meter>().unwrap();
    assert_eq!(last_meter.name, "meter2");

    ops.insert(Metric::new("metric1", last_meter.id, 100)).unwrap();
    ops.insert(Metric::new("metric2", last_meter.id, 200)).unwrap();

    let last_metric = ops.get_last::<Metric>().unwrap();
    assert_eq!(last_metric.name, "metric2");
    assert_eq!(last_metric.meter_id, last_meter.id);
    assert_eq!(last_metric.rate, 200);

    let now = chrono::Local::now().timestamp();
    ops.insert(MetricValue::new(last_metric.id, 1234, now)).unwrap();
    ops.insert(MetricValue::new(last_metric.id, 5678, now)).unwrap();

    let last_metric_value = ops.get_last::<MetricValue>().unwrap();
    assert_eq!(last_metric_value.metric_id, last_metric.id);
    assert_eq!(last_metric_value.value, 5678);
    assert_eq!(last_metric_value.added, now);
}

#[test]
fn test_exists_by_name() {
    let ops = Operations::in_memory().unwrap();
    create_tables_if_do_not_exist(ops.get_connection()).unwrap();

    ops.insert(Meter::new("meter1")).unwrap();
    ops.insert(Meter::new("meter2")).unwrap();

    assert!(ops.exists_by_name::<Meter>("meter1".to_string()).unwrap());
    assert!(ops.exists_by_name::<Meter>("meter2".to_string()).unwrap());
    assert!(!ops.exists_by_name::<Meter>("meter3".to_string()).unwrap());

    let meters = ops.get_all::<Meter>().unwrap();
    ops.insert(Metric::new("metric1", meters[0].id, 100)).unwrap();
    ops.insert(Metric::new("metric2", meters[1].id, 200)).unwrap();

    assert!(ops.exists_by_name::<Metric>("metric1".to_string()).unwrap());
    assert!(ops.exists_by_name::<Metric>("metric2".to_string()).unwrap());
    assert!(!ops.exists_by_name::<Metric>("metric3".to_string()).unwrap());
}

#[test]
fn test_delete_by_id() {
    let ops = Operations::in_memory().unwrap();
    create_tables_if_do_not_exist(ops.get_connection()).unwrap();

    ops.insert(Meter::new("meter1")).unwrap();
    ops.insert(Meter::new("meter2")).unwrap();
    let meters = ops.get_all::<Meter>().unwrap();

    ops.insert(Metric::new("metric1", meters[1].id, 100)).unwrap();
    ops.insert(Metric::new("metric2", meters[1].id, 200)).unwrap();
    let metrics = ops.get_all::<Metric>().unwrap();

    assert!(ops.exists_by_name::<Meter>("meter1".to_string()).unwrap());
    assert!(ops.exists_by_name::<Meter>("meter2".to_string()).unwrap());
    assert!(ops.exists_by_name::<Metric>("metric1".to_string()).unwrap());
    assert!(ops.exists_by_name::<Metric>("metric2".to_string()).unwrap());

    assert!(ops.delete_by_id::<Meter>(meters[0].id).is_ok());
    assert!(ops.delete_by_id::<Metric>(metrics[1].id).is_ok());

    assert!(!ops.exists_by_name::<Meter>("meter1".to_string()).unwrap());
    assert!(ops.exists_by_name::<Meter>("meter2".to_string()).unwrap());
    assert!(ops.exists_by_name::<Metric>("metric1".to_string()).unwrap());
    assert!(!ops.exists_by_name::<Metric>("metric2".to_string()).unwrap());
}

#[test]
fn test_outcome_mappings_propagate_engine_errors() {
    // success exactly when the engine accepted the statement
    assert_eq!(unit_outcome(Ok(3)), Ok(()));
    assert_eq!(
        unit_outcome(Err(DbError::SqlExecutionError)),
        Err(DbError::SqlExecutionError)
    );

    // existence is the nonemptiness of whatever came back
    let no_rows: Result<Vec<Vec<SqlValue>>, DbError> = Ok(vec![]);
    assert_eq!(existence_outcome(no_rows), Ok(false));
    let one_row: Result<Vec<Vec<SqlValue>>, DbError> = Ok(vec![vec![SqlValue::Integer(1)]]);
    assert_eq!(existence_outcome(one_row), Ok(true));
    assert_eq!(
        existence_outcome(Err(DbError::SqlExecutionError)),
        Err(DbError::SqlExecutionError)
    );
}

#[test]
fn test_get_last_on_empty_table_is_not_found() {
    let ops = Operations::in_memory().unwrap();
    create_tables_if_do_not_exist(ops.get_connection()).unwrap();

    assert_eq!(ops.get_last::<Meter>().unwrap_err(), DbError::NotFound);
}

#[test]
fn test_operations_on_missing_table_are_execution_errors() {
    let ops = Operations::in_memory().unwrap();

    assert_eq!(
        ops.insert(Meter::new("meter1")).unwrap_err(),
        DbError::SqlExecutionError
    );
    assert_eq!(
        ops.get_all::<Meter>().unwrap_err(),
        DbError::SqlExecutionError
    );
    assert_eq!(
        ops.exists_by_name::<Meter>("meter1".to_string()).unwrap_err(),
        DbError::SqlExecutionError
    );
}

#[test]
fn test_hydration_error_on_misshapen_table() {
    let ops = Operations::in_memory().unwrap();
    let conn = ops.get_connection();

    // a meter table whose name column holds integers: the row fetches,
    // but hydration must fail recoverably rather than abort
    conn.execute("CREATE TABLE meter (id INTEGER PRIMARY KEY, name INTEGER)", [])
        .unwrap();
    conn.execute("INSERT INTO meter (name) VALUES (42)", []).unwrap();

    assert_eq!(ops.get_all::<Meter>().unwrap_err(), DbError::HydrationError);
    assert_eq!(ops.get_last::<Meter>().unwrap_err(), DbError::HydrationError);
}

#[test]
fn test_insert_does_not_consume_source_values() {
    let ops = Operations::in_memory().unwrap();
    create_tables_if_do_not_exist(ops.get_connection()).unwrap();

    let meter = Meter::new("meter1");
    // insertable values are independent copies of the entity's fields
    let vals_before = meter.get_insert_values();
    ops.insert(meter).unwrap();
    let again = Meter::new("meter1");
    let vals_after = again.get_insert_values();
    assert_eq!(vals_before, vals_after);
}

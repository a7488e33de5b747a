use meters::engine::{DbError, SqlValue};
use meters::structs::{
    generate_table_name, FieldNames, FromRow, InsertValues, Meter, Metric, MetricValue, TableName,
};

#[test]
fn test_generate_name() {
    assert_eq!(generate_table_name("OneTwoThree"), "one_two_three");
}

#[test]
fn test_generate_name_single_word() {
    assert_eq!(generate_table_name("Meter"), "meter");
    assert_eq!(generate_table_name("MetricValue"), "metric_value");
}

#[test]
fn test_generate_name_many_words() {
    assert_eq!(generate_table_name("AbcDefGhi"), "abc_def_ghi");
    assert_eq!(generate_table_name("AbCdEf"), "ab_cd_ef");
}

#[test]
fn test_table_names() {
    assert_eq!(Meter::table_name(), "meter");
    assert_eq!(Metric::table_name(), "metric");
    assert_eq!(MetricValue::table_name(), "metric_value");
}

#[test]
fn test_field_names() {
    assert_eq!(Meter::get_field_names(), vec!["id", "name"]);
    assert_eq!(
        Metric::get_field_names(),
        vec!["id", "name", "meter_id", "rate"]
    );
    assert_eq!(
        MetricValue::get_field_names(),
        vec!["id", "metric_id", "value", "added"]
    );
}

#[test]
fn test_insert_values() {
    assert_eq!(
        Meter::new("meter1").get_insert_values(),
        vec![SqlValue::Text("meter1".to_string())]
    );
    assert_eq!(
        Metric::new("metric1", 123, 456).get_insert_values(),
        vec![
            SqlValue::Text("metric1".to_string()),
            SqlValue::Integer(123),
            SqlValue::Integer(456),
        ]
    );

    let now = chrono::Local::now().timestamp();
    assert_eq!(
        MetricValue::new(123, 456, now).get_insert_values(),
        vec![
            SqlValue::Integer(123),
            SqlValue::Integer(456),
            SqlValue::Integer(now),
        ]
    );
}

#[test]
fn test_new_entities_carry_sentinel_id() {
    assert_eq!(Meter::new("m").id, 0);
    assert_eq!(Metric::new("m", 1, 2).id, 0);
    assert_eq!(MetricValue::new(1, 2, 3).id, 0);
}

#[test]
fn test_from_row_hydrates_in_declaration_order() {
    let row = vec![SqlValue::Integer(7), SqlValue::Text("main".to_string())];
    let meter = Meter::from_row(&row).unwrap();
    assert_eq!(meter.id, 7);
    assert_eq!(meter.name, "main");

    let row = vec![
        SqlValue::Integer(3),
        SqlValue::Text("gas".to_string()),
        SqlValue::Integer(7),
        SqlValue::Integer(12),
    ];
    let metric = Metric::from_row(&row).unwrap();
    assert_eq!(metric.id, 3);
    assert_eq!(metric.name, "gas");
    assert_eq!(metric.meter_id, 7);
    assert_eq!(metric.rate, 12);

    let row = vec![
        SqlValue::Integer(9),
        SqlValue::Integer(3),
        SqlValue::Integer(250),
        SqlValue::Integer(1700000000),
    ];
    let value = MetricValue::from_row(&row).unwrap();
    assert_eq!(value.id, 9);
    assert_eq!(value.metric_id, 3);
    assert_eq!(value.value, 250);
    assert_eq!(value.added, 1700000000);
}

#[test]
fn test_from_row_rejects_misshapen_rows() {
    // too short
    let row = vec![SqlValue::Integer(7)];
    assert_eq!(Meter::from_row(&row).unwrap_err(), DbError::HydrationError);

    // type-incompatible cell
    let row = vec![SqlValue::Text("7".to_string()), SqlValue::Text("main".to_string())];
    assert_eq!(Meter::from_row(&row).unwrap_err(), DbError::HydrationError);

    // identifier outside the entity's range
    let row = vec![SqlValue::Integer(-1), SqlValue::Text("main".to_string())];
    assert_eq!(Meter::from_row(&row).unwrap_err(), DbError::HydrationError);
    let row = vec![SqlValue::Integer(1 << 40), SqlValue::Text("main".to_string())];
    assert_eq!(Meter::from_row(&row).unwrap_err(), DbError::HydrationError);
}

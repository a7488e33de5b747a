use meters::query::{Order, Query, WhereExprOperator};
use meters::structs::{Meter, Metric, MetricValue};

#[test]
fn test_insert() {
    assert_eq!(
        Query::insert::<Meter>().render(),
        "INSERT INTO meter (name) VALUES (?1)"
    );
}

#[test]
fn test_insert_many_columns() {
    assert_eq!(
        Query::insert::<Metric>().render(),
        "INSERT INTO metric (name,meter_id,rate) VALUES (?1,?2,?3)"
    );
    assert_eq!(
        Query::insert::<MetricValue>().render(),
        "INSERT INTO metric_value (metric_id,value,added) VALUES (?1,?2,?3)"
    );
}

#[test]
fn test_select_order_and_limit() {
    assert_eq!(Query::select::<Meter>().render(), "SELECT * FROM meter");
    assert_eq!(
        Query::select::<Meter>().order_by("id", Order::Ascending).render(),
        "SELECT * FROM meter ORDER BY id"
    );
    assert_eq!(
        Query::select::<Metric>().order_by("id", Order::Descending).render(),
        "SELECT * FROM metric ORDER BY id DESC"
    );
    assert_eq!(
        Query::select::<Meter>().limit(123).render(),
        "SELECT * FROM meter LIMIT 123"
    );
    assert_eq!(
        Query::select::<Meter>().order_by("id", Order::Descending).limit(456).render(),
        "SELECT * FROM meter ORDER BY id DESC LIMIT 456"
    );
    assert_eq!(
        Query::select::<MetricValue>().limit(456).order_by("id", Order::Descending).render(),
        "SELECT * FROM metric_value ORDER BY id DESC LIMIT 456"
    );
}

#[test]
fn test_select_where() {
    assert_eq!(
        Query::select::<Meter>()
            .where_("name", WhereExprOperator::Equal, "meter1")
            .render(),
        "SELECT * FROM meter WHERE name = 'meter1'"
    );
    assert_eq!(
        Query::select::<Meter>()
            .where_("id", WhereExprOperator::Equal, "123")
            .render(),
        "SELECT * FROM meter WHERE id = 123"
    );
    assert_eq!(
        Query::select::<Meter>()
            .where_("id", WhereExprOperator::Equal, "123")
            .stop_where()
            .render(),
        "SELECT * FROM meter WHERE id = 123"
    );
    assert_eq!(
        Query::select::<Meter>()
            .where_("id", WhereExprOperator::Equal, "123")
            .or("name", WhereExprOperator::NotEqual, "some_name")
            .render(),
        "SELECT * FROM meter WHERE id = 123 OR name != 'some_name'"
    );
    assert_eq!(
        Query::select::<Meter>()
            .where_("id", WhereExprOperator::Equal, "123")
            .and("name", WhereExprOperator::NotEqual, "some_name")
            .render(),
        "SELECT * FROM meter WHERE id = 123 AND name != 'some_name'"
    );
    assert_eq!(
        Query::select::<Meter>()
            .where_("id", WhereExprOperator::Equal, "123")
            .and("name", WhereExprOperator::NotEqual, "some_name")
            .or("surname", WhereExprOperator::Equal, "some_surname")
            .render(),
        "SELECT * FROM meter WHERE id = 123 AND name != 'some_name' OR surname = 'some_surname'"
    );
}

#[test]
fn test_select_complex() {
    assert_eq!(
        Query::select::<MetricValue>()
            .limit(456)
            .order_by("id", Order::Descending)
            .where_("id", WhereExprOperator::Equal, "123")
            .and("name", WhereExprOperator::NotEqual, "some_name")
            .or("surname", WhereExprOperator::Equal, "some_surname")
            .render(),
        "SELECT * FROM metric_value WHERE id = 123 AND name != 'some_name' OR surname = 'some_surname' ORDER BY id DESC LIMIT 456"
    );
    assert_eq!(
        Query::select::<MetricValue>()
            .where_("id", WhereExprOperator::Equal, "123")
            .and("name", WhereExprOperator::NotEqual, "some_name")
            .or("surname", WhereExprOperator::Equal, "some_surname")
            .stop_where()
            .limit(456)
            .order_by("id", Order::Descending)
            .render(),
        "SELECT * FROM metric_value WHERE id = 123 AND name != 'some_name' OR surname = 'some_surname' ORDER BY id DESC LIMIT 456"
    );
}

#[test]
fn test_where_value_quoting() {
    // all-digit values render unquoted, anything else is quoted, and an
    // embedded quote is not escaped
    assert_eq!(
        Query::select::<Meter>()
            .where_("name", WhereExprOperator::Equal, "123abc")
            .render(),
        "SELECT * FROM meter WHERE name = '123abc'"
    );
    assert_eq!(
        Query::select::<Meter>()
            .where_("name", WhereExprOperator::Equal, "O'Brien")
            .render(),
        "SELECT * FROM meter WHERE name = 'O'Brien'"
    );
    // the empty text has only digit characters, vacuously, so it
    // renders unquoted
    assert_eq!(
        Query::select::<Meter>()
            .where_("name", WhereExprOperator::Equal, "")
            .render(),
        "SELECT * FROM meter WHERE name = "
    );
}

#[test]
fn test_limit_and_order_last_call_wins() {
    assert_eq!(
        Query::select::<Meter>().limit(1).limit(7).render(),
        "SELECT * FROM meter LIMIT 7"
    );
    assert_eq!(
        Query::select::<Meter>()
            .order_by("id", Order::Ascending)
            .order_by("name", Order::Descending)
            .render(),
        "SELECT * FROM meter ORDER BY name DESC"
    );
}

#[test]
fn test_delete_render() {
    assert_eq!(
        Query::delete::<Meter>()
            .where_("id", WhereExprOperator::Equal, "123")
            .render(),
        "DELETE FROM meter WHERE id = 123"
    );
}

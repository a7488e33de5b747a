use meters::commands::{duplicate_gate, insert_report, list_report, plain_report, Commands};
use meters::create::create_tables_if_do_not_exist;
use meters::engine::DbError;

#[test]
fn test_meter_commands() {
    let commands = Commands::in_memory().unwrap();

    // no tables yet
    assert!(commands.add_meter("meter1").is_err());

    create_tables_if_do_not_exist(commands.get_connection()).unwrap();
    assert!(commands.add_meter("meter1").is_ok());
    assert!(commands.add_meter("meter2").is_ok());
    // same name again, should fail
    assert!(commands.add_meter("meter1").is_err());

    let mut meters = commands.list_meters().unwrap();
    assert_eq!(meters.len(), 2);
    assert_eq!(meters[0].name, "meter1");
    assert_eq!(meters[1].name, "meter2");

    assert!(commands.delete_meter(meters[0].id).is_ok());
    assert!(commands.delete_meter(meters[1].id).is_ok());

    meters = commands.list_meters().unwrap();
    assert_eq!(meters.len(), 0);
}

#[test]
fn test_add_meter_duplicate_message() {
    let commands = Commands::in_memory().unwrap();
    create_tables_if_do_not_exist(commands.get_connection()).unwrap();

    assert!(commands.add_meter("kitchen").is_ok());
    let err = commands.add_meter("kitchen").unwrap_err();
    assert_eq!(err, "Meter with name kitchen already exists");
}

#[test]
fn test_add_meter_without_tables_reports_engine_refusal() {
    let commands = Commands::in_memory().unwrap();
    let err = commands.add_meter("kitchen").unwrap_err();
    assert_eq!(err, "the storage engine refused the statement");
}

#[test]
fn test_duplicate_gate() {
    assert_eq!(
        duplicate_gate(true, "kitchen"),
        Some("Meter with name kitchen already exists".to_string())
    );
    assert_eq!(duplicate_gate(false, "kitchen"), None);
}

#[test]
fn test_command_outcome_mappings() {
    assert_eq!(insert_report(Ok(())), Ok(()));
    assert_eq!(
        insert_report(Err(DbError::SqlExecutionError)),
        Err("Couldn't add meter to the database: the storage engine refused the statement"
            .to_string())
    );
    assert_eq!(plain_report(Ok(())), Ok(()));
    assert_eq!(
        plain_report(Err(DbError::SqlExecutionError)),
        Err("the storage engine refused the statement".to_string())
    );
    let listed = list_report(Ok(vec![])).unwrap();
    assert_eq!(listed.len(), 0);
    assert_eq!(
        list_report(Err(DbError::HydrationError)).unwrap_err(),
        "a fetched row did not match the entity shape"
    );
}

use trailbase::logging::{level_to_int, LogLevel};
use trailbase::scheduler::{periodic_tasks, PeriodicTask};
use trailbase::schema_registry::SchemaRegistry;
use trailbase::transaction::{QueryType, TransactionLog};

#[test]
fn periodic_task_plan() {
    assert_eq!(
        periodic_tasks(None, None),
        vec![
            (PeriodicTask::Heartbeat, 60),
            (PeriodicTask::LogsCleanup, 604800),
            (PeriodicTask::SessionCleanup, 43200),
            (PeriodicTask::Optimize, 86400),
        ]
    );
    assert_eq!(
        periodic_tasks(Some(3600), Some(0)),
        vec![
            (PeriodicTask::Heartbeat, 60),
            (PeriodicTask::Backup, 3600),
            (PeriodicTask::SessionCleanup, 43200),
            (PeriodicTask::Optimize, 86400),
        ]
    );
    assert_eq!(periodic_tasks(None, Some(10))[1], (PeriodicTask::LogsCleanup, 10));
}

#[test]
fn log_level_numbers() {
    assert_eq!(level_to_int(&LogLevel::Trace), 4);
    assert_eq!(level_to_int(&LogLevel::Debug), 3);
    assert_eq!(level_to_int(&LogLevel::Info), 2);
    assert_eq!(level_to_int(&LogLevel::Warn), 1);
    assert_eq!(level_to_int(&LogLevel::Error), 0);
}

#[test]
fn registry_reads_back_what_was_written() {
    let mut r: SchemaRegistry<u32> = SchemaRegistry::new();
    assert_eq!(r.get("a"), None);
    r.set("a", Some(1));
    r.set("b", Some(2));
    assert_eq!(r.get("a"), Some(&1));
    r.set("a", Some(3));
    assert_eq!(r.get("a"), Some(&3));
    assert_eq!(r.get("b"), Some(&2));
    r.set("a", None);
    assert_eq!(r.get("a"), None);
    assert_eq!(r.get("b"), Some(&2));

    r.set_all(Some(vec![("x".to_string(), 7), ("x".to_string(), 8), ("y".to_string(), 9)]));
    assert_eq!(r.get("b"), None);
    assert_eq!(r.get("x"), Some(&8));
    assert_eq!(r.get("y"), Some(&9));
    r.set_all(None);
    assert_eq!(r.get("y"), None);
}

#[test]
fn transaction_log_script() {
    assert!(TransactionLog::from_recorded(vec![]).is_none());
    let log = TransactionLog::from_recorded(vec![
        (QueryType::Execute, "CREATE TABLE t (a INTEGER)".to_string()),
        (QueryType::Query, "".to_string()),
        (QueryType::Execute, "DROP TABLE u;".to_string()),
    ])
    .unwrap();
    assert_eq!(log.entries().len(), 3);
    assert_eq!(
        log.sql_script(),
        "CREATE TABLE t (a INTEGER);\nDROP TABLE u;"
    );
    let formatted = log.migration_sql();
    assert!(formatted.contains("CREATE TABLE"));
    assert!(formatted.contains("DROP TABLE"));
}

use trailbase::data_dir::DataDir;
use trailbase::files::{deletions_to_retry, DeleteOutcome, FileDeletion, FileManager, ATTEMPTS_LIMIT};
use trailbase::queue::Queue;

#[test]
fn unreleased_files_are_cleaned_up() {
    let m = FileManager::written(vec!["a/1".to_string(), "b/2".to_string()]);
    assert_eq!(m.into_cleanup(), vec!["a/1".to_string(), "b/2".to_string()]);
}

#[test]
fn released_files_stay() {
    let mut m = FileManager::written(vec!["a/1".to_string()]);
    m.release();
    assert!(m.into_cleanup().is_empty());
    assert!(FileManager::empty().into_cleanup().is_empty());
}

#[test]
fn queue_setup() {
    assert_eq!(Queue::new(None), Ok(Queue {}));
    assert_eq!(Queue::new(Some(&DataDir::default())), Ok(Queue {}));
}

fn pending(id: i64, attempts: i64) -> FileDeletion {
    FileDeletion {
        id,
        deleted: 1700000000,
        attempts,
        errors: None,
        table_name: "table".to_string(),
        record_rowid: 7,
        column_name: "file".to_string(),
        json: "{}".to_string(),
    }
}

#[test]
fn failed_deletions_are_retried_until_the_limit() {
    let rows = vec![pending(1, 0), pending(2, ATTEMPTS_LIMIT - 1), pending(3, ATTEMPTS_LIMIT)];
    let outcomes = vec![
        vec![
            DeleteOutcome::Deleted,
            DeleteOutcome::Failed("timeout".to_string()),
            DeleteOutcome::NotFound,
            DeleteOutcome::Failed("busy".to_string()),
        ],
        vec![DeleteOutcome::Failed("down".to_string())],
        vec![DeleteOutcome::Failed("down".to_string())],
    ];
    let retry = deletions_to_retry(&rows, &outcomes);
    let mut first = pending(1, 1);
    first.errors = Some("timeout".to_string());
    let mut second = pending(1, 1);
    second.errors = Some("busy".to_string());
    let mut third = pending(2, ATTEMPTS_LIMIT);
    third.errors = Some("down".to_string());
    assert_eq!(retry, vec![first, second, third]);
}

#[test]
fn missing_files_and_invalid_paths_are_dropped() {
    let rows = vec![pending(1, 0), pending(2, 3)];
    let outcomes = vec![vec![DeleteOutcome::InvalidPath], vec![DeleteOutcome::NotFound, DeleteOutcome::Deleted]];
    assert_eq!(deletions_to_retry(&rows, &outcomes), vec![]);
    assert_eq!(deletions_to_retry(&vec![], &vec![]), vec![]);
}

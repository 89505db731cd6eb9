use trailbase::data_dir::{join_path, DataDir};

#[test]
fn default_data_dir_layout() {
    let d = DataDir::default();
    assert_eq!(d.root(), "./traildepot/");
    assert_eq!(d.data_path(), "./traildepot/data/");
    assert_eq!(d.main_db_path(), "./traildepot/data/main.db");
    assert_eq!(d.logs_db_path(), "./traildepot/data/logs.db");
    assert_eq!(d.config_path(), "./traildepot/");
    assert_eq!(d.secrets_path(), "./traildepot/secrets/");
    assert_eq!(d.backup_path(), "./traildepot/backups/");
    assert_eq!(d.migrations_path(), "./traildepot/migrations/");
    assert_eq!(d.uploads_path(), "./traildepot/uploads/");
    assert_eq!(d.key_path(), "./traildepot/secrets/keys/");
}

#[test]
fn paths_are_joined_with_one_separator() {
    assert_eq!(join_path("a", "b"), "a/b");
    assert_eq!(join_path("a/", "b"), "a/b");
    assert_eq!(join_path("", "b"), "b");
    let d = DataDir("/srv/depot".to_string());
    assert_eq!(d.data_path(), "/srv/depot/data/");
    assert!(d.directories().iter().all(|p| p.starts_with("/srv/depot")));
}

use trailbase::migrations::{migration_filename, next_migration_version};
use trailbase::query_builder::{
    conflict_clause, delete_record_query, file_column_query, replaced_files_need_cleanup,
    returning_columns, update_is_noop,
};
use trailbase::record_api::RequestParams;
use trailbase::record_requests::{
    autofill_user_id_columns, created_record_id, expand_tables, missing_user_id_columns,
    read_expansion, split_expanded_row, ExpandedTable,
};
use trailbase::records::{RecordError, SqlValue};
use trailbase::schema::{Column, ColumnDataType, ColumnOption};
use trailbase::validate::{ConflictResolutionStrategy, TargetInfo};

fn col(name: &str, options: Vec<ColumnOption>) -> Column {
    Column {
        name: name.to_string(),
        data_type: ColumnDataType::Blob,
        options,
    }
}

fn fk(table: &str) -> ColumnOption {
    ColumnOption::ForeignKey {
        foreign_table: table.to_string(),
        referred_columns: vec!["id".to_string()],
        on_delete: None,
        on_update: None,
    }
}

#[test]
fn creator_id_is_filled_in() {
    let columns = vec![col("id", vec![]), col("owner", vec![]), col("author", vec![])];
    let user_cols = vec![1, 2];
    let present = vec!["author".to_string()];
    assert_eq!(
        missing_user_id_columns(&columns, &user_cols, &present),
        vec!["owner".to_string()]
    );

    let mut params = RequestParams {
        column_names: vec!["author".to_string()],
        named_params: vec![(":author".to_string(), SqlValue::Blob(vec![9]))],
    };
    let unchanged = params.clone();
    autofill_user_id_columns(&mut params, true, &columns, &user_cols, None);
    assert_eq!(params, unchanged);
    autofill_user_id_columns(&mut params, false, &columns, &user_cols, Some(&vec![7]));
    assert_eq!(params, unchanged);

    autofill_user_id_columns(&mut params, true, &columns, &user_cols, Some(&vec![7]));
    assert_eq!(
        params.column_names,
        vec!["author".to_string(), "owner".to_string()]
    );
    assert_eq!(params.named_params[1], (":owner".to_string(), SqlValue::Blob(vec![7])));
}

#[test]
fn created_record_ids() {
    assert_eq!(
        created_record_id(ColumnDataType::Integer, &SqlValue::Integer(-12)),
        Ok("-12".to_string())
    );
    assert_eq!(
        created_record_id(ColumnDataType::Blob, &SqlValue::Blob(vec![0; 16])),
        Ok("AAAAAAAAAAAAAAAAAAAAAA==".to_string())
    );
    assert!(matches!(
        created_record_id(ColumnDataType::Blob, &SqlValue::Blob(vec![0; 3])),
        Err(RecordError::Internal(_))
    ));
    assert!(matches!(
        created_record_id(ColumnDataType::Text, &SqlValue::Text("x".to_string())),
        Err(RecordError::Internal(_))
    ));
}

#[test]
fn read_expansions() {
    let configured = vec!["owner".to_string()];
    assert_eq!(read_expansion(None, Some(&configured)), Ok(None));
    assert_eq!(read_expansion(Some(""), None), Ok(None));
    assert_eq!(
        read_expansion(Some("owner"), None),
        Err(RecordError::BadRequest("Invalid expansion"))
    );
    // Every requested name must be configured.
    assert_eq!(
        read_expansion(Some("owner,room"), Some(&configured)),
        Err(RecordError::BadRequest("Invalid expansion"))
    );
    let configured = vec!["owner".to_string(), "room".to_string()];
    assert_eq!(
        read_expansion(Some("owner,room"), Some(&configured)),
        Ok(Some(vec!["owner".to_string(), "room".to_string()]))
    );
}

fn tables() -> Vec<TargetInfo> {
    vec![
        TargetInfo {
            name: "messages".to_string(),
            temporary: false,
            record_pk: Some((0, "id".to_string())),
            columns: Some(vec![
                col("id", vec![]),
                col("owner", vec![ColumnOption::NotNull, fk("users")]),
                col("body", vec![]),
                col("room", vec![fk("rooms")]),
            ]),
        },
        TargetInfo {
            name: "users".to_string(),
            temporary: false,
            record_pk: Some((1, "uid".to_string())),
            columns: Some(vec![col("email", vec![]), col("uid", vec![])]),
        },
        TargetInfo {
            name: "rooms".to_string(),
            temporary: false,
            record_pk: None,
            columns: Some(vec![col("id", vec![])]),
        },
    ]
}

#[test]
fn expanded_foreign_tables() {
    let t = tables();
    assert_eq!(
        expand_tables(&t, "messages", &vec!["owner".to_string(), "".to_string()]),
        Ok(vec![ExpandedTable {
            table_index: 1,
            local_column_name: "owner".to_string(),
            num_columns: 2,
            foreign_table_name: "users".to_string(),
            foreign_column_name: "uid".to_string(),
        }])
    );
    assert_eq!(
        expand_tables(&t, "nope", &vec![]),
        Err(RecordError::ApiRequiresTable)
    );
    // Not a foreign key, no such column, and a foreign table without record key.
    for c in ["body", "missing", "room"] {
        assert_eq!(
            expand_tables(&t, "messages", &vec![c.to_string()]),
            Err(RecordError::ApiRequiresTable)
        );
    }

    let row: Vec<i32> = (0..10).collect();
    assert_eq!(
        split_expanded_row(row, 4, &vec![2, 3]),
        vec![vec![0, 1, 2, 3], vec![4, 5], vec![6, 7, 8]]
    );
}

#[test]
fn query_parts() {
    assert_eq!(conflict_clause(None), "");
    assert_eq!(conflict_clause(Some(ConflictResolutionStrategy::Undefined)), "");
    assert_eq!(
        conflict_clause(Some(ConflictResolutionStrategy::Replace)),
        "OR REPLACE"
    );
    assert_eq!(conflict_clause(Some(ConflictResolutionStrategy::Ignore)), "OR IGNORE");
    assert_eq!(returning_columns(Some("id")), vec!["_rowid_", "id"]);
    assert_eq!(returning_columns(None), vec!["_rowid_"]);
    assert!(update_is_noop(&vec!["id".to_string()], "id"));
    assert!(update_is_noop(&vec![], "id"));
    assert!(!update_is_noop(&vec!["id".to_string(), "x".to_string()], "id"));
    assert_eq!(
        delete_record_query("t", "id"),
        r#"DELETE FROM "t" WHERE "id" = $1 RETURNING _rowid_"#
    );
    assert_eq!(
        file_column_query("file", "t", "id"),
        r#"SELECT "file" FROM "t" WHERE "id" = $1"#
    );
    assert!(replaced_files_need_cleanup(
        Some(ConflictResolutionStrategy::Replace),
        true
    ));
    assert!(!replaced_files_need_cleanup(
        Some(ConflictResolutionStrategy::Replace),
        false
    ));
    assert!(!replaced_files_need_cleanup(None, true));
}

#[test]
fn migration_names() {
    assert_eq!(next_migration_version(10, 20), 20);
    assert_eq!(next_migration_version(20, 20), 21);
    assert_eq!(next_migration_version(25, 20), 26);
    assert_eq!(migration_filename(1700000000, "create_foo"), "U1700000000__create_foo.sql");
}

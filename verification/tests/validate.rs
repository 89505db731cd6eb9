use trailbase::record_api::RecordApiState;
use trailbase::records::{ConfigError, Permission, PermissionFlag};
use trailbase::schema::{Column, ColumnDataType, ColumnOption};
use trailbase::validate::{
    check_api_schema, validate_record_api_config, RecordApiConfig, TargetInfo,
};

fn col(name: &str, options: Vec<ColumnOption>) -> Column {
    Column {
        name: name.to_string(),
        data_type: ColumnDataType::Text,
        options,
    }
}

fn schema() -> (Vec<TargetInfo>, Vec<TargetInfo>) {
    let tables = vec![
        TargetInfo {
            name: "messages".to_string(),
            temporary: false,
            record_pk: Some((0, "id".to_string())),
            columns: Some(vec![
                col("id", vec![ColumnOption::Unique { is_primary: true }]),
                col("owner", vec![ColumnOption::ForeignKey {
                    foreign_table: "users".to_string(),
                    referred_columns: vec!["id".to_string()],
                    on_delete: None,
                    on_update: None,
                }]),
                col("room", vec![ColumnOption::ForeignKey {
                    foreign_table: "_rooms".to_string(),
                    referred_columns: vec![],
                    on_delete: None,
                    on_update: None,
                }]),
                col("body", vec![ColumnOption::NotNull]),
                col("note", vec![ColumnOption::NotNull, ColumnOption::Default("''".to_string())]),
            ]),
        },
        TargetInfo {
            name: "users".to_string(),
            temporary: false,
            record_pk: Some((0, "id".to_string())),
            columns: Some(vec![col("id", vec![])]),
        },
        TargetInfo {
            name: "scratch".to_string(),
            temporary: true,
            record_pk: Some((0, "id".to_string())),
            columns: Some(vec![col("id", vec![])]),
        },
    ];
    let views = vec![TargetInfo {
        name: "complex_view".to_string(),
        temporary: false,
        record_pk: Some((0, "id".to_string())),
        columns: None,
    }];
    (tables, views)
}

fn config(name: &str, table: &str) -> RecordApiConfig {
    RecordApiConfig {
        name: Some(name.to_string()),
        table_name: Some(table.to_string()),
        ..Default::default()
    }
}

fn invalid(msg: &str) -> Result<String, ConfigError> {
    Err(ConfigError::Invalid(msg.to_string()))
}

#[test]
fn api_config_checks() {
    let (tables, views) = schema();
    assert_eq!(
        check_api_schema(&config("api", "messages"), &tables, &views),
        Ok("api".to_string())
    );
    assert_eq!(
        check_api_schema(&RecordApiConfig::default(), &tables, &views),
        invalid("RecordApi config misses name.")
    );
    assert_eq!(
        check_api_schema(&config("bad-name", "messages"), &tables, &views),
        invalid("Invalid api name: bad-name. Must only contain alphanumeric characters or '_'.")
    );
    assert_eq!(
        check_api_schema(&config("api", "scratch"), &tables, &views),
        invalid("Record APIs must not reference TEMPORARY tables")
    );
    assert_eq!(
        check_api_schema(&config("api", "nothing"), &tables, &views),
        invalid("Missing table or view for API: api")
    );
    assert_eq!(
        check_api_schema(&config("api", "complex_view"), &tables, &views),
        invalid("View for api 'api' is not a \"simple\" view, i.e unable to infer types for strong type-safety")
    );

    let mut c = config("api", "messages");
    c.excluded_columns = vec!["note".to_string()];
    assert_eq!(check_api_schema(&c, &tables, &views), Ok("api".to_string()));
    c.excluded_columns = vec!["body".to_string()];
    assert_eq!(
        check_api_schema(&c, &tables, &views),
        invalid("Cannot exclude column 'body' from API 'api', which is NOT NULL and w/o DEFAULT")
    );
    c.excluded_columns = vec!["id".to_string()];
    assert_eq!(
        check_api_schema(&c, &tables, &views),
        invalid("PK column 'id' cannot be excluded from API 'api'.")
    );

    let mut c = config("api", "messages");
    c.expand = vec!["owner".to_string()];
    assert_eq!(check_api_schema(&c, &tables, &views), Ok("api".to_string()));
    c.expand = vec!["room".to_string()];
    assert_eq!(
        check_api_schema(&c, &tables, &views),
        invalid("api expands reference 'room' to hidden table: _rooms")
    );
    c.expand = vec!["body".to_string()];
    assert_eq!(
        check_api_schema(&c, &tables, &views),
        invalid("api expands non-foreign-key column: body")
    );
    c.expand = vec!["_x".to_string()];
    assert_eq!(
        check_api_schema(&c, &tables, &views),
        invalid("api expands hidden column: _x")
    );
}

#[test]
fn api_config_rules() {
    let (tables, views) = schema();
    let mut c = config("api", "messages");
    c.read_access_rule = Some("_USER_.id IS NOT NULL".to_string());
    assert_eq!(
        validate_record_api_config(&c, &tables, &views),
        Ok("api".to_string())
    );
    c.delete_access_rule = Some("1, 1".to_string());
    assert_eq!(
        validate_record_api_config(&c, &tables, &views),
        invalid("Expected single column")
    );
}

#[test]
fn record_api_state_from_config() {
    let mut c = config("api", "messages");
    assert!(RecordApiState::from_config(&RecordApiConfig::default(), "t", "id", &vec![], true).is_err());
    c.acl_world = vec![PermissionFlag::Read.value()];
    c.acl_authenticated = vec![PermissionFlag::Create.value(), PermissionFlag::Read.value()];
    c.read_access_rule = Some("TRUE".to_string());
    c.expand = vec!["owner".to_string()];
    let s = RecordApiState::from_config(&c, "messages", "id", &vec![], true).unwrap();
    assert_eq!(s.api_name, "api");
    assert_eq!(s.acl, [2, 3]);
    assert!(!s.enable_subscriptions);
    assert_eq!(s.expand, Some(vec!["owner".to_string()]));
    assert_eq!(
        s.cached_access_query(Permission::Read),
        Some("SELECT\n  CAST((TRUE) AS INTEGER)\nFROM\n  (SELECT :__user_id AS id) AS _USER_,\n  (SELECT * FROM \"messages\" WHERE \"id\" = :__record_id) AS _ROW_\n")
    );
    assert_eq!(s.cached_access_query(Permission::Delete), None);
    assert_eq!(s.cached_access_query(Permission::Create), None);
}

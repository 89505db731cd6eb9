use trailbase::record_api::{
    build_named_params, column_index_by_name, record_access_answer, subscription_read_params,
    RecordApiState, RequestParams,
};
use trailbase::records::{Permission, PermissionFlag, RecordError, SqlValue};
use trailbase::schema::{Column, ColumnDataType};
use trailbase::validate::RecordApiConfig;

fn columns() -> Vec<Column> {
    ["id", "owner", "body"]
        .iter()
        .map(|n| Column {
            name: n.to_string(),
            data_type: ColumnDataType::Text,
            options: vec![],
        })
        .collect()
}

#[test]
fn column_lookup_by_name() {
    let mut cols = columns();
    assert_eq!(column_index_by_name(&cols, "owner"), Some(1));
    assert_eq!(column_index_by_name(&cols, "missing"), None);
    // A repeated name finds the last column.
    cols.push(Column {
        name: "id".to_string(),
        data_type: ColumnDataType::Integer,
        options: vec![],
    });
    assert_eq!(column_index_by_name(&cols, "id"), Some(3));
}

#[test]
fn access_query_params() {
    let cols = columns();
    let user = Some(vec![5u8]);
    let id = SqlValue::Integer(3);

    assert_eq!(
        build_named_params(Permission::Read, true, &cols, None, user.clone(), Some(&id)).unwrap(),
        vec![
            (":__user_id".to_string(), SqlValue::Blob(vec![5])),
            (":__record_id".to_string(), SqlValue::Integer(3)),
        ]
    );
    assert_eq!(
        build_named_params(Permission::Delete, false, &cols, None, None, None).unwrap(),
        vec![
            (":__user_id".to_string(), SqlValue::Null),
            (":__record_id".to_string(), SqlValue::Null),
        ]
    );

    let request = RequestParams {
        column_names: vec!["body".to_string(), "unknown".to_string()],
        named_params: vec![
            (":body".to_string(), SqlValue::Text("hi".to_string())),
            (":unknown".to_string(), SqlValue::Integer(1)),
        ],
    };
    assert_eq!(
        build_named_params(Permission::Create, true, &cols, Some(&request), user.clone(), None)
            .unwrap(),
        vec![
            (":id".to_string(), SqlValue::Null),
            (":owner".to_string(), SqlValue::Null),
            (":body".to_string(), SqlValue::Text("hi".to_string())),
            (":__user_id".to_string(), SqlValue::Blob(vec![5])),
            (":__record_id".to_string(), SqlValue::Null),
        ]
    );
    assert_eq!(
        build_named_params(Permission::Update, false, &cols, Some(&request), None, None),
        Err(RecordError::ApiRequiresTable)
    );
    assert_eq!(
        build_named_params(Permission::Update, true, &cols, None, None, None),
        Err(RecordError::Internal("missing req params".to_string()))
    );
}

#[test]
fn record_level_access_plan() {
    let mut c = RecordApiConfig::default();
    c.name = Some("api".to_string());
    c.table_name = Some("messages".to_string());
    c.acl_world = vec![PermissionFlag::Read.value()];
    c.acl_authenticated = vec![PermissionFlag::Delete.value()];
    c.read_access_rule = Some("TRUE".to_string());
    let state = RecordApiState::from_config(&c, "messages", "id", &columns(), true).unwrap();
    let cols = columns();

    // Anyone may read, subject to the read rule.
    let (query, params) = state
        .access_plan(Permission::Read, true, &cols, Some(&SqlValue::Integer(1)), None, None)
        .unwrap()
        .unwrap();
    assert_eq!(Some(query.as_str()), state.cached_access_query(Permission::Read));
    assert_eq!(params[1], (":__record_id".to_string(), SqlValue::Integer(1)));

    // Deleting needs a signed-in user; no rule means no query.
    assert_eq!(
        state.access_plan(Permission::Delete, true, &cols, None, None, None),
        Err(RecordError::Forbidden)
    );
    assert_eq!(
        state.access_plan(Permission::Delete, true, &cols, None, None, Some(vec![1])),
        Ok(None)
    );
    assert_eq!(
        state.access_plan(Permission::Create, true, &cols, None, None, Some(vec![1])),
        Err(RecordError::Forbidden)
    );

    assert_eq!(record_access_answer(Some(true)), Ok(()));
    assert_eq!(record_access_answer(Some(false)), Err(RecordError::Forbidden));
    assert_eq!(record_access_answer(None), Err(RecordError::Forbidden));
}

#[test]
fn subscription_read_check_params() {
    let record = vec![
        ("id".to_string(), SqlValue::Integer(1)),
        ("body".to_string(), SqlValue::Text("x".to_string())),
    ];
    assert_eq!(
        subscription_read_params(None, &record),
        vec![
            (":__user_id".to_string(), SqlValue::Null),
            (":id".to_string(), SqlValue::Integer(1)),
            (":body".to_string(), SqlValue::Text("x".to_string())),
        ]
    );
}

#[test]
fn write_rules_are_checked() {
    let mut c = RecordApiConfig::default();
    c.name = Some("api".to_string());
    c.table_name = Some("messages".to_string());
    c.acl_world = vec![
        PermissionFlag::Create.value(),
        PermissionFlag::Read.value(),
        PermissionFlag::Update.value(),
    ];
    c.create_access_rule = Some("FALSE".to_string());
    c.update_access_rule = Some("_ROW_.owner = _REQ_.owner".to_string());
    c.read_access_rule = Some("TRUE".to_string());
    let cols = columns();
    let state = RecordApiState::from_config(&c, "messages", "id", &cols, true).unwrap();

    assert_eq!(
        state.cached_access_query(Permission::Create),
        Some("SELECT\n  CAST((FALSE) AS INTEGER)\nFROM\n  (SELECT :__user_id AS id) AS _USER_,\n  (SELECT :id AS \"id\", :owner AS \"owner\", :body AS \"body\") AS _REQ_\n")
    );
    assert_eq!(
        state.cached_access_query(Permission::Update),
        Some("SELECT\n  CAST((_ROW_.owner = _REQ_.owner) AS INTEGER)\nFROM\n  (SELECT :__user_id AS id) AS _USER_,\n  (SELECT * FROM \"messages\" WHERE \"id\" = :__record_id) AS _ROW_,\n  (SELECT :id AS \"id\", :owner AS \"owner\", :body AS \"body\") AS _REQ_\n")
    );
    assert_eq!(
        state.subscription_read_access_query.as_deref(),
        Some("SELECT\n  CAST((TRUE) AS INTEGER)\nFROM\n  (SELECT :__user_id AS id) AS _USER_,\n  (SELECT :id AS \"id\", :owner AS \"owner\", :body AS \"body\") AS _ROW_\n")
    );

    // A create request is checked against the create rule with its fields.
    let req = RequestParams {
        column_names: vec!["body".to_string()],
        named_params: vec![(":body".to_string(), SqlValue::Text("hi".to_string()))],
    };
    let (query, params) = state
        .access_plan(Permission::Create, true, &cols, None, Some(&req), None)
        .unwrap()
        .unwrap();
    assert_eq!(Some(query.as_str()), state.cached_access_query(Permission::Create));
    assert_eq!(params[2], (":body".to_string(), SqlValue::Text("hi".to_string())));

    // Views have no subscription query and refuse writes.
    let view_state = RecordApiState::from_config(&c, "messages", "id", &cols, false).unwrap();
    assert_eq!(view_state.subscription_read_access_query, None);
    assert_eq!(
        view_state.access_plan(Permission::Update, false, &cols, None, Some(&req), None),
        Err(RecordError::ApiRequiresTable)
    );
}

fn sanitize_template(template: &str) {
    assert!(
        trailbase::sql_parse::sqlite3_parse_into_statement(template).is_ok(),
        "{template}"
    );
    assert!(!template.contains("   "), "{template}");
    assert!(!template.contains("\n\n"), "{template}");
}

fn state_with(
    create: Option<&str>,
    read: Option<&str>,
    update: Option<&str>,
    table: &str,
    pk: &str,
    column_names: &[&str],
) -> RecordApiState {
    let mut c = RecordApiConfig::default();
    c.name = Some("api".to_string());
    c.create_access_rule = create.map(|r| r.to_string());
    c.read_access_rule = read.map(|r| r.to_string());
    c.update_access_rule = update.map(|r| r.to_string());
    let cols: Vec<Column> = column_names
        .iter()
        .map(|n| Column {
            name: n.to_string(),
            data_type: ColumnDataType::Text,
            options: vec![],
        })
        .collect();
    RecordApiState::from_config(&c, table, pk, &cols, true).unwrap()
}

#[test]
fn test_create_record_access_query_template() {
    let s = state_with(Some("_USER_.id = X'05'"), None, None, "table", "index", &[]);
    sanitize_template(s.create_access_query.as_deref().unwrap());

    let s = state_with(
        Some(r#"_USER_.id = X'05' AND "index" = 'secret'"#),
        None,
        None,
        "table",
        "index",
        &["index"],
    );
    sanitize_template(s.create_access_query.as_deref().unwrap());
}

#[test]
fn test_update_record_access_query_template() {
    let s = state_with(
        None,
        None,
        Some(r#"_USER_.id = X'05' AND _ROW_."index" = 'secret'"#),
        "table",
        "index",
        &[],
    );
    sanitize_template(s.update_access_query.as_deref().unwrap());

    let s = state_with(
        None,
        None,
        Some(r#"_USER_.id = X'05' AND _ROW_."index" = _REQ_."index""#),
        "table",
        "index",
        &["index"],
    );
    sanitize_template(s.update_access_query.as_deref().unwrap());
}

#[test]
fn test_subscription_record_read_template() {
    let s = state_with(None, Some("TRUE"), None, "table", "index", &[]);
    sanitize_template(s.subscription_read_access_query.as_deref().unwrap());

    let s = state_with(
        None,
        Some(r#"_USER_.id = X'05' AND "index" = 'secret'"#),
        None,
        "table",
        "index",
        &["index"],
    );
    sanitize_template(s.subscription_read_access_query.as_deref().unwrap());
}

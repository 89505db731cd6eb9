use trailbase::json_params::{simple_json_value_to_param, JsonNumber, JsonValue};
use trailbase::list_records::{i64_text, list_cursor, plan_list_query, total_count};
use trailbase::listing::{parse_query, Cursor, Order, QueryParam, QueryParseResult, Qualifier};
use trailbase::records::{ParamsError, RecordError, SqlValue};
use trailbase::schema::{Column, ColumnDataType};

fn column(name: &str, data_type: ColumnDataType) -> Column {
    Column {
        name: name.to_string(),
        data_type,
        options: vec![],
    }
}

fn columns() -> Vec<Column> {
    vec![
        column("id", ColumnDataType::Integer),
        column("name", ColumnDataType::Text),
        column("owner", ColumnDataType::Blob),
    ]
}

#[test]
fn plan_list_query_defaults() {
    let plan = plan_list_query(
        &columns(),
        "id",
        None,
        None,
        None,
        QueryParseResult::default(),
    )
    .unwrap();
    assert_eq!(plan.read_access_clause, "TRUE");
    assert_eq!(plan.filter_clause, "TRUE");
    assert_eq!(plan.cursor_clause, "TRUE");
    assert_eq!(plan.order_clause, "_ROW_.\"id\" DESC");
    assert_eq!(
        plan.params,
        vec![
            (":__limit".to_string(), SqlValue::Integer(50)),
            (":__user_id".to_string(), SqlValue::Null),
        ]
    );
    assert_eq!(plan.expand, None);
    assert!(!plan.count);
}

#[test]
fn plan_list_query_full() {
    let query = parse_query(Some("limit=5&cursor=7&order=-name,id&count=true&name[like]=a%25"))
        .unwrap();
    let plan = plan_list_query(
        &columns(),
        "id",
        Some("_ROW_.owner = _USER_.id"),
        Some(vec![1, 2, 3]),
        None,
        query,
    )
    .unwrap();
    assert_eq!(plan.read_access_clause, "_ROW_.owner = _USER_.id");
    assert_eq!(plan.filter_clause, "name LIKE :__p0");
    assert_eq!(plan.cursor_clause, "_ROW_.\"id\" < :cursor");
    assert_eq!(plan.order_clause, "_ROW_.\"name\" DESC, _ROW_.\"id\" ASC");
    assert_eq!(
        plan.params,
        vec![
            (":__p0".to_string(), SqlValue::Text("a%".to_string())),
            (":__limit".to_string(), SqlValue::Integer(5)),
            (":__user_id".to_string(), SqlValue::Blob(vec![1, 2, 3])),
            (":cursor".to_string(), SqlValue::Integer(7)),
        ]
    );
    assert!(plan.count);
}

#[test]
fn plan_list_query_limit_is_capped() {
    let query = QueryParseResult {
        limit: Some(100000),
        ..Default::default()
    };
    let plan = plan_list_query(&columns(), "id", None, None, None, query).unwrap();
    assert_eq!(plan.params[0], (":__limit".to_string(), SqlValue::Integer(256)));
}

#[test]
fn plan_list_query_errors() {
    let bad_filter = QueryParseResult {
        params: Some(vec![(
            "unknown".to_string(),
            vec![QueryParam {
                value: "1".to_string(),
                qualifier: Some(Qualifier::Equal),
            }],
        )]),
        ..Default::default()
    };
    assert_eq!(
        plan_list_query(&columns(), "id", None, None, None, bad_filter).err(),
        Some(RecordError::BadRequest("Invalid filter params"))
    );

    let expand = || QueryParseResult {
        expand: Some(vec!["owner".to_string()]),
        ..Default::default()
    };
    assert_eq!(
        plan_list_query(&columns(), "id", None, None, None, expand()).err(),
        Some(RecordError::BadRequest("Invalid expansion"))
    );
    let other = vec!["name".to_string()];
    assert_eq!(
        plan_list_query(&columns(), "id", None, None, Some(&other), expand()).err(),
        Some(RecordError::BadRequest("Invalid expansion"))
    );
    let configured = vec!["name".to_string(), "owner".to_string()];
    let plan = plan_list_query(&columns(), "id", None, None, Some(&configured), expand()).unwrap();
    assert_eq!(plan.expand, Some(vec!["owner".to_string()]));
}

#[test]
fn plan_list_query_blob_cursor() {
    let query = QueryParseResult {
        cursor: Some(Cursor::Blob(vec![9; 16])),
        order: Some(vec![("name".to_string(), Order::Ascending)]),
        ..Default::default()
    };
    let plan = plan_list_query(&columns(), "id", None, None, None, query).unwrap();
    assert_eq!(plan.order_clause, "_ROW_.\"name\" ASC");
    // Ascending pages continue after the cursor.
    assert_eq!(plan.cursor_clause, "_ROW_.\"id\" > :cursor");
    assert_eq!(
        plan.params.last(),
        Some(&(":cursor".to_string(), SqlValue::Blob(vec![9; 16])))
    );
}

#[test]
fn next_page_cursor() {
    assert_eq!(list_cursor(&SqlValue::Integer(42)), Some("42".to_string()));
    assert_eq!(list_cursor(&SqlValue::Integer(-7)), Some("-7".to_string()));
    assert_eq!(
        list_cursor(&SqlValue::Blob(vec![0; 16])),
        Some("AAAAAAAAAAAAAAAAAAAAAA==".to_string())
    );
    assert_eq!(list_cursor(&SqlValue::Blob(vec![0; 4])), None);
    assert_eq!(list_cursor(&SqlValue::Text("x".to_string())), None);
    assert_eq!(list_cursor(&SqlValue::Null), None);
}

#[test]
fn integer_text() {
    assert_eq!(i64_text(0), "0");
    assert_eq!(i64_text(1234567), "1234567");
    assert_eq!(i64_text(-1), "-1");
    assert_eq!(i64_text(i64::MIN), i64::MIN.to_string());
    assert_eq!(i64_text(i64::MAX), i64::MAX.to_string());
}

#[test]
fn count_of_rows() {
    assert_eq!(total_count(None, None), Ok(None));
    assert_eq!(total_count(Some(false), Some(&SqlValue::Integer(3))), Ok(None));
    assert_eq!(total_count(Some(true), Some(&SqlValue::Integer(3))), Ok(Some(3)));
    assert!(matches!(
        total_count(Some(true), Some(&SqlValue::Null)),
        Err(RecordError::Internal(_))
    ));
    assert!(matches!(total_count(Some(true), None), Err(RecordError::Internal(_))));
}

#[test]
fn json_values_to_params() {
    let t = ColumnDataType::Integer;
    assert_eq!(simple_json_value_to_param(t, JsonValue::Null), Ok(SqlValue::Null));
    assert_eq!(
        simple_json_value_to_param(t, JsonValue::Bool(true)),
        Ok(SqlValue::Integer(1))
    );
    assert_eq!(
        simple_json_value_to_param(t, JsonValue::Bool(false)),
        Ok(SqlValue::Integer(0))
    );
    assert_eq!(
        simple_json_value_to_param(t, JsonValue::Number(JsonNumber::PosInt(5))),
        Ok(SqlValue::Integer(5))
    );
    assert_eq!(
        simple_json_value_to_param(t, JsonValue::Number(JsonNumber::NegInt(-5))),
        Ok(SqlValue::Integer(-5))
    );
    assert_eq!(
        simple_json_value_to_param(t, JsonValue::Number(JsonNumber::PosInt(u64::MAX))),
        Ok(SqlValue::Integer(-1))
    );
    assert_eq!(
        simple_json_value_to_param(
            ColumnDataType::Real,
            JsonValue::Number(JsonNumber::Float("1.5".to_string()))
        ),
        Ok(SqlValue::Real("1.5".to_string()))
    );
    assert_eq!(
        simple_json_value_to_param(t, JsonValue::String("12".to_string())),
        Ok(SqlValue::Integer(12))
    );
    assert_eq!(
        simple_json_value_to_param(t, JsonValue::String("x".to_string())),
        Err(ParamsError::ParseInt)
    );
    assert_eq!(
        simple_json_value_to_param(t, JsonValue::Object),
        Err(ParamsError::UnexpectedType(
            "Object",
            "Trivial type: Integer".to_string()
        ))
    );
    assert_eq!(
        simple_json_value_to_param(t, JsonValue::Array(vec![])),
        Err(ParamsError::UnexpectedType(
            "Array",
            "Trivial type: Integer".to_string()
        ))
    );
}

#[test]
fn json_arrays_to_blobs() {
    let n = |i: u64| JsonValue::Number(JsonNumber::PosInt(i));
    assert_eq!(
        simple_json_value_to_param(ColumnDataType::Blob, JsonValue::Array(vec![n(0), n(255)])),
        Ok(SqlValue::Blob(vec![0, 255]))
    );
    assert_eq!(
        simple_json_value_to_param(ColumnDataType::Blob, JsonValue::Array(vec![n(1), n(256)])),
        Err(ParamsError::UnexpectedType(
            "NonByteNumber",
            "Out-of-range int: 256".to_string()
        ))
    );
    assert_eq!(
        simple_json_value_to_param(
            ColumnDataType::Blob,
            JsonValue::Array(vec![JsonValue::Number(JsonNumber::NegInt(-1))])
        ),
        Err(ParamsError::UnexpectedType(
            "NonByteNumber",
            "Out-of-range int: -1".to_string()
        ))
    );
    assert_eq!(
        simple_json_value_to_param(
            ColumnDataType::Blob,
            JsonValue::Array(vec![JsonValue::Number(JsonNumber::Float("0.5".to_string()))])
        ),
        Err(ParamsError::UnexpectedType(
            "NonByteNumber",
            "Number type: Number(0.5)".to_string()
        ))
    );
    assert_eq!(
        simple_json_value_to_param(
            ColumnDataType::Blob,
            JsonValue::Array(vec![n(1), JsonValue::Null])
        ),
        Err(ParamsError::InhomogenousArray(
            "Expected number, got Null".to_string()
        ))
    );
}

fn sanitize_template(template: &str) {
    assert!(
        trailbase::sql_parse::sqlite3_parse_into_statement(template).is_ok(),
        "{template}"
    );
    assert!(!template.contains("\n\n"), "{template}");
}

fn list_plan(read: &str, order: &str, count: bool) -> trailbase::list_records::ListQueryPlan {
    trailbase::list_records::ListQueryPlan {
        read_access_clause: read.to_string(),
        filter_clause: "TRUE".to_string(),
        params: vec![],
        cursor_clause: "TRUE".to_string(),
        order_clause: order.to_string(),
        expand: None,
        count,
    }
}

#[test]
fn test_list_records_template() {
    let query = trailbase::list_records::list_query(
        "table",
        &vec!["a".to_string(), "index".to_string()],
        &list_plan("TRUE", "NULL", false),
        &vec![],
    );
    sanitize_template(&query);
    assert_eq!(
        query,
        "SELECT\n  _ROW_.\"a\", _ROW_.\"index\"\nFROM\n  (SELECT :__user_id AS id) AS _USER_,\n  (SELECT * FROM \"table\" WHERE TRUE) AS _ROW_\nWHERE\n  (TRUE) AND (TRUE)\nORDER BY\n  NULL\nLIMIT :__limit"
    );
}

#[test]
fn list_query_with_expansion_and_count() {
    let expanded = vec![trailbase::record_requests::ExpandedTable {
        table_index: 0,
        local_column_name: "index".to_string(),
        num_columns: 1,
        foreign_table_name: "other".to_string(),
        foreign_column_name: "index".to_string(),
    }];
    let query = trailbase::list_records::list_query(
        "table",
        &vec!["tid".to_string(), "drop".to_string(), "index".to_string()],
        &list_plan("_USER_.id != X'F000'", "tid", true),
        &expanded,
    );
    sanitize_template(&query);
    assert!(query.contains("_EXPAND_0_.*, total_count._value_"), "{query}");
    assert!(
        query.contains("LEFT JOIN \"other\" AS _EXPAND_0_ ON _ROW_.\"index\" = _EXPAND_0_.\"index\""),
        "{query}"
    );
}

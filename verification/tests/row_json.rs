use trailbase::records::{column_filter, SqlValue};
use trailbase::row_json::{row_fields, FieldJson, RowCell, RowJsonError};
use trailbase::schema::{Column, ColumnDataType, ColumnOption};

fn col(name: &str, data_type: ColumnDataType, options: Vec<ColumnOption>) -> Column {
    Column {
        name: name.to_string(),
        data_type,
        options,
    }
}

fn fk(table: &str) -> ColumnOption {
    ColumnOption::ForeignKey {
        foreign_table: table.to_string(),
        referred_columns: vec!["id".to_string()],
        on_delete: None,
        on_update: None,
    }
}

fn cell(name: &str, value: SqlValue) -> RowCell {
    RowCell {
        name: Some(name.to_string()),
        value: Some(value),
    }
}

fn columns() -> Vec<Column> {
    vec![
        col("id", ColumnDataType::Integer, vec![]),
        col("_hidden", ColumnDataType::Text, vec![]),
        col("owner", ColumnDataType::Blob, vec![fk("user")]),
        col("doc", ColumnDataType::Text, vec![]),
        col("note", ColumnDataType::Text, vec![]),
        col("other", ColumnDataType::Integer, vec![]),
    ]
}

#[test]
fn fields_of_a_row() {
    let row = vec![
        cell("id", SqlValue::Integer(1)),
        cell("_hidden", SqlValue::Text("x".to_string())),
        cell("owner", SqlValue::Blob(vec![7])),
        cell("doc", SqlValue::Text("{\"a\":1}".to_string())),
        cell("note", SqlValue::Text("plain".to_string())),
        cell("other", SqlValue::Null),
    ];
    let is_json = vec![false, false, false, true, false, false];
    let expand = vec![("owner".to_string(), Some("{\"id\":7}".to_string()))];
    assert_eq!(
        row_fields(&columns(), &is_json, &row, column_filter, Some(&expand)),
        Ok(vec![
            ("id".to_string(), FieldJson::Plain(SqlValue::Integer(1))),
            (
                "owner".to_string(),
                FieldJson::Expanded {
                    id: SqlValue::Blob(vec![7]),
                    data: Some("{\"id\":7}".to_string())
                }
            ),
            (
                "doc".to_string(),
                FieldJson::JsonText("{\"a\":1}".to_string())
            ),
            (
                "note".to_string(),
                FieldJson::Plain(SqlValue::Text("plain".to_string()))
            ),
            ("other".to_string(), FieldJson::Null),
        ])
    );
}

#[test]
fn expansion_needs_a_foreign_key() {
    let row = vec![cell("id", SqlValue::Integer(1))];
    let expand = vec![("id".to_string(), None)];
    assert_eq!(
        row_fields(&columns(), &vec![false; 6], &row, column_filter, Some(&expand)),
        Ok(vec![("id".to_string(), FieldJson::Plain(SqlValue::Integer(1)))])
    );
    let row = vec![
        cell("id", SqlValue::Integer(1)),
        RowCell {
            name: Some("_hidden".to_string()),
            value: None,
        },
        cell("owner", SqlValue::Blob(vec![9])),
    ];
    let expand = vec![("owner".to_string(), None)];
    assert_eq!(
        row_fields(&columns(), &vec![false; 6], &row, column_filter, Some(&expand)),
        Ok(vec![
            ("id".to_string(), FieldJson::Plain(SqlValue::Integer(1))),
            (
                "owner".to_string(),
                FieldJson::Expanded {
                    id: SqlValue::Blob(vec![9]),
                    data: None
                }
            ),
        ])
    );
    assert_eq!(
        row_fields(&columns(), &vec![false; 6], &row, column_filter, None),
        Ok(vec![
            ("id".to_string(), FieldJson::Plain(SqlValue::Integer(1))),
            ("owner".to_string(), FieldJson::Plain(SqlValue::Blob(vec![9]))),
        ])
    );
}

#[test]
fn row_errors_in_order() {
    let row = vec![
        cell("id", SqlValue::Integer(1)),
        RowCell {
            name: None,
            value: Some(SqlValue::Null),
        },
        RowCell {
            name: Some("owner".to_string()),
            value: None,
        },
    ];
    assert_eq!(
        row_fields(&columns(), &vec![false; 6], &row, column_filter, None),
        Err(RowJsonError::MissingColumnName)
    );
    let row = vec![
        cell("id", SqlValue::Integer(1)),
        RowCell {
            name: Some("_hidden".to_string()),
            value: None,
        },
        RowCell {
            name: Some("owner".to_string()),
            value: None,
        },
    ];
    assert_eq!(
        row_fields(&columns(), &vec![false; 6], &row, column_filter, None),
        Err(RowJsonError::ValueNotFound)
    );
}

#[test]
fn expanded_foreign_key_holds_id_and_data() {
    let columns = vec![
        col("id", ColumnDataType::Integer, vec![]),
        col("fk", ColumnDataType::Integer, vec![fk("foreign_table")]),
    ];
    let row = vec![cell("id", SqlValue::Integer(1)), cell("fk", SqlValue::Integer(1))];
    let without = vec![("fk".to_string(), None)];
    assert_eq!(
        row_fields(&columns, &vec![false; 2], &row, column_filter, Some(&without)),
        Ok(vec![
            ("id".to_string(), FieldJson::Plain(SqlValue::Integer(1))),
            (
                "fk".to_string(),
                FieldJson::Expanded {
                    id: SqlValue::Integer(1),
                    data: None
                }
            ),
        ])
    );
    let with = vec![("fk".to_string(), Some("{\"id\":1}".to_string()))];
    assert_eq!(
        row_fields(&columns, &vec![false; 2], &row, column_filter, Some(&with)),
        Ok(vec![
            ("id".to_string(), FieldJson::Plain(SqlValue::Integer(1))),
            (
                "fk".to_string(),
                FieldJson::Expanded {
                    id: SqlValue::Integer(1),
                    data: Some("{\"id\":1}".to_string())
                }
            ),
        ])
    );
}

#[test]
fn an_accept_all_filter_shows_hidden_columns() {
    let row = vec![
        cell("id", SqlValue::Integer(1)),
        cell("_hidden", SqlValue::Text("x".to_string())),
    ];
    assert_eq!(
        row_fields(&columns(), &vec![false; 6], &row, |_: &str| true, None),
        Ok(vec![
            ("id".to_string(), FieldJson::Plain(SqlValue::Integer(1))),
            (
                "_hidden".to_string(),
                FieldJson::Plain(SqlValue::Text("x".to_string()))
            ),
        ])
    );
    assert_eq!(
        row_fields(&columns(), &vec![false; 6], &row, |_: &str| false, None),
        Ok(vec![])
    );
}

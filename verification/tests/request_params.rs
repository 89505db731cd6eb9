use trailbase::json_params::{JsonNumber, JsonValue};
use trailbase::records::{ParamsError, SqlValue};
use trailbase::request_params::{
    json_param, multipart_file_columns, plan_params, JsonColumnMeta, JsonParam, PlannedParam,
};
use trailbase::schema::{Column, ColumnDataType};

fn col(name: &str, data_type: ColumnDataType) -> Column {
    Column {
        name: name.to_string(),
        data_type,
        options: vec![],
    }
}

fn schema(name: &str) -> Option<JsonColumnMeta> {
    Some(JsonColumnMeta::SchemaName(name.to_string()))
}

fn num(i: u64) -> JsonValue {
    JsonValue::Number(JsonNumber::PosInt(i))
}

#[test]
fn object_needs_text_column_with_schema() {
    assert_eq!(
        json_param(&col("x", ColumnDataType::Integer), &None, JsonValue::Object),
        Err(ParamsError::NestedObject(
            "Column data mismatch for: x".to_string()
        ))
    );
    assert_eq!(
        json_param(&col("x", ColumnDataType::Text), &None, JsonValue::Object),
        Err(ParamsError::NestedObject(
            "Plain text column w/o JSON: x".to_string()
        ))
    );
    assert_eq!(
        json_param(
            &col("x", ColumnDataType::Text),
            &schema("std.FileUpload"),
            JsonValue::Object
        ),
        Ok(JsonParam::FileUpload)
    );
    assert_eq!(
        json_param(
            &col("x", ColumnDataType::Text),
            &Some(JsonColumnMeta::Pattern),
            JsonValue::Object
        ),
        Ok(JsonParam::SchemaText)
    );
}

#[test]
fn arrays_by_column_kind() {
    assert_eq!(
        json_param(
            &col("b", ColumnDataType::Blob),
            &None,
            JsonValue::Array(vec![num(1), num(2)])
        ),
        Ok(JsonParam::Value(SqlValue::Blob(vec![1, 2])))
    );
    assert_eq!(
        json_param(
            &col("f", ColumnDataType::Text),
            &schema("std.FileUploads"),
            JsonValue::Array(vec![])
        ),
        Ok(JsonParam::FileUploads)
    );
    assert_eq!(
        json_param(
            &col("f", ColumnDataType::Text),
            &schema("std.FileUpload"),
            JsonValue::Array(vec![])
        ),
        Ok(JsonParam::SchemaText)
    );
    assert_eq!(
        json_param(
            &col("t", ColumnDataType::Text),
            &None,
            JsonValue::Array(vec![])
        ),
        Err(ParamsError::NestedArray(
            "Received nested array for unsuitable column: t".to_string()
        ))
    );
    assert_eq!(
        json_param(
            &col("i", ColumnDataType::Integer),
            &schema("s"),
            JsonValue::Array(vec![])
        ),
        Err(ParamsError::NestedArray(
            "Received nested array for unsuitable column: i".to_string()
        ))
    );
}

#[test]
fn flat_values_are_converted() {
    assert_eq!(
        json_param(&col("i", ColumnDataType::Integer), &None, num(7)),
        Ok(JsonParam::Value(SqlValue::Integer(7)))
    );
    assert_eq!(
        json_param(
            &col("t", ColumnDataType::Text),
            &None,
            JsonValue::String("hi".to_string())
        ),
        Ok(JsonParam::Value(SqlValue::Text("hi".to_string())))
    );
}

#[test]
fn plan_skips_unknown_fields_and_keeps_order() {
    let cols = vec![
        col("id", ColumnDataType::Integer),
        col("name", ColumnDataType::Text),
        col("file", ColumnDataType::Text),
    ];
    let metas = vec![None, None, schema("std.FileUpload")];
    let row = vec![
        ("name".to_string(), JsonValue::String("n".to_string())),
        ("unknown".to_string(), JsonValue::Object),
        ("file".to_string(), JsonValue::Object),
        ("id".to_string(), num(3)),
    ];
    assert_eq!(
        plan_params(&cols, &metas, row),
        Ok(vec![
            PlannedParam {
                index: 1,
                name: "name".to_string(),
                param: JsonParam::Value(SqlValue::Text("n".to_string())),
            },
            PlannedParam {
                index: 2,
                name: "file".to_string(),
                param: JsonParam::FileUpload,
            },
            PlannedParam {
                index: 0,
                name: "id".to_string(),
                param: JsonParam::Value(SqlValue::Integer(3)),
            },
        ])
    );
}

#[test]
fn plan_stops_at_first_error() {
    let cols = vec![
        col("a", ColumnDataType::Integer),
        col("b", ColumnDataType::Text),
    ];
    let metas = vec![None, None];
    let row = vec![
        ("a".to_string(), JsonValue::Object),
        ("b".to_string(), JsonValue::Array(vec![])),
    ];
    assert_eq!(
        plan_params(&cols, &metas, row),
        Err(ParamsError::NestedObject(
            "Column data mismatch for: a".to_string()
        ))
    );
}

#[test]
fn multipart_files_need_names() {
    let cols = vec![col("file", ColumnDataType::Text)];
    let metas = vec![schema("std.FileUpload")];
    assert_eq!(
        multipart_file_columns(&cols, &metas, &vec![Some("file".to_string()), None]),
        Err(ParamsError::Column(
            "Multipart form upload missing name property"
        ))
    );
}

#[test]
fn multipart_single_file_column_takes_one() {
    let cols = vec![
        col("file", ColumnDataType::Text),
        col("files", ColumnDataType::Text),
    ];
    let metas = vec![schema("std.FileUpload"), schema("std.FileUploads")];
    assert_eq!(
        multipart_file_columns(
            &cols,
            &metas,
            &vec![
                Some("files".to_string()),
                Some("other".to_string()),
                Some("file".to_string()),
                Some("files".to_string())
            ]
        ),
        Ok(vec![1, 0, 1])
    );
    assert_eq!(
        multipart_file_columns(
            &cols,
            &metas,
            &vec![Some("file".to_string()), Some("file".to_string())]
        ),
        Err(ParamsError::Column(
            "Collision: too many files for std.FileUpload"
        ))
    );
}

#[test]
fn multipart_needs_file_schema() {
    let cols = vec![
        col("plain", ColumnDataType::Text),
        col("doc", ColumnDataType::Text),
    ];
    let metas = vec![None, schema("my.Schema")];
    assert_eq!(
        multipart_file_columns(&cols, &metas, &vec![Some("plain".to_string())]),
        Err(ParamsError::Column("Expected json column"))
    );
    assert_eq!(
        multipart_file_columns(&cols, &metas, &vec![Some("doc".to_string())]),
        Err(ParamsError::Column("Mismatching JSON schema"))
    );
}

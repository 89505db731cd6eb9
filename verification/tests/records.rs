use trailbase::records::{
    build_read_delete_schema_query, check_table_level_access, column_filter, convert_acl,
    has_access, id_to_sql, json_string_to_value, prefix_colon, validate_record_api_name, Entity,
    ParamsError, Permission, PermissionFlag, RecordError, SqlValue, validate_rule,
};
use trailbase::schema::ColumnDataType;
use trailbase::util::id_to_b64;

fn grants(flags: u8, p: Permission) -> bool {
    (flags & p.bit()) > 0
}

#[test]
fn test_acl_conversion() {
    {
        let acl = convert_acl(&vec![PermissionFlag::Read.value()]);
        assert!(grants(acl, Permission::Read));
    }

    {
        let acl = convert_acl(&vec![
            PermissionFlag::Read.value(),
            PermissionFlag::Create.value(),
        ]);
        assert!(grants(acl, Permission::Read));
        assert!(grants(acl, Permission::Create));
    }

    {
        let acl = convert_acl(&vec![
            PermissionFlag::Delete.value(),
            PermissionFlag::Update.value(),
        ]);
        assert!(grants(acl, Permission::Delete));
        assert!(grants(acl, Permission::Update), "ACL: {acl}");
    }
}

#[test]
fn acl_grants_only_listed_permissions() {
    let acl = convert_acl(&vec![PermissionFlag::Read.value(), PermissionFlag::Schema.value()]);
    assert_eq!(acl, 2 | 16);
    assert!(!grants(acl, Permission::Create));
    assert!(!grants(acl, Permission::Delete));
    assert_eq!(convert_acl(&vec![]), 0);
    // Only the low byte of a flag counts.
    assert_eq!(convert_acl(&vec![0x102]), 2);
}

#[test]
fn table_level_access() {
    let acl = [convert_acl(&vec![PermissionFlag::Read.value()]), convert_acl(&vec![
        PermissionFlag::Create.value(),
    ])];
    assert!(has_access(&acl, Entity::World, Permission::Read));
    assert!(!has_access(&acl, Entity::World, Permission::Create));
    assert!(has_access(&acl, Entity::Authenticated, Permission::Create));

    assert_eq!(check_table_level_access(&acl, Permission::Read, false), Ok(()));
    assert_eq!(
        check_table_level_access(&acl, Permission::Create, false),
        Err(RecordError::Forbidden)
    );
    assert_eq!(check_table_level_access(&acl, Permission::Create, true), Ok(()));
    assert_eq!(
        check_table_level_access(&acl, Permission::Delete, true),
        Err(RecordError::Forbidden)
    );
}

#[test]
fn read_delete_schema_access_query() {
    let q = build_read_delete_schema_query("table", "id", "_USER_.id = _ROW_.owner");
    assert_eq!(
        q,
        "SELECT\n  CAST((_USER_.id = _ROW_.owner) AS INTEGER)\nFROM\n  (SELECT :__user_id AS id) AS _USER_,\n  (SELECT * FROM \"table\" WHERE \"id\" = :__record_id) AS _ROW_\n"
    );
}

#[test]
fn record_ids() {
    let id: [u8; 16] = [1; 16];
    assert_eq!(
        id_to_sql(ColumnDataType::Blob, &id_to_b64(&id)),
        Ok(SqlValue::Blob(id.to_vec()))
    );
    assert_eq!(
        id_to_sql(ColumnDataType::Blob, "01890a5d-ac96-774b-bcce-b302099a8057"),
        Ok(SqlValue::Blob(vec![
            0x01, 0x89, 0x0a, 0x5d, 0xac, 0x96, 0x77, 0x4b, 0xbc, 0xce, 0xb3, 0x02, 0x09, 0x9a,
            0x80, 0x57
        ]))
    );
    assert_eq!(
        id_to_sql(ColumnDataType::Blob, "short"),
        Err(RecordError::BadRequest("Invalid id"))
    );
    assert_eq!(id_to_sql(ColumnDataType::Integer, "42"), Ok(SqlValue::Integer(42)));
    assert_eq!(
        id_to_sql(ColumnDataType::Integer, "4x"),
        Err(RecordError::BadRequest("Invalid id"))
    );
    assert_eq!(
        id_to_sql(ColumnDataType::Text, "42"),
        Err(RecordError::BadRequest("Invalid id"))
    );
}

#[test]
fn request_texts_to_sql_values() {
    assert_eq!(
        json_string_to_value(ColumnDataType::Text, "a".to_string()),
        Ok(SqlValue::Text("a".to_string()))
    );
    assert_eq!(
        json_string_to_value(ColumnDataType::Int8, "-3".to_string()),
        Ok(SqlValue::Integer(-3))
    );
    assert_eq!(
        json_string_to_value(ColumnDataType::Integer, "x".to_string()),
        Err(ParamsError::ParseInt)
    );
    assert_eq!(
        json_string_to_value(ColumnDataType::Float, "2.5".to_string()),
        Ok(SqlValue::Real("2.5".to_string()))
    );
    assert_eq!(
        json_string_to_value(ColumnDataType::Real, "x".to_string()),
        Err(ParamsError::ParseFloat)
    );
    assert_eq!(
        json_string_to_value(ColumnDataType::Blob, "AQI=".to_string()),
        Ok(SqlValue::Blob(vec![1, 2]))
    );
    assert_eq!(
        json_string_to_value(ColumnDataType::Blob, "!".to_string()),
        Err(ParamsError::Decode)
    );
    assert_eq!(
        json_string_to_value(ColumnDataType::JSONB, "{}".to_string()),
        Ok(SqlValue::Blob(b"{}".to_vec()))
    );
    assert_eq!(
        json_string_to_value(ColumnDataType::Null, "x".to_string()),
        Ok(SqlValue::Null)
    );
}

#[test]
fn names_and_placeholders() {
    assert!(column_filter("name"));
    assert!(!column_filter("_hidden"));
    assert_eq!(prefix_colon("col"), ":col");
    assert!(validate_record_api_name("my_api1").is_ok());
    assert!(validate_record_api_name("").is_err());
    assert!(validate_record_api_name("my-api").is_err());
}

#[test]
fn test_validate_rule() {
    assert!(validate_rule("").is_err());
    assert!(validate_rule("1, 1").is_err());
    assert!(validate_rule("1").is_ok());

    validate_rule("_USER_.id IS NOT NULL").unwrap();
    validate_rule("_USER_.id IS NOT NULL AND _ROW_.userid = _USER_.id").unwrap();
    validate_rule("_USER_.id IS NOT NULL AND _REQ_.field IS NOT NULL").unwrap();
}

#[test]
fn validate_rule_messages() {
    assert_eq!(
        validate_rule("1, 1"),
        Err("Expected single column".to_string())
    );
    let m = validate_rule("((").unwrap_err();
    assert!(
        m.starts_with("'((' not a valid SQL expression: "),
        "{m}"
    );
}

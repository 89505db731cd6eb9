use trailbase::records::SqlValue;
use trailbase::sql_functions::{
    is_email, is_json, is_uuid, is_uuid_v7, unpack_uuid_or_null, uuid_parse, uuid_text, uuid_v7,
    SqlFunctionError,
};

#[test]
fn test_uuid() {
    // A fresh id is a UUID.
    let id = uuid_v7();
    uuid::Uuid::from_slice(&id).unwrap();

    // NULL passes both checks, so that nullable columns can use them.
    assert!(is_uuid(&SqlValue::Null));
    assert_eq!(is_uuid_v7(&SqlValue::Null), Ok(true));

    // An empty blob is no UUID.
    assert!(!is_uuid(&SqlValue::Blob(b"".to_vec())));

    // Neither are 8 bytes.
    assert_eq!(
        is_uuid_v7(&SqlValue::Blob(vec![0, 0, 1, 2, 3, 4, 5, 6])),
        Err(SqlFunctionError::InvalidUuid)
    );

    {
        let uuid = uuid::Uuid::now_v7();
        let parsed = uuid_parse(&SqlValue::Text(uuid.to_string())).unwrap();
        assert!(is_uuid(&SqlValue::Blob(parsed.clone())));
        assert_eq!(is_uuid_v7(&SqlValue::Blob(parsed.clone())), Ok(true));
        assert_eq!(uuid::Uuid::from_slice(&parsed).unwrap(), uuid);
    }

    {
        let text = uuid_text(&SqlValue::Blob(uuid_v7())).unwrap();
        let parsed = uuid_parse(&SqlValue::Text(text)).unwrap();
        assert_eq!(uuid::Uuid::from_slice(&parsed).unwrap().get_version_num(), 7);
    }
}

#[test]
fn uuid_functions_refuse_other_types() {
    assert_eq!(
        unpack_uuid_or_null(&SqlValue::Integer(1)),
        Err(SqlFunctionError::UnexpectedType(
            "Expected BLOB column type.".to_string()
        ))
    );
    assert_eq!(
        uuid_text(&SqlValue::Text("x".to_string())),
        Err(SqlFunctionError::UnexpectedType(
            "Expected UUID blob, got Text".to_string()
        ))
    );
    assert_eq!(
        uuid_parse(&SqlValue::Blob(vec![1])),
        Err(SqlFunctionError::UnexpectedType(
            "Expected text, got Blob".to_string()
        ))
    );
    assert_eq!(
        uuid_parse(&SqlValue::Text("not a uuid".to_string())),
        Err(SqlFunctionError::InvalidUuid)
    );
    let bytes: Vec<u8> = (0u8..16).collect();
    assert_eq!(
        uuid_text(&SqlValue::Blob(bytes)),
        Ok("00010203-0405-0607-0809-0a0b0c0d0e0f".to_string())
    );
    // Version 4 is no version 7.
    let v4 = uuid::Uuid::new_v4();
    assert_eq!(is_uuid_v7(&SqlValue::Blob(v4.as_bytes().to_vec())), Ok(false));
}

#[test]
fn test_is_json() {
    assert_eq!(is_json(&SqlValue::Text("{}".to_string())), Ok(true));
    assert_eq!(
        is_json(&SqlValue::Text("{\"foo\": 42, \"bar\": {}, \"baz\": []}".to_string())),
        Ok(true)
    );
    assert_eq!(is_json(&SqlValue::Text("".to_string())), Ok(false));
    assert_eq!(is_json(&SqlValue::Null), Ok(true));
    assert_eq!(is_json(&SqlValue::Integer(1)), Err(SqlFunctionError::NotText));
}

#[test]
fn test_is_email() {
    assert_eq!(
        is_email(&SqlValue::Text("test@test.com".to_string())),
        Ok(true)
    );
    assert_eq!(is_email(&SqlValue::Null), Ok(true));
    assert_eq!(
        is_email(&SqlValue::Text("not an email".to_string())),
        Ok(false)
    );
}

#[test]
fn is_email_refuses_non_text() {
    assert_eq!(is_email(&SqlValue::Integer(3)), Err(SqlFunctionError::NotText));
    assert_eq!(is_email(&SqlValue::Text(String::new())), Ok(false));
}

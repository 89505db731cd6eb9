use trailbase::server::{
    check_admin_api_access, cors_origins, has_independent_admin_router, initial_admin_needed,
    initial_admin_password, schema_entries, AdminAccessError, CorsOrigins, INITIAL_ADMIN_EMAIL,
};

#[test]
fn admin_router_and_origins() {
    assert!(!has_independent_admin_router("localhost:4000", None));
    assert!(!has_independent_admin_router("localhost:4000", Some("localhost:4000")));
    assert!(has_independent_admin_router("localhost:4000", Some("localhost:4001")));

    let allowed = vec!["https://a.org".to_string(), "bad\u{7f}".to_string()];
    assert_eq!(cors_origins(true, &allowed), CorsOrigins::VeryPermissive);
    assert_eq!(
        cors_origins(false, &allowed),
        CorsOrigins::List(vec!["https://a.org".to_string()])
    );
    let any = vec!["https://a.org".to_string(), "*".to_string()];
    assert_eq!(cors_origins(false, &any), CorsOrigins::MirrorRequest);
}

#[test]
fn admin_api_access() {
    assert_eq!(
        check_admin_api_access(false, Some("t"), "t"),
        Err(AdminAccessError::Forbidden)
    );
    assert_eq!(
        check_admin_api_access(true, None, "t"),
        Err(AdminAccessError::BadRequest("admin APIs require csrf header"))
    );
    assert_eq!(
        check_admin_api_access(true, Some("x"), "t"),
        Err(AdminAccessError::BadRequest("invalid CSRF token"))
    );
    assert_eq!(check_admin_api_access(true, Some("t"), "t"), Ok(()));
}

#[test]
fn first_admin_and_schemas() {
    assert_eq!(INITIAL_ADMIN_EMAIL, "admin@localhost");
    assert!(initial_admin_needed(true, 0));
    assert!(!initial_admin_needed(true, 1));
    assert!(!initial_admin_needed(false, 0));
    let p = initial_admin_password();
    assert_eq!(p.len(), 20);
    assert!(p.chars().all(|c| c.is_ascii_alphanumeric()));

    let entries = vec![
        (Some("a".to_string()), Some("{\"type\": \"string\"}".to_string())),
        (None, Some("{}".to_string())),
        (Some("b".to_string()), None),
        (Some("c".to_string()), Some("not json".to_string())),
    ];
    assert_eq!(
        schema_entries(&entries),
        vec![("a".to_string(), "{\"type\": \"string\"}".to_string())]
    );
}

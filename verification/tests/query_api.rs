use trailbase::query_api::{
    access_answer, bind_query_params, select_query, QueryApi, QueryApiAcl, QueryApiConfig,
    QueryApiParameter, QueryApiParameterType, QueryError,
};
use trailbase::records::SqlValue;

fn config() -> QueryApiConfig {
    QueryApiConfig {
        name: Some("test".to_string()),
        virtual_table_name: Some("test_vtable".to_string()),
        params: vec![
            QueryApiParameter {
                name: Some("param0".to_string()),
                param_type: Some(QueryApiParameterType::Text),
            },
            // Unknown type: dropped.
            QueryApiParameter {
                name: Some("dropped".to_string()),
                param_type: None,
            },
            QueryApiParameter {
                name: Some("n".to_string()),
                param_type: Some(QueryApiParameterType::Integer),
            },
        ],
        acl: Some(QueryApiAcl::World),
        access_rule: None,
    }
}

#[test]
fn query_api_from_config() {
    let api = QueryApi::from(&config()).unwrap();
    assert_eq!(api.api_name(), "test");
    assert_eq!(api.virtual_table_name(), "test_vtable");
    assert_eq!(
        api.params(),
        &vec![
            ("param0".to_string(), QueryApiParameterType::Text),
            ("n".to_string(), QueryApiParameterType::Integer),
        ]
    );

    let mut c = config();
    c.virtual_table_name = None;
    assert_eq!(QueryApi::from(&c), Err("Missing vtable name".to_string()));
    c.name = None;
    assert_eq!(QueryApi::from(&c), Err("Missing name".to_string()));
}

#[test]
fn query_params_are_bound_by_type() {
    let api = QueryApi::from(&config()).unwrap();
    let params = bind_query_params(api.params(), Some("param0=test_param")).unwrap();
    assert_eq!(
        params,
        vec![
            (":param0".to_string(), SqlValue::Text("test_param".to_string())),
            (":n".to_string(), SqlValue::Null),
        ]
    );
    assert_eq!(
        select_query(api.virtual_table_name(), &params),
        "SELECT * FROM test_vtable(:param0, :n) WHERE TRUE LIMIT 128"
    );

    // The last value of a name counts.
    let params = bind_query_params(api.params(), Some("n=1&n=2")).unwrap();
    assert_eq!(params[1], (":n".to_string(), SqlValue::Integer(2)));

    assert_eq!(
        bind_query_params(api.params(), Some("n=x")),
        Err(QueryError::BadRequest("expected i64"))
    );
    assert_eq!(
        bind_query_params(api.params(), Some("other=1")),
        Err(QueryError::BadRequest("invalid query param"))
    );
    assert_eq!(
        bind_query_params(api.params(), None).unwrap(),
        vec![
            (":param0".to_string(), SqlValue::Null),
            (":n".to_string(), SqlValue::Null),
        ]
    );

    let typed = vec![
        ("b".to_string(), QueryApiParameterType::Blob),
        ("r".to_string(), QueryApiParameterType::Real),
    ];
    assert_eq!(
        bind_query_params(&typed, Some("b=AQI%3D&r=1.5")).unwrap(),
        vec![
            (":b".to_string(), SqlValue::Blob(vec![1, 2])),
            (":r".to_string(), SqlValue::Real("1.5".to_string())),
        ]
    );
    assert_eq!(
        bind_query_params(&typed, Some("b=!!")),
        Err(QueryError::BadRequest("not b64"))
    );
    assert_eq!(
        bind_query_params(&typed, Some("r=abc")),
        Err(QueryError::BadRequest("expected f64"))
    );
}

#[test]
fn query_api_access() {
    let mut c = config();
    let params = vec![(":param0".to_string(), SqlValue::Text("x".to_string()))];

    c.acl = None;
    let api = QueryApi::from(&c).unwrap();
    assert_eq!(api.access_plan(&params, None), Err(QueryError::Forbidden));

    c.acl = Some(QueryApiAcl::Undefined);
    let api = QueryApi::from(&c).unwrap();
    assert_eq!(api.access_plan(&params, Some(vec![1])), Err(QueryError::Forbidden));

    c.acl = Some(QueryApiAcl::Authenticated);
    let api = QueryApi::from(&c).unwrap();
    assert_eq!(api.access_plan(&params, None), Err(QueryError::Forbidden));
    assert_eq!(api.access_plan(&params, Some(vec![1])), Ok(None));

    c.access_rule = Some("_USER_.id IS NOT NULL".to_string());
    let api = QueryApi::from(&c).unwrap();
    let (query, query_params) = api.access_plan(&params, Some(vec![7])).unwrap().unwrap();
    assert_eq!(
        query,
        "\n              SELECT\n                (_USER_.id IS NOT NULL)\n              FROM\n                (SELECT :__user_id AS id) AS _USER_,\n                (SELECT :param0 AS param0) AS _PARAMS_\n            "
    );
    assert_eq!(
        query_params,
        vec![
            (":param0".to_string(), SqlValue::Text("x".to_string())),
            (":__user_id".to_string(), SqlValue::Blob(vec![7])),
        ]
    );

    assert_eq!(access_answer(Some(true)), Ok(()));
    assert_eq!(access_answer(Some(false)), Err(QueryError::Forbidden));
    assert_eq!(access_answer(None), Err(QueryError::Forbidden));
}

use trailbase::listing::{
    build_filter_where_clause, limit_or_default, parse_bool, parse_query,
    split_key_into_col_and_op, Cursor, Order, QueryParam, Qualifier, WhereClauseError,
};
use trailbase::records::SqlValue;
use trailbase::schema::{Column, ColumnDataType};
use trailbase::util::id_to_b64;

fn some_pair(col: &str, op: Option<&str>) -> Option<(String, Option<String>)> {
    Some((col.to_string(), op.map(|o| o.to_string())))
}

#[test]
fn test_op_splitting_regex() {
    assert_eq!(split_key_into_col_and_op("o82@!&#"), None);
    assert_eq!(split_key_into_col_and_op("a b"), None);

    // Check valid column names
    assert_eq!(split_key_into_col_and_op("foo"), some_pair("foo", None));
    assert_eq!(split_key_into_col_and_op("_foo"), some_pair("_foo", None));

    // Check with ops
    assert_eq!(
        split_key_into_col_and_op("_foo[gte]"),
        some_pair("_foo", Some("gte"))
    );
    assert_eq!(split_key_into_col_and_op("_foo[$!]"), None);
}

#[test]
fn test_query_parsing() {
    assert!(parse_query(None).is_ok());
    assert!(parse_query(Some("")).is_ok());

    {
        let cursor: [u8; 16] = [5; 16];
        let query = Some(format!(
            "limit=10&cursor={cursor}&order=%2bcol0,-col1,col2",
            cursor = id_to_b64(&cursor)
        ));
        let result = parse_query(query.as_deref()).unwrap();

        assert_eq!(result.limit, Some(10));
        assert_eq!(result.cursor, Some(Cursor::Blob(cursor.to_vec())));
        assert_eq!(
            result.order.unwrap(),
            vec![
                ("col0".to_string(), Order::Ascending),
                ("col1".to_string(), Order::Descending),
                ("col2".to_string(), Order::Ascending),
            ]
        );
    }

    {
        let query = Some("baz=23&bar[like]=foo");
        let result = parse_query(query).unwrap();

        assert_eq!(
            result.filters("baz").unwrap(),
            &vec![QueryParam {
                value: "23".to_string(),
                qualifier: Some(Qualifier::Equal),
            }]
        );
        assert_eq!(
            result.filters("bar").unwrap(),
            &vec![QueryParam {
                value: "foo".to_string(),
                qualifier: Some(Qualifier::Like),
            }]
        );
    }

    {
        // foo,bar is an invalid key.
        let query = Some("baz=23&foo,bar&foo_bar");
        assert_eq!(parse_query(query).err(), Some("foo,bar".to_string()));

        let query = Some("baz=23&foo_bar");
        assert_eq!(parse_query(query).err(), Some("foo_bar".to_string()));
    }

    {
        // Check whitespaces
        let query = Some("foo=a+b&bar=a%20b");
        let result = parse_query(query).unwrap();

        assert_eq!(
            result.filters("foo").unwrap(),
            &vec![QueryParam {
                value: "a b".to_string(),
                qualifier: Some(Qualifier::Equal),
            }]
        );
        assert_eq!(
            result.filters("bar").unwrap(),
            &vec![QueryParam {
                value: "a b".to_string(),
                qualifier: Some(Qualifier::Equal),
            }]
        );
    }

    {
        let query = Some("col_0[gte]=10&col_0[lte]=100");
        let result = parse_query(query).unwrap();

        assert_eq!(
            result.filters("col_0"),
            Some(vec![
                QueryParam {
                    value: "10".to_string(),
                    qualifier: Some(Qualifier::GreaterThanEqual),
                },
                QueryParam {
                    value: "100".to_string(),
                    qualifier: Some(Qualifier::LessThanEqual),
                },
            ])
            .as_ref(),
            "{:?}",
            result.params
        );
    }

    {
        // Test both encodings: "+" and %20 for " ".
        let value = "with+white%20spaces";
        let query = Some(format!("text={value}"));
        let result = parse_query(query.as_deref()).unwrap();

        assert_eq!(
            result.filters("text"),
            Some(vec![QueryParam {
                value: "with white spaces".to_string(),
                qualifier: Some(Qualifier::Equal),
            },])
            .as_ref(),
            "{:?}",
            result.params
        );
    }
}

#[test]
fn limit_defaults_and_caps() {
    assert_eq!(limit_or_default(None), 50);
    assert_eq!(limit_or_default(Some(10)), 10);
    assert_eq!(limit_or_default(Some(256)), 256);
    assert_eq!(limit_or_default(Some(1000)), 256);
}

#[test]
fn count_flag_keeps_the_original_reading() {
    assert_eq!(parse_bool("TRUE"), Some(true));
    assert_eq!(parse_bool("1"), Some(true));
    // A false literal is read as `true`, as the original did.
    assert_eq!(parse_bool("false"), Some(true));
    assert_eq!(parse_bool("yes"), None);
}

#[test]
fn query_parsing_integer_cursor_and_pagination() {
    let result = parse_query(Some("cursor=-5&offset=3&count=TRUE&expand=a,b")).unwrap();
    assert_eq!(result.cursor, Some(Cursor::Integer(-5)));
    assert_eq!(result.offset, Some(3));
    assert_eq!(result.count, Some(true));
    assert_eq!(result.expand, Some(vec!["a".to_string(), "b".to_string()]));
    // Unknown qualifiers are kept with no qualifier.
    let result = parse_query(Some("a[foo]=1")).unwrap();
    assert_eq!(
        result.filters("a").unwrap(),
        &vec![QueryParam {
            value: "1".to_string(),
            qualifier: None,
        }]
    );
    // An empty filter value is refused.
    assert_eq!(parse_query(Some("a=")).err(), Some("a".to_string()));
}

fn column(name: &str, data_type: ColumnDataType) -> Column {
    Column {
        name: name.to_string(),
        data_type,
        options: vec![],
    }
}

#[test]
fn where_clause_from_filters() {
    let columns = vec![
        column("id", ColumnDataType::Integer),
        column("name", ColumnDataType::Text),
        column("score", ColumnDataType::Real),
    ];

    let w = build_filter_where_clause(&columns, None).unwrap();
    assert_eq!(w.clause, "TRUE");
    assert!(w.params.is_empty());

    let params = vec![
        (
            "id".to_string(),
            vec![
                QueryParam {
                    value: "10".to_string(),
                    qualifier: Some(Qualifier::GreaterThanEqual),
                },
                // Not an integer: skipped.
                QueryParam {
                    value: "x".to_string(),
                    qualifier: Some(Qualifier::LessThan),
                },
                // No qualifier: skipped.
                QueryParam {
                    value: "5".to_string(),
                    qualifier: None,
                },
            ],
        ),
        (
            "name".to_string(),
            vec![QueryParam {
                value: "bob".to_string(),
                qualifier: Some(Qualifier::Like),
            }],
        ),
        (
            "score".to_string(),
            vec![QueryParam {
                value: "1.5".to_string(),
                qualifier: Some(Qualifier::Not),
            }],
        ),
    ];
    let w = build_filter_where_clause(&columns, Some(params)).unwrap();
    assert_eq!(
        w.clause,
        "id >= :__p0 AND name LIKE :__p1 AND score <> :__p2"
    );
    assert_eq!(
        w.params,
        vec![
            (":__p0".to_string(), SqlValue::Integer(10)),
            (":__p1".to_string(), SqlValue::Text("bob".to_string())),
            (":__p2".to_string(), SqlValue::Real("1.5".to_string())),
        ]
    );

    // Several filters on one column: col0[gte]=10&col0[lte]=100.
    let range = vec![(
        "id".to_string(),
        vec![
            QueryParam {
                value: "10".to_string(),
                qualifier: Some(Qualifier::GreaterThanEqual),
            },
            QueryParam {
                value: "100".to_string(),
                qualifier: Some(Qualifier::LessThanEqual),
            },
        ],
    )];
    let w = build_filter_where_clause(&columns, Some(range)).unwrap();
    assert_eq!(w.clause, "id >= :__p0 AND id <= :__p1");
    assert_eq!(
        w.params,
        vec![
            (":__p0".to_string(), SqlValue::Integer(10)),
            (":__p1".to_string(), SqlValue::Integer(100)),
        ]
    );

    let hidden = vec![("_secret".to_string(), vec![])];
    assert_eq!(
        build_filter_where_clause(&columns, Some(hidden)).err(),
        Some(WhereClauseError::UnrecognizedParam(
            "Invalid parameter: _secret".to_string()
        ))
    );
    let unknown = vec![("other".to_string(), vec![])];
    assert_eq!(
        build_filter_where_clause(&columns, Some(unknown)).err(),
        Some(WhereClauseError::UnrecognizedParam(
            "Unrecognized parameter: other".to_string()
        ))
    );
}

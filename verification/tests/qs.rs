use trailbase::qs::{
    param_name, parse_bool, sanitize_column_name, serde_value_to_value, serde_value_to_value_or_composite,
    trim, ColumnOpValue, Combiner, CompareOp, Cursor, Expand, FilterError, Order, OrderPrecedent,
    QsValue, Value, ValueOrComposite,
};
use trailbase::util::id_to_b64;

fn leaf(column: &str, op: CompareOp, value: Value) -> ValueOrComposite {
    ValueOrComposite::Value(ColumnOpValue {
        column: column.to_string(),
        op,
        value,
    })
}

fn s(v: &str) -> QsValue {
    QsValue::String(v.to_string())
}

fn map(entries: Vec<(&str, QsValue)>) -> QsValue {
    QsValue::Mapping(entries.into_iter().map(|(k, v)| (s(k), v)).collect())
}

#[test]
fn test_filter_to_sql() {
    let v0 = leaf("col0", CompareOp::Equal, Value::String("val0".to_string()));

    let validator = |_: &str| -> Result<(), String> {
        return Ok(());
    };
    let sql0 = v0.into_sql(/* column_prefix= */ None, &validator).unwrap();
    assert_eq!(sql0.0, r#""col0" = :__p0"#);
    let v0 = leaf("col0", CompareOp::Equal, Value::String("val0".to_string()));
    let sql0 = v0.into_sql(/* column_prefix= */ Some("p"), &validator).unwrap();
    assert_eq!(sql0.0, r#"p."col0" = :__p0"#);

    let v1 = leaf("col0", CompareOp::Null, Value::String("".to_string()));
    assert_eq!(
        v1.into_sql(None, &validator).unwrap().0,
        r#""col0" IS NULL"#
    );

    let v2 = leaf("col0", CompareOp::NotNull, Value::String("ignored".to_string()));
    assert_eq!(
        v2.into_sql(Some("p"), &validator).unwrap().0,
        r#"p."col0" IS NOT NULL"#
    );
}

#[test]
fn nested_filter_to_sql_numbers_placeholders_in_order() {
    let f = ValueOrComposite::Composite(
        Combiner::And,
        vec![
            ValueOrComposite::Composite(
                Combiner::Or,
                vec![
                    leaf("col2", CompareOp::Equal, Value::String("val2".to_string())),
                    leaf("col0", CompareOp::NotEqual, Value::String("val0".to_string())),
                ],
            ),
            leaf("col3", CompareOp::Null, Value::Bool(true)),
            leaf("col1", CompareOp::LessThan, Value::Integer(1)),
        ],
    );
    let validator = |_: &str| -> Result<(), String> { Ok(()) };
    let (sql, params) = f.into_sql(None, &validator).unwrap();
    assert_eq!(
        sql,
        r#"(("col2" = :__p0 OR "col0" <> :__p1) AND "col3" IS NULL AND "col1" < :__p2)"#
    );
    assert_eq!(
        params,
        vec![
            (":__p0".to_string(), Value::String("val2".to_string())),
            (":__p1".to_string(), Value::String("val0".to_string())),
            (":__p2".to_string(), Value::Integer(1)),
        ]
    );
}

#[test]
fn validator_error_stops_compilation() {
    let f = ValueOrComposite::Composite(
        Combiner::Or,
        vec![
            leaf("a", CompareOp::Equal, Value::Integer(1)),
            leaf("secret", CompareOp::Equal, Value::Integer(2)),
            leaf("zzz", CompareOp::Equal, Value::Integer(3)),
        ],
    );
    let validator = |c: &str| -> Result<(), String> {
        if c == "a" {
            Ok(())
        } else {
            Err(format!("no column {c}"))
        }
    };
    assert_eq!(
        f.into_sql(None, &validator).err(),
        Some("no column secret".to_string())
    );
}

#[test]
fn placeholder_names() {
    assert_eq!(param_name(0), ":__p0");
    assert_eq!(param_name(7), ":__p7");
    assert_eq!(param_name(1234), ":__p1234");
}

#[test]
fn compare_operators() {
    assert_eq!(CompareOp::from("$gte"), Some(CompareOp::GreaterThanEqual));
    assert_eq!(CompareOp::from("$some"), Some(CompareOp::NotNull));
    assert_eq!(CompareOp::from("gte"), Some(CompareOp::GreaterThanEqual));
    assert_eq!(CompareOp::from("gt"), Some(CompareOp::GreaterThan));
    assert_eq!(CompareOp::from("ne"), Some(CompareOp::NotEqual));
    assert_eq!(CompareOp::from("eq"), Some(CompareOp::Equal));
    assert_eq!(CompareOp::from("$$gt"), None);
    assert_eq!(CompareOp::from("greater"), None);
    assert!(CompareOp::Null.is_unary());
    assert!(!CompareOp::Like.is_unary());
    assert_eq!(CompareOp::Regexp.to_sql(), "REGEXP");
    assert_eq!(CompareOp::NotEqual.to_sql(), "<>");
}

#[test]
fn value_reading() {
    assert_eq!(Value::unparse("TRUE".to_string()), Value::Bool(true));
    assert_eq!(Value::unparse("false".to_string()), Value::Bool(false));
    assert_eq!(Value::unparse("0".to_string()), Value::Integer(0));
    assert_eq!(Value::unparse("0.0".to_string()), Value::Double("0.0".to_string()));
    assert_eq!(Value::unparse("1e3".to_string()), Value::Double("1e3".to_string()));
    assert_eq!(Value::unparse("val0".to_string()), Value::String("val0".to_string()));
    assert_eq!(serde_value_to_value(QsValue::Unsigned(7)), Ok(Value::Integer(7)));
    assert_eq!(serde_value_to_value(QsValue::Signed(-7)), Ok(Value::Integer(-7)));
    assert_eq!(
        serde_value_to_value(QsValue::Bytes(vec![0xfb, 0xff])),
        Ok(Value::String("-_8=".to_string()))
    );
    assert_eq!(serde_value_to_value(QsValue::Other), Err(FilterError::InvalidType));
}

#[test]
fn test_filter_parsing() {
    // filter[$and][0][col0]=val0: a group of one member is refused.
    let m0 = map(vec![("$and", QsValue::Sequence(vec![map(vec![("col0", s("val0"))])]))]);
    assert_eq!(
        serde_value_to_value_or_composite(m0, 0).err(),
        Some(FilterError::InvalidLength(1))
    );

    // filter[$and][0][col0]=val0&filter[$and][1][col1]=val1
    let m1 = map(vec![(
        "$and",
        QsValue::Sequence(vec![
            map(vec![("col0", s("val0"))]),
            map(vec![("col1", s("val1"))]),
        ]),
    )]);
    assert_eq!(
        serde_value_to_value_or_composite(m1, 0).unwrap(),
        ValueOrComposite::Composite(
            Combiner::And,
            vec![
                leaf("col0", CompareOp::Equal, Value::String("val0".to_string())),
                leaf("col1", CompareOp::Equal, Value::String("val1".to_string())),
            ]
        )
    );

    // filter[col0]=val0&filter[col1]=val1: implicit and.
    let m2 = map(vec![("col0", s("val0")), ("col1", s("val1"))]);
    assert_eq!(
        serde_value_to_value_or_composite(m2, 0).unwrap(),
        ValueOrComposite::Composite(
            Combiner::And,
            vec![
                leaf("col0", CompareOp::Equal, Value::String("val0".to_string())),
                leaf("col1", CompareOp::Equal, Value::String("val1".to_string())),
            ]
        )
    );

    // filter[col0][$gt]=0
    let m3 = map(vec![("col0", map(vec![("$gt", s("0"))]))]);
    assert_eq!(
        serde_value_to_value_or_composite(m3, 0).unwrap(),
        leaf("col0", CompareOp::GreaterThan, Value::Integer(0))
    );

    // filter[col0][gt]=0 and filter[col0][ne]=TRUE: operator names without `$`.
    let m6 = map(vec![("col0", map(vec![("gt", s("0"))]))]);
    assert_eq!(
        serde_value_to_value_or_composite(m6, 0).unwrap(),
        leaf("col0", CompareOp::GreaterThan, Value::Integer(0))
    );
    let m7 = map(vec![("col0", map(vec![("ne", s("TRUE"))]))]);
    assert_eq!(
        serde_value_to_value_or_composite(m7, 0).unwrap(),
        leaf("col0", CompareOp::NotEqual, Value::Bool(true))
    );

    // Unknown operator and bad column names.
    let m4 = map(vec![("col0", map(vec![("$xx", s("0"))]))]);
    assert_eq!(
        serde_value_to_value_or_composite(m4, 0).err(),
        Some(FilterError::InvalidOperator)
    );
    let m5 = map(vec![("col[0]", s("0"))]);
    assert_eq!(
        serde_value_to_value_or_composite(m5, 0).err(),
        Some(FilterError::InvalidColumnName("col[0]".to_string()))
    );

    // Too deep.
    assert_eq!(
        serde_value_to_value_or_composite(map(vec![]), 5).err(),
        Some(FilterError::RecursionLimit)
    );
    assert_eq!(
        serde_value_to_value_or_composite(map(vec![]), 0).unwrap(),
        ValueOrComposite::Composite(Combiner::And, vec![])
    );
    assert_eq!(
        serde_value_to_value_or_composite(s("x"), 0).err(),
        Some(FilterError::InvalidType)
    );
}

#[test]
fn column_names_and_booleans() {
    assert!(sanitize_column_name("col_0.a-b"));
    assert!(sanitize_column_name("ümlaut"));
    assert!(!sanitize_column_name("a b"));
    assert!(!sanitize_column_name("a[0]"));
    assert_eq!(parse_bool("TRUE"), Some(true));
    assert_eq!(parse_bool("false"), Some(false));
    assert_eq!(parse_bool("1"), None);
}

#[test]
fn order_expand_and_cursor_parameters() {
    assert_eq!(trim("  a b \t"), "a b");
    assert_eq!(trim("\u{3000}x\u{85}\u{2009}"), "x");
    assert_eq!(trim("\u{200b}x"), "\u{200b}x");

    let o = Order::parse(s("a,-b,+c")).unwrap();
    assert_eq!(
        o.columns,
        vec![
            ("a".to_string(), OrderPrecedent::Ascending),
            ("b".to_string(), OrderPrecedent::Descending),
            ("c".to_string(), OrderPrecedent::Ascending),
        ]
    );
    assert!(Order::parse(s("$")).is_err());
    assert!(Order::parse(s("a,b,c,d,e")).is_ok());
    assert_eq!(
        Order::parse(s("a,b,c,d,e,f")).err(),
        Some(FilterError::InvalidLength(5))
    );

    assert!(Expand::parse(s("$")).is_err());
    assert_eq!(
        Expand::parse(s("a,b,c,d,e")).unwrap().columns.len(),
        5
    );
    assert!(Expand::parse(s("a,b,c,d,e,f")).is_err());

    assert_eq!(Cursor::parse(s("-5")), Ok(Cursor::Integer(-5)));
    let bytes: [u8; 16] = [7; 16];
    assert_eq!(
        Cursor::parse(QsValue::String(id_to_b64(&bytes))),
        Ok(Cursor::Blob(bytes.to_vec()))
    );
    assert_eq!(
        Cursor::parse(s("01890a5d-ac96-774b-bcce-b302099a8057")),
        Ok(Cursor::Blob(vec![
            0x01, 0x89, 0x0a, 0x5d, 0xac, 0x96, 0x77, 0x4b, 0xbc, 0xce, 0xb3, 0x02, 0x09, 0x9a,
            0x80, 0x57
        ]))
    );
    assert_eq!(Cursor::parse(s("%%")), Err(FilterError::InvalidType));
}

use trailbase::statement::ParsedStatement;
use fallible_iterator::FallibleIterator;
use trailbase::schema::{
    unquote, Column, ColumnDataType, ColumnOption, ColumnOrder, ForeignKey, ReferentialAction,
    SchemaError, Table, TableIndex, UniqueConstraint,
};
use trailbase::schema_view::{try_extract_column_mapping, View};
use trailbase::sql_parse::sqlite3_parse_into_statement;

/// The parser's own syntax tree of the first statement, whose equality ignores the case
/// and quoting of names.
fn syntax_tree(sql: &str) -> sqlite3_parser::ast::Stmt {
    let mut parser = sqlite3_parser::lexer::sql::Parser::new(sql.as_bytes());
    match parser.next().unwrap().unwrap() {
        sqlite3_parser::ast::Cmd::Stmt(stmt) => stmt,
        other => panic!("not a statement: {other:?}"),
    }
}

#[test]
fn test_unquote() {
    assert_eq!(unquote("".to_string()), "");
    assert_eq!(unquote("['``']".to_string()), "'``'");
    assert_eq!(unquote("\"[]\"".to_string()), "[]");
}

#[test]
fn test_create_table_statement_quoting() {
    let statement = format!(
        r#"
      CREATE TABLE "table" (
          'index'       TEXT,
          `delete`      TEXT,
          [create]      TEXT
      ) STRICT;
      "#
    );

    let parsed = sqlite3_parse_into_statement(&statement).unwrap().unwrap();

    let table: Table = Table::try_from(parsed).unwrap();
    assert_eq!(table.name, "table");
    let sql = table.create_table_statement();

    assert_eq!(
        "CREATE TABLE 'table' ('index' TEXT, 'delete' TEXT, 'create' TEXT) STRICT",
        sql
    );
    sqlite3_parse_into_statement(&sql).unwrap().unwrap();
}

#[test]
fn test_statement_to_table_schema_and_back() {
    let statement = r#"
      CREATE TABLE test (
          id                           BLOB PRIMARY KEY DEFAULT (uuid_v7()) NOT NULL,
          user                         BLOB DEFAULT '' REFERENCES _user(id),
          user_id                      BLOB,
          email                        TEXT NOT NULL,
          email_visibility             INTEGER DEFAULT FALSE NOT NULL,
          username                     TEXT,
          age                          INTEGER,
          double_age                   INTEGER GENERATED ALWAYS AS (2*age) VIRTUAL,
          triple_age                   INTEGER AS (3*age) STORED,

          UNIQUE (email),
          FOREIGN KEY(user_id) REFERENCES _user(id) ON DELETE CASCADE
      ) STRICT;
      "#;

    let statement1 = sqlite3_parse_into_statement(statement).unwrap().unwrap();
    let table1: Table = Table::try_from(statement1.clone()).unwrap();

    let sql = table1.create_table_statement();
    let statement2 = sqlite3_parse_into_statement(&sql).unwrap().unwrap();
    let table2: Table = Table::try_from(statement2.clone()).unwrap();

    assert_eq!(syntax_tree(statement), syntax_tree(&sql));
    assert_eq!(table1, table2);
}

#[test]
fn test_statement_to_table_index_and_back() {
    const SQL: &str =
        "CREATE UNIQUE INDEX IF NOT EXISTS 'index' ON 'table' ('create') WHERE 'create' != '';";

    let statement1 = sqlite3_parse_into_statement(SQL).unwrap().unwrap();
    let index1: TableIndex = TableIndex::try_from(statement1.clone()).unwrap();

    let statement2 = sqlite3_parse_into_statement(&index1.create_index_statement())
        .unwrap()
        .unwrap();
    let index2: TableIndex = TableIndex::try_from(statement2.clone()).unwrap();

    assert_eq!(statement1, statement2);
    assert_eq!(index1, index2);
}

#[test]
fn test_parse_create_trigger() {
    const SQL: &str = r#"
      CREATE TRIGGER cust_addr_chng
      INSTEAD OF UPDATE OF cust_addr ON customer_address
      FOR EACH ROW
      BEGIN
        UPDATE customer SET cust_addr=NEW.cust_addr WHERE cust_id=NEW.cust_id;
      END
    "#;

    sqlite3_parse_into_statement(SQL).unwrap().unwrap();
}

#[test]
fn test_parse_create_index() {
    let sql = "CREATE UNIQUE INDEX index_name ON table_name(a ASC, b DESC) WHERE x > 0";
    let stmt = sqlite3_parse_into_statement(sql).unwrap().unwrap();
    let index: TableIndex = TableIndex::try_from(stmt.clone()).unwrap();

    let sql1 = index.create_index_statement();
    let _stmt1 = sqlite3_parse_into_statement(&sql1).unwrap().unwrap();

    assert_eq!(syntax_tree(sql), syntax_tree(&sql1));
}

#[test]
fn test_column_fragment_with_options() {
    let column = Column {
        name: "owner".to_string(),
        data_type: ColumnDataType::Blob,
        options: vec![
            ColumnOption::NotNull,
            ColumnOption::ForeignKey {
                foreign_table: "_user".to_string(),
                referred_columns: vec!["id".to_string()],
                on_delete: Some(ReferentialAction::Cascade),
                on_update: None,
            },
        ],
    };
    assert_eq!(
        column.to_fragment(),
        "'owner' BLOB NOT NULL REFERENCES _user(id) ON DELETE CASCADE "
    );
    assert!(!column.is_primary());

    let pk = Column {
        name: "id".to_string(),
        data_type: ColumnDataType::Integer,
        options: vec![ColumnOption::Unique { is_primary: true }],
    };
    assert!(pk.is_primary());
    assert_eq!(pk.to_fragment(), "'id' INTEGER PRIMARY KEY");
}

#[test]
fn test_constraint_fragments() {
    let fk = ForeignKey {
        name: Some("fk0".to_string()),
        columns: vec!["a".to_string(), "b".to_string()],
        foreign_table: "other".to_string(),
        referred_columns: vec!["x".to_string(), "y".to_string()],
        on_delete: None,
        on_update: Some(ReferentialAction::SetNull),
    };
    assert_eq!(
        fk.to_fragment(),
        "CONSTRAINT fk0 FOREIGN KEY (a, b) REFERENCES other (x, y)  ON UPDATE SET NULL"
    );
    let unique = UniqueConstraint {
        name: None,
        columns: vec!["email".to_string()],
    };
    assert_eq!(unique.to_fragment(), "UNIQUE (email) ");
}

#[test]
fn test_data_type_names() {
    assert_eq!(ColumnDataType::from_type_name("text"), Some(ColumnDataType::Text));
    assert_eq!(
        ColumnDataType::from_type_name("unsigned big int"),
        Some(ColumnDataType::UnignedBigInt)
    );
    assert_eq!(ColumnDataType::from_type_name("UNSPECIFIED"), Some(ColumnDataType::Null));
    assert_eq!(ColumnDataType::from_type_name("VARCHAR(255)"), None);
    assert_eq!(ColumnDataType::UnignedBigInt.sql_name(), "UNSIGNED BIG INT");
}

#[test]
fn test_index_statement() {
    let index = TableIndex {
        name: "idx".to_string(),
        table_name: "t".to_string(),
        columns: vec![
            ColumnOrder {
                column_name: "a".to_string(),
                ascending: Some(true),
                nulls_first: None,
            },
            ColumnOrder {
                column_name: "b".to_string(),
                ascending: None,
                nulls_first: None,
            },
        ],
        unique: false,
        predicate: None,
        if_not_exists: false,
    };
    assert_eq!(
        index.create_index_statement(),
        "CREATE  INDEX  'idx' ON 't' (a ASC, b ) "
    );
}

#[test]
fn test_virtual_and_as_select_tables() {
    let stmt = sqlite3_parse_into_statement("CREATE VIRTUAL TABLE v USING fts5(a)")
        .unwrap()
        .unwrap();
    let table = Table::try_from(stmt).unwrap();
    assert!(table.virtual_table);
    assert_eq!(table.name, "v");

    let stmt = sqlite3_parse_into_statement("CREATE TABLE t AS SELECT 1")
        .unwrap()
        .unwrap();
    assert!(Table::try_from(stmt).is_err());

    let stmt = sqlite3_parse_into_statement("SELECT 1").unwrap().unwrap();
    assert!(Table::try_from(stmt).is_err());
}

fn view_test_tables() -> Vec<Table> {
    vec![
        Table {
            name: "profiles".to_string(),
            strict: true,
            columns: vec![
                Column {
                    name: "user".to_string(),
                    data_type: ColumnDataType::Blob,
                    options: vec![
                        ColumnOption::Unique { is_primary: true },
                        ColumnOption::ForeignKey {
                            foreign_table: "_user".to_string(),
                            referred_columns: vec!["id".to_string()],
                            on_delete: None,
                            on_update: None,
                        },
                    ],
                },
                Column {
                    name: "username".to_string(),
                    data_type: ColumnDataType::Text,
                    options: vec![],
                },
            ],
            foreign_keys: vec![],
            unique: vec![],
            virtual_table: false,
            temporary: false,
        },
        Table {
            name: "articles".to_string(),
            strict: true,
            columns: vec![
                Column {
                    name: "id".to_string(),
                    data_type: ColumnDataType::Blob,
                    options: vec![ColumnOption::Unique { is_primary: true }],
                },
                Column {
                    name: "author".to_string(),
                    data_type: ColumnDataType::Blob,
                    options: vec![ColumnOption::ForeignKey {
                        foreign_table: "_user".to_string(),
                        referred_columns: vec!["id".to_string()],
                        on_delete: None,
                        on_update: None,
                    }],
                },
                Column {
                    name: "body".to_string(),
                    data_type: ColumnDataType::Text,
                    options: vec![],
                },
            ],
            foreign_keys: vec![],
            unique: vec![],
            virtual_table: false,
            temporary: false,
        },
    ]
}

#[test]
fn test_view_column_extraction() {
    let sql = "SELECT user, *, a.*, p.user AS foo FROM articles AS a LEFT JOIN profiles AS p ON p.user = a.author";
    let ParsedStatement::Select { select, .. } = sqlite3_parse_into_statement(sql).unwrap().unwrap() else {
        panic!("Not a select");
    };

    let tables = view_test_tables();

    let mapping = try_extract_column_mapping(select, &tables).unwrap().unwrap();

    assert_eq!(
        mapping
            .iter()
            .map(|m| m.referred_column.as_ref().unwrap().column_name.as_str())
            .collect::<Vec<_>>(),
        ["user", "id", "author", "body", "user", "username", "id", "author", "body", "user"]
    );

    assert_eq!(
        mapping
            .iter()
            .map(|m| m.column.name.as_str())
            .collect::<Vec<_>>(),
        ["user", "id", "author", "body", "user", "username", "id", "author", "body", "foo"]
    );
}

#[test]
fn view_from_create_view_statement() {
    let tables = view_test_tables();
    let stmt = sqlite3_parse_into_statement(
        "CREATE VIEW v AS SELECT id, CAST(body AS TEXT) AS b FROM articles",
    )
    .unwrap()
    .unwrap();
    let view = View::from(stmt, &tables).unwrap();
    assert_eq!(view.name, "v");
    let columns = view.columns.unwrap();
    assert_eq!(columns.len(), 2);
    assert_eq!(columns[0].name, "id");
    assert_eq!(columns[0].data_type, ColumnDataType::Blob);
    assert_eq!(columns[1].name, "b");
    assert_eq!(columns[1].data_type, ColumnDataType::Text);
    assert_eq!(columns[1].options, vec![ColumnOption::Null]);
    assert!(view.query.starts_with("SELECT"));
    assert!(!view.query.ends_with(';'));

    // Unknown tables are refused; arbitrary expressions leave the columns unknown.
    let stmt = sqlite3_parse_into_statement("CREATE VIEW v AS SELECT id FROM missing")
        .unwrap()
        .unwrap();
    assert_eq!(
        View::from(stmt, &tables).err(),
        Some(SchemaError::Precondition(
            "View's SELECT references missing table: missing".to_string()
        ))
    );
    let stmt = sqlite3_parse_into_statement("CREATE VIEW v AS SELECT id + 1 AS x FROM articles")
        .unwrap()
        .unwrap();
    assert_eq!(View::from(stmt, &tables).unwrap().columns, None);
    let stmt = sqlite3_parse_into_statement("CREATE VIEW v AS SELECT CAST(id AS TEXT) FROM articles")
        .unwrap()
        .unwrap();
    assert_eq!(
        View::from(stmt, &tables).err(),
        Some(SchemaError::Precondition("Missing alias in cast".to_string()))
    );
    let stmt = sqlite3_parse_into_statement("CREATE TABLE t (a TEXT)").unwrap().unwrap();
    assert!(View::from(stmt, &tables).is_err());
}

#[test]
fn parse_of_empty_text_is_none() {
    assert!(sqlite3_parse_into_statement("").unwrap().is_none());
    assert!(sqlite3_parse_into_statement("SELECT (").is_err());
}

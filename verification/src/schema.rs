//! Table, column and index schema and the SQL statements built from them.
use vstd::prelude::*;

use crate::statement::{
    ParsedColumn, ParsedColumnConstraint, ParsedIndexColumn, ParsedRefArg, ParsedStatement,
    ParsedTableBody, ParsedTableConstraint,
};
use crate::text::{ascii_upper, join, lemma_views_push, push_char, seq_join, str_eq, to_uppercase, uppercase, views};

verus! {

/// Errors raised while turning a parsed statement into a schema.
#[derive(Clone, Debug, PartialEq, Eq)]
pub enum SchemaError {
    MissingName,
    Precondition(String),
}

/// Action taken on a referencing row when the referenced row changes.
#[derive(Clone, Copy, Debug, PartialEq, Eq)]
pub enum ReferentialAction {
    Restrict,
    Cascade,
    SetNull,
    NoAction,
    SetDefault,
}

pub open spec fn referential_action_sql(a: ReferentialAction) -> Seq<char> {
    match a {
        ReferentialAction::Restrict => "RESTRICT"@,
        ReferentialAction::Cascade => "CASCADE"@,
        ReferentialAction::SetNull => "SET NULL"@,
        ReferentialAction::NoAction => "NO ACTION"@,
        ReferentialAction::SetDefault => "SET DEFAULT"@,
    }
}

/// Each referential action renders as its own SQL keywords: `RESTRICT`, `CASCADE`,
/// `SET NULL`, `NO ACTION` and `SET DEFAULT`; no two actions share a rendering.
pub proof fn lemma_referential_action_sql()
    ensures
        referential_action_sql(ReferentialAction::Restrict) == "RESTRICT"@,
        referential_action_sql(ReferentialAction::Cascade) == "CASCADE"@,
        referential_action_sql(ReferentialAction::SetNull) == "SET NULL"@,
        referential_action_sql(ReferentialAction::NoAction) == "NO ACTION"@,
        referential_action_sql(ReferentialAction::SetDefault) == "SET DEFAULT"@,
        forall|a: ReferentialAction, b: ReferentialAction|
            #[trigger] referential_action_sql(a) == #[trigger] referential_action_sql(b) ==> a == b,
{
    reveal_strlit("RESTRICT");
    reveal_strlit("CASCADE");
    reveal_strlit("SET NULL");
    reveal_strlit("NO ACTION");
    reveal_strlit("SET DEFAULT");
    assert forall|a: ReferentialAction, b: ReferentialAction|
        #[trigger] referential_action_sql(a) == #[trigger] referential_action_sql(b) implies a == b by {
        let x = referential_action_sql(a);
        let y = referential_action_sql(b);
        assert(x.len() == y.len());
        assert(x[0] == y[0]);
        assert(x[4] == y[4]);
    }
}

impl ReferentialAction {
    /// SQL keyword(s) of the action, see https://www.sqlite.org/syntax/foreign-key-clause.html.
    pub fn to_fragment(&self) -> (r: &'static str)
        ensures
            r@ == referential_action_sql(*self),
    {
        match self {
            ReferentialAction::Restrict => "RESTRICT",
            ReferentialAction::Cascade => "CASCADE",
            ReferentialAction::SetNull => "SET NULL",
            ReferentialAction::NoAction => "NO ACTION",
            ReferentialAction::SetDefault => "SET DEFAULT",
        }
    }
}

/// `prefix` followed by the action's keywords, or nothing.
pub open spec fn action_clause(a: Option<ReferentialAction>, prefix: Seq<char>) -> Seq<char> {
    match a {
        Some(a) => prefix + referential_action_sql(a),
        None => Seq::empty(),
    }
}

fn append_action_clause(out: &mut String, a: &Option<ReferentialAction>, prefix: &str)
    ensures
        final(out)@ == old(out)@ + action_clause(*a, prefix@),
{
    match a {
        Some(a) => {
            out.append(prefix);
            out.append(a.to_fragment());
        },
        None => {
            assert(old(out)@ + Seq::<char>::empty() =~= old(out)@);
        },
    }
}

/// A table-level `FOREIGN KEY` constraint.
#[derive(Clone, Debug, PartialEq)]
pub struct ForeignKey {
    pub name: Option<String>,
    pub columns: Vec<String>,
    pub foreign_table: String,
    pub referred_columns: Vec<String>,
    pub on_delete: Option<ReferentialAction>,
    pub on_update: Option<ReferentialAction>,
}

pub open spec fn foreign_key_sql(fk: ForeignKey) -> Seq<char> {
    (match fk.name {
        Some(n) => "CONSTRAINT "@ + n@,
        None => Seq::empty(),
    }) + " FOREIGN KEY ("@ + seq_join(views(fk.columns@), ", "@) + ") REFERENCES "@
        + fk.foreign_table@ + " ("@ + seq_join(views(fk.referred_columns@), ", "@) + ") "@
        + action_clause(fk.on_delete, "ON DELETE "@) + " "@ + action_clause(fk.on_update, "ON UPDATE "@)
}

impl ForeignKey {
    pub fn to_fragment(&self) -> (r: String)
        ensures
            r@ == foreign_key_sql(*self),
    {
        let mut s = String::new();
        match &self.name {
            Some(n) => {
                s.append("CONSTRAINT ");
                s.append(n.as_str());
            },
            None => {},
        }
        s.append(" FOREIGN KEY (");
        let cols = join(&self.columns, ", ");
        s.append(cols.as_str());
        s.append(") REFERENCES ");
        s.append(self.foreign_table.as_str());
        s.append(" (");
        let refs = join(&self.referred_columns, ", ");
        s.append(refs.as_str());
        s.append(") ");
        append_action_clause(&mut s, &self.on_delete, "ON DELETE ");
        s.append(" ");
        append_action_clause(&mut s, &self.on_update, "ON UPDATE ");
        assert(s@ =~= foreign_key_sql(*self));
        s
    }
}

/// A table-level `UNIQUE` constraint over the named columns.
#[derive(Clone, Debug, PartialEq)]
pub struct UniqueConstraint {
    pub name: Option<String>,
    pub columns: Vec<String>,
}

pub open spec fn unique_constraint_sql(u: UniqueConstraint) -> Seq<char> {
    (match u.name {
        Some(n) => "CONSTRAINT "@ + n@ + " "@,
        None => Seq::empty(),
    }) + "UNIQUE ("@ + seq_join(views(u.columns@), ", "@) + ") "@
}

impl UniqueConstraint {
    pub fn to_fragment(&self) -> (r: String)
        ensures
            r@ == unique_constraint_sql(*self),
    {
        let mut s = String::new();
        match &self.name {
            Some(n) => {
                s.append("CONSTRAINT ");
                s.append(n.as_str());
                s.append(" ");
            },
            None => {},
        }
        s.append("UNIQUE (");
        let cols = join(&self.columns, ", ");
        s.append(cols.as_str());
        s.append(") ");
        assert(s@ =~= unique_constraint_sql(*self));
        s
    }
}

/// One indexed column and its sort order.
#[derive(Clone, Debug, PartialEq)]
pub struct ColumnOrder {
    pub column_name: String,
    pub ascending: Option<bool>,
    pub nulls_first: Option<bool>,
}

#[derive(Clone, Copy, Debug, PartialEq, Eq)]
pub enum GeneratedExpressionMode {
    Virtual,
    Stored,
}

/// A column-level constraint.
#[derive(Clone, Debug, PartialEq)]
pub enum ColumnOption {
    Null,
    NotNull,
    Default(String),
    /// `Unique { is_primary: true }` is a primary key.
    Unique { is_primary: bool },
    ForeignKey {
        foreign_table: String,
        referred_columns: Vec<String>,
        on_delete: Option<ReferentialAction>,
        on_update: Option<ReferentialAction>,
    },
    Check(String),
    OnUpdate(String),
    Generated { expr: String, mode: Option<GeneratedExpressionMode> },
}

pub open spec fn column_option_sql(o: ColumnOption) -> Seq<char> {
    match o {
        ColumnOption::Null => "NULL"@,
        ColumnOption::NotNull => "NOT NULL"@,
        ColumnOption::Default(v) => "DEFAULT "@ + v@,
        ColumnOption::Unique { is_primary } => if is_primary {
            "PRIMARY KEY"@
        } else {
            "UNIQUE"@
        },
        ColumnOption::ForeignKey { foreign_table, referred_columns, on_delete, on_update } => {
            "REFERENCES "@ + foreign_table@ + (if referred_columns@.len() == 0 {
                Seq::empty()
            } else {
                "("@ + seq_join(views(referred_columns@), ","@) + ")"@
            }) + " "@ + action_clause(on_delete, "ON DELETE "@) + " "@ + action_clause(
                on_update,
                "ON UPDATE "@,
            )
        },
        ColumnOption::Check(e) => "CHECK("@ + e@ + ")"@,
        ColumnOption::OnUpdate(e) => e@,
        ColumnOption::Generated { expr, mode } => "GENERATED ALWAYS AS ("@ + expr@ + ") "@
            + match mode {
            Some(GeneratedExpressionMode::Stored) => "STORED"@,
            Some(GeneratedExpressionMode::Virtual) => "VIRTUAL"@,
            None => ""@,
        },
    }
}

/// The keywords of the plain column options: `NULL`, `NOT NULL`, `PRIMARY KEY` for a
/// primary unique key and `UNIQUE` for another, `DEFAULT` and `CHECK(..)` around their
/// expression, and the storage of a generated column.
pub proof fn lemma_column_option_keywords(e: String, mode: Option<GeneratedExpressionMode>)
    ensures
        column_option_sql(ColumnOption::Null) == "NULL"@,
        column_option_sql(ColumnOption::NotNull) == "NOT NULL"@,
        column_option_sql(ColumnOption::Unique { is_primary: true }) == "PRIMARY KEY"@,
        column_option_sql(ColumnOption::Unique { is_primary: false }) == "UNIQUE"@,
        column_option_sql(ColumnOption::Default(e)) == "DEFAULT "@ + e@,
        column_option_sql(ColumnOption::Check(e)) == "CHECK("@ + e@ + ")"@,
        column_option_sql(ColumnOption::Generated { expr: e, mode: mode }) == "GENERATED ALWAYS AS ("@ + e@
            + ") "@ + match mode {
            Some(GeneratedExpressionMode::Stored) => "STORED"@,
            Some(GeneratedExpressionMode::Virtual) => "VIRTUAL"@,
            None => Seq::<char>::empty(),
        },
{
    reveal_strlit("");
    assert(""@ =~= Seq::<char>::empty());
}

impl ColumnOption {
    pub fn to_fragment(&self) -> (r: String)
        ensures
            r@ == column_option_sql(*self),
    {
        let mut s = String::new();
        match self {
            ColumnOption::Null => s.append("NULL"),
            ColumnOption::NotNull => s.append("NOT NULL"),
            ColumnOption::Default(v) => {
                s.append("DEFAULT ");
                s.append(v.as_str());
            },
            ColumnOption::Unique { is_primary } => {
                if *is_primary {
                    s.append("PRIMARY KEY");
                } else {
                    s.append("UNIQUE");
                }
            },
            ColumnOption::ForeignKey { foreign_table, referred_columns, on_delete, on_update } => {
                s.append("REFERENCES ");
                s.append(foreign_table.as_str());
                if referred_columns.len() != 0 {
                    s.append("(");
                    let cols = join(referred_columns, ",");
                    s.append(cols.as_str());
                    s.append(")");
                }
                s.append(" ");
                append_action_clause(&mut s, on_delete, "ON DELETE ");
                s.append(" ");
                append_action_clause(&mut s, on_update, "ON UPDATE ");
            },
            ColumnOption::Check(e) => {
                s.append("CHECK(");
                s.append(e.as_str());
                s.append(")");
            },
            ColumnOption::OnUpdate(e) => s.append(e.as_str()),
            ColumnOption::Generated { expr, mode } => {
                s.append("GENERATED ALWAYS AS (");
                s.append(expr.as_str());
                s.append(") ");
                match mode {
                    Some(GeneratedExpressionMode::Stored) => s.append("STORED"),
                    Some(GeneratedExpressionMode::Virtual) => s.append("VIRTUAL"),
                    None => s.append(""),
                }
            },
        }
        assert(s@ =~= column_option_sql(*self));
        s
    }
}

/// Declared type of a column, see https://www.sqlite.org/datatype3.html.
#[derive(Clone, Copy, Debug, PartialEq, Eq)]
pub enum ColumnDataType {
    Null,
    Any,
    Blob,
    Text,
    Integer,
    Real,
    Numeric,
    JSON,
    JSONB,
    Int,
    TinyInt,
    SmallInt,
    MediumInt,
    BigInt,
    UnignedBigInt,
    Int2,
    Int4,
    Int8,
    Character,
    Varchar,
    VaryingCharacter,
    NChar,
    NativeCharacter,
    NVarChar,
    Clob,
    Double,
    DoublePrecision,
    Float,
    Boolean,
    Decimal,
    Date,
    DateTime,
}

/// The type's name as written in generated SQL: the variant's name in upper case.
pub open spec fn data_type_sql(t: ColumnDataType) -> Seq<char> {
    match t {
        ColumnDataType::Null => "NULL"@,
        ColumnDataType::Any => "ANY"@,
        ColumnDataType::Blob => "BLOB"@,
        ColumnDataType::Text => "TEXT"@,
        ColumnDataType::Integer => "INTEGER"@,
        ColumnDataType::Real => "REAL"@,
        ColumnDataType::Numeric => "NUMERIC"@,
        ColumnDataType::JSON => "JSON"@,
        ColumnDataType::JSONB => "JSONB"@,
        ColumnDataType::Int => "INT"@,
        ColumnDataType::TinyInt => "TINYINT"@,
        ColumnDataType::SmallInt => "SMALLINT"@,
        ColumnDataType::MediumInt => "MEDIUMINT"@,
        ColumnDataType::BigInt => "BIGINT"@,
        ColumnDataType::UnignedBigInt => "UNSIGNED BIG INT"@,
        ColumnDataType::Int2 => "INT2"@,
        ColumnDataType::Int4 => "INT4"@,
        ColumnDataType::Int8 => "INT8"@,
        ColumnDataType::Character => "CHARACTER"@,
        ColumnDataType::Varchar => "VARCHAR"@,
        ColumnDataType::VaryingCharacter => "VARYING CHARACTER"@,
        ColumnDataType::NChar => "NCHAR"@,
        ColumnDataType::NativeCharacter => "NATIVE CHARACTER"@,
        ColumnDataType::NVarChar => "NVARCHAR"@,
        ColumnDataType::Clob => "CLOB"@,
        ColumnDataType::Double => "DOUBLE"@,
        ColumnDataType::DoublePrecision => "DOUBLE PRECISION"@,
        ColumnDataType::Float => "FLOAT"@,
        ColumnDataType::Boolean => "BOOLEAN"@,
        ColumnDataType::Decimal => "DECIMAL"@,
        ColumnDataType::Date => "DATE"@,
        ColumnDataType::DateTime => "DATETIME"@,
    }
}

/// The SQL name of each column type, as a `CREATE TABLE` statement writes it, and the
/// type read back from that name: every type but `NULL` (read from `UNSPECIFIED`) comes
/// back as itself.
#[verifier::rlimit(100)]
pub proof fn lemma_data_type_names(t: ColumnDataType)
    ensures
        data_type_sql(ColumnDataType::Null) == "NULL"@,
        data_type_sql(ColumnDataType::Any) == "ANY"@,
        data_type_sql(ColumnDataType::Blob) == "BLOB"@,
        data_type_sql(ColumnDataType::Text) == "TEXT"@,
        data_type_sql(ColumnDataType::Integer) == "INTEGER"@,
        data_type_sql(ColumnDataType::Real) == "REAL"@,
        data_type_sql(ColumnDataType::Numeric) == "NUMERIC"@,
        data_type_sql(ColumnDataType::JSON) == "JSON"@,
        data_type_sql(ColumnDataType::JSONB) == "JSONB"@,
        data_type_sql(ColumnDataType::Int) == "INT"@,
        data_type_sql(ColumnDataType::TinyInt) == "TINYINT"@,
        data_type_sql(ColumnDataType::SmallInt) == "SMALLINT"@,
        data_type_sql(ColumnDataType::MediumInt) == "MEDIUMINT"@,
        data_type_sql(ColumnDataType::BigInt) == "BIGINT"@,
        data_type_sql(ColumnDataType::UnignedBigInt) == "UNSIGNED BIG INT"@,
        data_type_sql(ColumnDataType::Int2) == "INT2"@,
        data_type_sql(ColumnDataType::Int4) == "INT4"@,
        data_type_sql(ColumnDataType::Int8) == "INT8"@,
        data_type_sql(ColumnDataType::Character) == "CHARACTER"@,
        data_type_sql(ColumnDataType::Varchar) == "VARCHAR"@,
        data_type_sql(ColumnDataType::VaryingCharacter) == "VARYING CHARACTER"@,
        data_type_sql(ColumnDataType::NChar) == "NCHAR"@,
        data_type_sql(ColumnDataType::NativeCharacter) == "NATIVE CHARACTER"@,
        data_type_sql(ColumnDataType::NVarChar) == "NVARCHAR"@,
        data_type_sql(ColumnDataType::Clob) == "CLOB"@,
        data_type_sql(ColumnDataType::Double) == "DOUBLE"@,
        data_type_sql(ColumnDataType::DoublePrecision) == "DOUBLE PRECISION"@,
        data_type_sql(ColumnDataType::Float) == "FLOAT"@,
        data_type_sql(ColumnDataType::Boolean) == "BOOLEAN"@,
        data_type_sql(ColumnDataType::Decimal) == "DECIMAL"@,
        data_type_sql(ColumnDataType::Date) == "DATE"@,
        data_type_sql(ColumnDataType::DateTime) == "DATETIME"@,
        !(t is Null) ==> data_type_from_upper(data_type_sql(t)) == Some(t),
        data_type_from_upper("UNSPECIFIED"@) == Some(ColumnDataType::Null),
{
    reveal_strlit("ANY");
    reveal_strlit("BIGINT");
    reveal_strlit("BLOB");
    reveal_strlit("BOOLEAN");
    reveal_strlit("CHARACTER");
    reveal_strlit("CLOB");
    reveal_strlit("DATE");
    reveal_strlit("DATETIME");
    reveal_strlit("DECIMAL");
    reveal_strlit("DOUBLE");
    reveal_strlit("DOUBLE PRECISION");
    reveal_strlit("FLOAT");
    reveal_strlit("INT");
    reveal_strlit("INT2");
    reveal_strlit("INT4");
    reveal_strlit("INT8");
    reveal_strlit("INTEGER");
    reveal_strlit("JSON");
    reveal_strlit("JSONB");
    reveal_strlit("MEDIUMINT");
    reveal_strlit("NATIVE CHARACTER");
    reveal_strlit("NCHAR");
    reveal_strlit("NULL");
    reveal_strlit("NUMERIC");
    reveal_strlit("NVARCHAR");
    reveal_strlit("REAL");
    reveal_strlit("SMALLINT");
    reveal_strlit("TEXT");
    reveal_strlit("TINYINT");
    reveal_strlit("UNSIGNED BIG INT");
    reveal_strlit("UNSPECIFIED");
    reveal_strlit("VARCHAR");
    reveal_strlit("VARYING CHARACTER");
    assert("ANY"@ != "BLOB"@) by {
        assert("ANY"@.len() != "BLOB"@.len());
    }
    assert("ANY"@ != "TEXT"@) by {
        assert("ANY"@.len() != "TEXT"@.len());
    }
    assert("ANY"@ != "INTEGER"@) by {
        assert("ANY"@.len() != "INTEGER"@.len());
    }
    assert("ANY"@ != "REAL"@) by {
        assert("ANY"@.len() != "REAL"@.len());
    }
    assert("ANY"@ != "NUMERIC"@) by {
        assert("ANY"@.len() != "NUMERIC"@.len());
    }
    assert("ANY"@ != "JSON"@) by {
        assert("ANY"@.len() != "JSON"@.len());
    }
    assert("ANY"@ != "JSONB"@) by {
        assert("ANY"@.len() != "JSONB"@.len());
    }
    assert("ANY"@ != "INT"@) by {
        assert("ANY"@[0] != "INT"@[0]);
    }
    assert("ANY"@ != "TINYINT"@) by {
        assert("ANY"@.len() != "TINYINT"@.len());
    }
    assert("ANY"@ != "SMALLINT"@) by {
        assert("ANY"@.len() != "SMALLINT"@.len());
    }
    assert("ANY"@ != "MEDIUMINT"@) by {
        assert("ANY"@.len() != "MEDIUMINT"@.len());
    }
    assert("ANY"@ != "BIGINT"@) by {
        assert("ANY"@.len() != "BIGINT"@.len());
    }
    assert("ANY"@ != "UNSIGNED BIG INT"@) by {
        assert("ANY"@.len() != "UNSIGNED BIG INT"@.len());
    }
    assert("ANY"@ != "INT2"@) by {
        assert("ANY"@.len() != "INT2"@.len());
    }
    assert("ANY"@ != "INT4"@) by {
        assert("ANY"@.len() != "INT4"@.len());
    }
    assert("ANY"@ != "INT8"@) by {
        assert("ANY"@.len() != "INT8"@.len());
    }
    assert("ANY"@ != "CHARACTER"@) by {
        assert("ANY"@.len() != "CHARACTER"@.len());
    }
    assert("ANY"@ != "VARCHAR"@) by {
        assert("ANY"@.len() != "VARCHAR"@.len());
    }
    assert("ANY"@ != "VARYING CHARACTER"@) by {
        assert("ANY"@.len() != "VARYING CHARACTER"@.len());
    }
    assert("ANY"@ != "NCHAR"@) by {
        assert("ANY"@.len() != "NCHAR"@.len());
    }
    assert("ANY"@ != "NATIVE CHARACTER"@) by {
        assert("ANY"@.len() != "NATIVE CHARACTER"@.len());
    }
    assert("ANY"@ != "NVARCHAR"@) by {
        assert("ANY"@.len() != "NVARCHAR"@.len());
    }
    assert("ANY"@ != "CLOB"@) by {
        assert("ANY"@.len() != "CLOB"@.len());
    }
    assert("ANY"@ != "DOUBLE"@) by {
        assert("ANY"@.len() != "DOUBLE"@.len());
    }
    assert("ANY"@ != "DOUBLE PRECISION"@) by {
        assert("ANY"@.len() != "DOUBLE PRECISION"@.len());
    }
    assert("ANY"@ != "FLOAT"@) by {
        assert("ANY"@.len() != "FLOAT"@.len());
    }
    assert("ANY"@ != "BOOLEAN"@) by {
        assert("ANY"@.len() != "BOOLEAN"@.len());
    }
    assert("ANY"@ != "DECIMAL"@) by {
        assert("ANY"@.len() != "DECIMAL"@.len());
    }
    assert("ANY"@ != "DATE"@) by {
        assert("ANY"@.len() != "DATE"@.len());
    }
    assert("ANY"@ != "DATETIME"@) by {
        assert("ANY"@.len() != "DATETIME"@.len());
    }
    assert("ANY"@ != "UNSPECIFIED"@) by {
        assert("ANY"@.len() != "UNSPECIFIED"@.len());
    }
    assert("BLOB"@ != "TEXT"@) by {
        assert("BLOB"@[0] != "TEXT"@[0]);
    }
    assert("BLOB"@ != "INTEGER"@) by {
        assert("BLOB"@.len() != "INTEGER"@.len());
    }
    assert("BLOB"@ != "REAL"@) by {
        assert("BLOB"@[0] != "REAL"@[0]);
    }
    assert("BLOB"@ != "NUMERIC"@) by {
        assert("BLOB"@.len() != "NUMERIC"@.len());
    }
    assert("BLOB"@ != "JSON"@) by {
        assert("BLOB"@[0] != "JSON"@[0]);
    }
    assert("BLOB"@ != "JSONB"@) by {
        assert("BLOB"@.len() != "JSONB"@.len());
    }
    assert("BLOB"@ != "INT"@) by {
        assert("BLOB"@.len() != "INT"@.len());
    }
    assert("BLOB"@ != "TINYINT"@) by {
        assert("BLOB"@.len() != "TINYINT"@.len());
    }
    assert("BLOB"@ != "SMALLINT"@) by {
        assert("BLOB"@.len() != "SMALLINT"@.len());
    }
    assert("BLOB"@ != "MEDIUMINT"@) by {
        assert("BLOB"@.len() != "MEDIUMINT"@.len());
    }
    assert("BLOB"@ != "BIGINT"@) by {
        assert("BLOB"@.len() != "BIGINT"@.len());
    }
    assert("BLOB"@ != "UNSIGNED BIG INT"@) by {
        assert("BLOB"@.len() != "UNSIGNED BIG INT"@.len());
    }
    assert("BLOB"@ != "INT2"@) by {
        assert("BLOB"@[0] != "INT2"@[0]);
    }
    assert("BLOB"@ != "INT4"@) by {
        assert("BLOB"@[0] != "INT4"@[0]);
    }
    assert("BLOB"@ != "INT8"@) by {
        assert("BLOB"@[0] != "INT8"@[0]);
    }
    assert("BLOB"@ != "CHARACTER"@) by {
        assert("BLOB"@.len() != "CHARACTER"@.len());
    }
    assert("BLOB"@ != "VARCHAR"@) by {
        assert("BLOB"@.len() != "VARCHAR"@.len());
    }
    assert("BLOB"@ != "VARYING CHARACTER"@) by {
        assert("BLOB"@.len() != "VARYING CHARACTER"@.len());
    }
    assert("BLOB"@ != "NCHAR"@) by {
        assert("BLOB"@.len() != "NCHAR"@.len());
    }
    assert("BLOB"@ != "NATIVE CHARACTER"@) by {
        assert("BLOB"@.len() != "NATIVE CHARACTER"@.len());
    }
    assert("BLOB"@ != "NVARCHAR"@) by {
        assert("BLOB"@.len() != "NVARCHAR"@.len());
    }
    assert("BLOB"@ != "CLOB"@) by {
        assert("BLOB"@[0] != "CLOB"@[0]);
    }
    assert("BLOB"@ != "DOUBLE"@) by {
        assert("BLOB"@.len() != "DOUBLE"@.len());
    }
    assert("BLOB"@ != "DOUBLE PRECISION"@) by {
        assert("BLOB"@.len() != "DOUBLE PRECISION"@.len());
    }
    assert("BLOB"@ != "FLOAT"@) by {
        assert("BLOB"@.len() != "FLOAT"@.len());
    }
    assert("BLOB"@ != "BOOLEAN"@) by {
        assert("BLOB"@.len() != "BOOLEAN"@.len());
    }
    assert("BLOB"@ != "DECIMAL"@) by {
        assert("BLOB"@.len() != "DECIMAL"@.len());
    }
    assert("BLOB"@ != "DATE"@) by {
        assert("BLOB"@[0] != "DATE"@[0]);
    }
    assert("BLOB"@ != "DATETIME"@) by {
        assert("BLOB"@.len() != "DATETIME"@.len());
    }
    assert("BLOB"@ != "UNSPECIFIED"@) by {
        assert("BLOB"@.len() != "UNSPECIFIED"@.len());
    }
    assert("TEXT"@ != "INTEGER"@) by {
        assert("TEXT"@.len() != "INTEGER"@.len());
    }
    assert("TEXT"@ != "REAL"@) by {
        assert("TEXT"@[0] != "REAL"@[0]);
    }
    assert("TEXT"@ != "NUMERIC"@) by {
        assert("TEXT"@.len() != "NUMERIC"@.len());
    }
    assert("TEXT"@ != "JSON"@) by {
        assert("TEXT"@[0] != "JSON"@[0]);
    }
    assert("TEXT"@ != "JSONB"@) by {
        assert("TEXT"@.len() != "JSONB"@.len());
    }
    assert("TEXT"@ != "INT"@) by {
        assert("TEXT"@.len() != "INT"@.len());
    }
    assert("TEXT"@ != "TINYINT"@) by {
        assert("TEXT"@.len() != "TINYINT"@.len());
    }
    assert("TEXT"@ != "SMALLINT"@) by {
        assert("TEXT"@.len() != "SMALLINT"@.len());
    }
    assert("TEXT"@ != "MEDIUMINT"@) by {
        assert("TEXT"@.len() != "MEDIUMINT"@.len());
    }
    assert("TEXT"@ != "BIGINT"@) by {
        assert("TEXT"@.len() != "BIGINT"@.len());
    }
    assert("TEXT"@ != "UNSIGNED BIG INT"@) by {
        assert("TEXT"@.len() != "UNSIGNED BIG INT"@.len());
    }
    assert("TEXT"@ != "INT2"@) by {
        assert("TEXT"@[0] != "INT2"@[0]);
    }
    assert("TEXT"@ != "INT4"@) by {
        assert("TEXT"@[0] != "INT4"@[0]);
    }
    assert("TEXT"@ != "INT8"@) by {
        assert("TEXT"@[0] != "INT8"@[0]);
    }
    assert("TEXT"@ != "CHARACTER"@) by {
        assert("TEXT"@.len() != "CHARACTER"@.len());
    }
    assert("TEXT"@ != "VARCHAR"@) by {
        assert("TEXT"@.len() != "VARCHAR"@.len());
    }
    assert("TEXT"@ != "VARYING CHARACTER"@) by {
        assert("TEXT"@.len() != "VARYING CHARACTER"@.len());
    }
    assert("TEXT"@ != "NCHAR"@) by {
        assert("TEXT"@.len() != "NCHAR"@.len());
    }
    assert("TEXT"@ != "NATIVE CHARACTER"@) by {
        assert("TEXT"@.len() != "NATIVE CHARACTER"@.len());
    }
    assert("TEXT"@ != "NVARCHAR"@) by {
        assert("TEXT"@.len() != "NVARCHAR"@.len());
    }
    assert("TEXT"@ != "CLOB"@) by {
        assert("TEXT"@[0] != "CLOB"@[0]);
    }
    assert("TEXT"@ != "DOUBLE"@) by {
        assert("TEXT"@.len() != "DOUBLE"@.len());
    }
    assert("TEXT"@ != "DOUBLE PRECISION"@) by {
        assert("TEXT"@.len() != "DOUBLE PRECISION"@.len());
    }
    assert("TEXT"@ != "FLOAT"@) by {
        assert("TEXT"@.len() != "FLOAT"@.len());
    }
    assert("TEXT"@ != "BOOLEAN"@) by {
        assert("TEXT"@.len() != "BOOLEAN"@.len());
    }
    assert("TEXT"@ != "DECIMAL"@) by {
        assert("TEXT"@.len() != "DECIMAL"@.len());
    }
    assert("TEXT"@ != "DATE"@) by {
        assert("TEXT"@[0] != "DATE"@[0]);
    }
    assert("TEXT"@ != "DATETIME"@) by {
        assert("TEXT"@.len() != "DATETIME"@.len());
    }
    assert("TEXT"@ != "UNSPECIFIED"@) by {
        assert("TEXT"@.len() != "UNSPECIFIED"@.len());
    }
    assert("INTEGER"@ != "REAL"@) by {
        assert("INTEGER"@.len() != "REAL"@.len());
    }
    assert("INTEGER"@ != "NUMERIC"@) by {
        assert("INTEGER"@[0] != "NUMERIC"@[0]);
    }
    assert("INTEGER"@ != "JSON"@) by {
        assert("INTEGER"@.len() != "JSON"@.len());
    }
    assert("INTEGER"@ != "JSONB"@) by {
        assert("INTEGER"@.len() != "JSONB"@.len());
    }
    assert("INTEGER"@ != "INT"@) by {
        assert("INTEGER"@.len() != "INT"@.len());
    }
    assert("INTEGER"@ != "TINYINT"@) by {
        assert("INTEGER"@[0] != "TINYINT"@[0]);
    }
    assert("INTEGER"@ != "SMALLINT"@) by {
        assert("INTEGER"@.len() != "SMALLINT"@.len());
    }
    assert("INTEGER"@ != "MEDIUMINT"@) by {
        assert("INTEGER"@.len() != "MEDIUMINT"@.len());
    }
    assert("INTEGER"@ != "BIGINT"@) by {
        assert("INTEGER"@.len() != "BIGINT"@.len());
    }
    assert("INTEGER"@ != "UNSIGNED BIG INT"@) by {
        assert("INTEGER"@.len() != "UNSIGNED BIG INT"@.len());
    }
    assert("INTEGER"@ != "INT2"@) by {
        assert("INTEGER"@.len() != "INT2"@.len());
    }
    assert("INTEGER"@ != "INT4"@) by {
        assert("INTEGER"@.len() != "INT4"@.len());
    }
    assert("INTEGER"@ != "INT8"@) by {
        assert("INTEGER"@.len() != "INT8"@.len());
    }
    assert("INTEGER"@ != "CHARACTER"@) by {
        assert("INTEGER"@.len() != "CHARACTER"@.len());
    }
    assert("INTEGER"@ != "VARCHAR"@) by {
        assert("INTEGER"@[0] != "VARCHAR"@[0]);
    }
    assert("INTEGER"@ != "VARYING CHARACTER"@) by {
        assert("INTEGER"@.len() != "VARYING CHARACTER"@.len());
    }
    assert("INTEGER"@ != "NCHAR"@) by {
        assert("INTEGER"@.len() != "NCHAR"@.len());
    }
    assert("INTEGER"@ != "NATIVE CHARACTER"@) by {
        assert("INTEGER"@.len() != "NATIVE CHARACTER"@.len());
    }
    assert("INTEGER"@ != "NVARCHAR"@) by {
        assert("INTEGER"@.len() != "NVARCHAR"@.len());
    }
    assert("INTEGER"@ != "CLOB"@) by {
        assert("INTEGER"@.len() != "CLOB"@.len());
    }
    assert("INTEGER"@ != "DOUBLE"@) by {
        assert("INTEGER"@.len() != "DOUBLE"@.len());
    }
    assert("INTEGER"@ != "DOUBLE PRECISION"@) by {
        assert("INTEGER"@.len() != "DOUBLE PRECISION"@.len());
    }
    assert("INTEGER"@ != "FLOAT"@) by {
        assert("INTEGER"@.len() != "FLOAT"@.len());
    }
    assert("INTEGER"@ != "BOOLEAN"@) by {
        assert("INTEGER"@[0] != "BOOLEAN"@[0]);
    }
    assert("INTEGER"@ != "DECIMAL"@) by {
        assert("INTEGER"@[0] != "DECIMAL"@[0]);
    }
    assert("INTEGER"@ != "DATE"@) by {
        assert("INTEGER"@.len() != "DATE"@.len());
    }
    assert("INTEGER"@ != "DATETIME"@) by {
        assert("INTEGER"@.len() != "DATETIME"@.len());
    }
    assert("INTEGER"@ != "UNSPECIFIED"@) by {
        assert("INTEGER"@.len() != "UNSPECIFIED"@.len());
    }
    assert("REAL"@ != "NUMERIC"@) by {
        assert("REAL"@.len() != "NUMERIC"@.len());
    }
    assert("REAL"@ != "JSON"@) by {
        assert("REAL"@[0] != "JSON"@[0]);
    }
    assert("REAL"@ != "JSONB"@) by {
        assert("REAL"@.len() != "JSONB"@.len());
    }
    assert("REAL"@ != "INT"@) by {
        assert("REAL"@.len() != "INT"@.len());
    }
    assert("REAL"@ != "TINYINT"@) by {
        assert("REAL"@.len() != "TINYINT"@.len());
    }
    assert("REAL"@ != "SMALLINT"@) by {
        assert("REAL"@.len() != "SMALLINT"@.len());
    }
    assert("REAL"@ != "MEDIUMINT"@) by {
        assert("REAL"@.len() != "MEDIUMINT"@.len());
    }
    assert("REAL"@ != "BIGINT"@) by {
        assert("REAL"@.len() != "BIGINT"@.len());
    }
    assert("REAL"@ != "UNSIGNED BIG INT"@) by {
        assert("REAL"@.len() != "UNSIGNED BIG INT"@.len());
    }
    assert("REAL"@ != "INT2"@) by {
        assert("REAL"@[0] != "INT2"@[0]);
    }
    assert("REAL"@ != "INT4"@) by {
        assert("REAL"@[0] != "INT4"@[0]);
    }
    assert("REAL"@ != "INT8"@) by {
        assert("REAL"@[0] != "INT8"@[0]);
    }
    assert("REAL"@ != "CHARACTER"@) by {
        assert("REAL"@.len() != "CHARACTER"@.len());
    }
    assert("REAL"@ != "VARCHAR"@) by {
        assert("REAL"@.len() != "VARCHAR"@.len());
    }
    assert("REAL"@ != "VARYING CHARACTER"@) by {
        assert("REAL"@.len() != "VARYING CHARACTER"@.len());
    }
    assert("REAL"@ != "NCHAR"@) by {
        assert("REAL"@.len() != "NCHAR"@.len());
    }
    assert("REAL"@ != "NATIVE CHARACTER"@) by {
        assert("REAL"@.len() != "NATIVE CHARACTER"@.len());
    }
    assert("REAL"@ != "NVARCHAR"@) by {
        assert("REAL"@.len() != "NVARCHAR"@.len());
    }
    assert("REAL"@ != "CLOB"@) by {
        assert("REAL"@[0] != "CLOB"@[0]);
    }
    assert("REAL"@ != "DOUBLE"@) by {
        assert("REAL"@.len() != "DOUBLE"@.len());
    }
    assert("REAL"@ != "DOUBLE PRECISION"@) by {
        assert("REAL"@.len() != "DOUBLE PRECISION"@.len());
    }
    assert("REAL"@ != "FLOAT"@) by {
        assert("REAL"@.len() != "FLOAT"@.len());
    }
    assert("REAL"@ != "BOOLEAN"@) by {
        assert("REAL"@.len() != "BOOLEAN"@.len());
    }
    assert("REAL"@ != "DECIMAL"@) by {
        assert("REAL"@.len() != "DECIMAL"@.len());
    }
    assert("REAL"@ != "DATE"@) by {
        assert("REAL"@[0] != "DATE"@[0]);
    }
    assert("REAL"@ != "DATETIME"@) by {
        assert("REAL"@.len() != "DATETIME"@.len());
    }
    assert("REAL"@ != "UNSPECIFIED"@) by {
        assert("REAL"@.len() != "UNSPECIFIED"@.len());
    }
    assert("NUMERIC"@ != "JSON"@) by {
        assert("NUMERIC"@.len() != "JSON"@.len());
    }
    assert("NUMERIC"@ != "JSONB"@) by {
        assert("NUMERIC"@.len() != "JSONB"@.len());
    }
    assert("NUMERIC"@ != "INT"@) by {
        assert("NUMERIC"@.len() != "INT"@.len());
    }
    assert("NUMERIC"@ != "TINYINT"@) by {
        assert("NUMERIC"@[0] != "TINYINT"@[0]);
    }
    assert("NUMERIC"@ != "SMALLINT"@) by {
        assert("NUMERIC"@.len() != "SMALLINT"@.len());
    }
    assert("NUMERIC"@ != "MEDIUMINT"@) by {
        assert("NUMERIC"@.len() != "MEDIUMINT"@.len());
    }
    assert("NUMERIC"@ != "BIGINT"@) by {
        assert("NUMERIC"@.len() != "BIGINT"@.len());
    }
    assert("NUMERIC"@ != "UNSIGNED BIG INT"@) by {
        assert("NUMERIC"@.len() != "UNSIGNED BIG INT"@.len());
    }
    assert("NUMERIC"@ != "INT2"@) by {
        assert("NUMERIC"@.len() != "INT2"@.len());
    }
    assert("NUMERIC"@ != "INT4"@) by {
        assert("NUMERIC"@.len() != "INT4"@.len());
    }
    assert("NUMERIC"@ != "INT8"@) by {
        assert("NUMERIC"@.len() != "INT8"@.len());
    }
    assert("NUMERIC"@ != "CHARACTER"@) by {
        assert("NUMERIC"@.len() != "CHARACTER"@.len());
    }
    assert("NUMERIC"@ != "VARCHAR"@) by {
        assert("NUMERIC"@[0] != "VARCHAR"@[0]);
    }
    assert("NUMERIC"@ != "VARYING CHARACTER"@) by {
        assert("NUMERIC"@.len() != "VARYING CHARACTER"@.len());
    }
    assert("NUMERIC"@ != "NCHAR"@) by {
        assert("NUMERIC"@.len() != "NCHAR"@.len());
    }
    assert("NUMERIC"@ != "NATIVE CHARACTER"@) by {
        assert("NUMERIC"@.len() != "NATIVE CHARACTER"@.len());
    }
    assert("NUMERIC"@ != "NVARCHAR"@) by {
        assert("NUMERIC"@.len() != "NVARCHAR"@.len());
    }
    assert("NUMERIC"@ != "CLOB"@) by {
        assert("NUMERIC"@.len() != "CLOB"@.len());
    }
    assert("NUMERIC"@ != "DOUBLE"@) by {
        assert("NUMERIC"@.len() != "DOUBLE"@.len());
    }
    assert("NUMERIC"@ != "DOUBLE PRECISION"@) by {
        assert("NUMERIC"@.len() != "DOUBLE PRECISION"@.len());
    }
    assert("NUMERIC"@ != "FLOAT"@) by {
        assert("NUMERIC"@.len() != "FLOAT"@.len());
    }
    assert("NUMERIC"@ != "BOOLEAN"@) by {
        assert("NUMERIC"@[0] != "BOOLEAN"@[0]);
    }
    assert("NUMERIC"@ != "DECIMAL"@) by {
        assert("NUMERIC"@[0] != "DECIMAL"@[0]);
    }
    assert("NUMERIC"@ != "DATE"@) by {
        assert("NUMERIC"@.len() != "DATE"@.len());
    }
    assert("NUMERIC"@ != "DATETIME"@) by {
        assert("NUMERIC"@.len() != "DATETIME"@.len());
    }
    assert("NUMERIC"@ != "UNSPECIFIED"@) by {
        assert("NUMERIC"@.len() != "UNSPECIFIED"@.len());
    }
    assert("JSON"@ != "JSONB"@) by {
        assert("JSON"@.len() != "JSONB"@.len());
    }
    assert("JSON"@ != "INT"@) by {
        assert("JSON"@.len() != "INT"@.len());
    }
    assert("JSON"@ != "TINYINT"@) by {
        assert("JSON"@.len() != "TINYINT"@.len());
    }
    assert("JSON"@ != "SMALLINT"@) by {
        assert("JSON"@.len() != "SMALLINT"@.len());
    }
    assert("JSON"@ != "MEDIUMINT"@) by {
        assert("JSON"@.len() != "MEDIUMINT"@.len());
    }
    assert("JSON"@ != "BIGINT"@) by {
        assert("JSON"@.len() != "BIGINT"@.len());
    }
    assert("JSON"@ != "UNSIGNED BIG INT"@) by {
        assert("JSON"@.len() != "UNSIGNED BIG INT"@.len());
    }
    assert("JSON"@ != "INT2"@) by {
        assert("JSON"@[0] != "INT2"@[0]);
    }
    assert("JSON"@ != "INT4"@) by {
        assert("JSON"@[0] != "INT4"@[0]);
    }
    assert("JSON"@ != "INT8"@) by {
        assert("JSON"@[0] != "INT8"@[0]);
    }
    assert("JSON"@ != "CHARACTER"@) by {
        assert("JSON"@.len() != "CHARACTER"@.len());
    }
    assert("JSON"@ != "VARCHAR"@) by {
        assert("JSON"@.len() != "VARCHAR"@.len());
    }
    assert("JSON"@ != "VARYING CHARACTER"@) by {
        assert("JSON"@.len() != "VARYING CHARACTER"@.len());
    }
    assert("JSON"@ != "NCHAR"@) by {
        assert("JSON"@.len() != "NCHAR"@.len());
    }
    assert("JSON"@ != "NATIVE CHARACTER"@) by {
        assert("JSON"@.len() != "NATIVE CHARACTER"@.len());
    }
    assert("JSON"@ != "NVARCHAR"@) by {
        assert("JSON"@.len() != "NVARCHAR"@.len());
    }
    assert("JSON"@ != "CLOB"@) by {
        assert("JSON"@[0] != "CLOB"@[0]);
    }
    assert("JSON"@ != "DOUBLE"@) by {
        assert("JSON"@.len() != "DOUBLE"@.len());
    }
    assert("JSON"@ != "DOUBLE PRECISION"@) by {
        assert("JSON"@.len() != "DOUBLE PRECISION"@.len());
    }
    assert("JSON"@ != "FLOAT"@) by {
        assert("JSON"@.len() != "FLOAT"@.len());
    }
    assert("JSON"@ != "BOOLEAN"@) by {
        assert("JSON"@.len() != "BOOLEAN"@.len());
    }
    assert("JSON"@ != "DECIMAL"@) by {
        assert("JSON"@.len() != "DECIMAL"@.len());
    }
    assert("JSON"@ != "DATE"@) by {
        assert("JSON"@[0] != "DATE"@[0]);
    }
    assert("JSON"@ != "DATETIME"@) by {
        assert("JSON"@.len() != "DATETIME"@.len());
    }
    assert("JSON"@ != "UNSPECIFIED"@) by {
        assert("JSON"@.len() != "UNSPECIFIED"@.len());
    }
    assert("JSONB"@ != "INT"@) by {
        assert("JSONB"@.len() != "INT"@.len());
    }
    assert("JSONB"@ != "TINYINT"@) by {
        assert("JSONB"@.len() != "TINYINT"@.len());
    }
    assert("JSONB"@ != "SMALLINT"@) by {
        assert("JSONB"@.len() != "SMALLINT"@.len());
    }
    assert("JSONB"@ != "MEDIUMINT"@) by {
        assert("JSONB"@.len() != "MEDIUMINT"@.len());
    }
    assert("JSONB"@ != "BIGINT"@) by {
        assert("JSONB"@.len() != "BIGINT"@.len());
    }
    assert("JSONB"@ != "UNSIGNED BIG INT"@) by {
        assert("JSONB"@.len() != "UNSIGNED BIG INT"@.len());
    }
    assert("JSONB"@ != "INT2"@) by {
        assert("JSONB"@.len() != "INT2"@.len());
    }
    assert("JSONB"@ != "INT4"@) by {
        assert("JSONB"@.len() != "INT4"@.len());
    }
    assert("JSONB"@ != "INT8"@) by {
        assert("JSONB"@.len() != "INT8"@.len());
    }
    assert("JSONB"@ != "CHARACTER"@) by {
        assert("JSONB"@.len() != "CHARACTER"@.len());
    }
    assert("JSONB"@ != "VARCHAR"@) by {
        assert("JSONB"@.len() != "VARCHAR"@.len());
    }
    assert("JSONB"@ != "VARYING CHARACTER"@) by {
        assert("JSONB"@.len() != "VARYING CHARACTER"@.len());
    }
    assert("JSONB"@ != "NCHAR"@) by {
        assert("JSONB"@[0] != "NCHAR"@[0]);
    }
    assert("JSONB"@ != "NATIVE CHARACTER"@) by {
        assert("JSONB"@.len() != "NATIVE CHARACTER"@.len());
    }
    assert("JSONB"@ != "NVARCHAR"@) by {
        assert("JSONB"@.len() != "NVARCHAR"@.len());
    }
    assert("JSONB"@ != "CLOB"@) by {
        assert("JSONB"@.len() != "CLOB"@.len());
    }
    assert("JSONB"@ != "DOUBLE"@) by {
        assert("JSONB"@.len() != "DOUBLE"@.len());
    }
    assert("JSONB"@ != "DOUBLE PRECISION"@) by {
        assert("JSONB"@.len() != "DOUBLE PRECISION"@.len());
    }
    assert("JSONB"@ != "FLOAT"@) by {
        assert("JSONB"@[0] != "FLOAT"@[0]);
    }
    assert("JSONB"@ != "BOOLEAN"@) by {
        assert("JSONB"@.len() != "BOOLEAN"@.len());
    }
    assert("JSONB"@ != "DECIMAL"@) by {
        assert("JSONB"@.len() != "DECIMAL"@.len());
    }
    assert("JSONB"@ != "DATE"@) by {
        assert("JSONB"@.len() != "DATE"@.len());
    }
    assert("JSONB"@ != "DATETIME"@) by {
        assert("JSONB"@.len() != "DATETIME"@.len());
    }
    assert("JSONB"@ != "UNSPECIFIED"@) by {
        assert("JSONB"@.len() != "UNSPECIFIED"@.len());
    }
    assert("INT"@ != "TINYINT"@) by {
        assert("INT"@.len() != "TINYINT"@.len());
    }
    assert("INT"@ != "SMALLINT"@) by {
        assert("INT"@.len() != "SMALLINT"@.len());
    }
    assert("INT"@ != "MEDIUMINT"@) by {
        assert("INT"@.len() != "MEDIUMINT"@.len());
    }
    assert("INT"@ != "BIGINT"@) by {
        assert("INT"@.len() != "BIGINT"@.len());
    }
    assert("INT"@ != "UNSIGNED BIG INT"@) by {
        assert("INT"@.len() != "UNSIGNED BIG INT"@.len());
    }
    assert("INT"@ != "INT2"@) by {
        assert("INT"@.len() != "INT2"@.len());
    }
    assert("INT"@ != "INT4"@) by {
        assert("INT"@.len() != "INT4"@.len());
    }
    assert("INT"@ != "INT8"@) by {
        assert("INT"@.len() != "INT8"@.len());
    }
    assert("INT"@ != "CHARACTER"@) by {
        assert("INT"@.len() != "CHARACTER"@.len());
    }
    assert("INT"@ != "VARCHAR"@) by {
        assert("INT"@.len() != "VARCHAR"@.len());
    }
    assert("INT"@ != "VARYING CHARACTER"@) by {
        assert("INT"@.len() != "VARYING CHARACTER"@.len());
    }
    assert("INT"@ != "NCHAR"@) by {
        assert("INT"@.len() != "NCHAR"@.len());
    }
    assert("INT"@ != "NATIVE CHARACTER"@) by {
        assert("INT"@.len() != "NATIVE CHARACTER"@.len());
    }
    assert("INT"@ != "NVARCHAR"@) by {
        assert("INT"@.len() != "NVARCHAR"@.len());
    }
    assert("INT"@ != "CLOB"@) by {
        assert("INT"@.len() != "CLOB"@.len());
    }
    assert("INT"@ != "DOUBLE"@) by {
        assert("INT"@.len() != "DOUBLE"@.len());
    }
    assert("INT"@ != "DOUBLE PRECISION"@) by {
        assert("INT"@.len() != "DOUBLE PRECISION"@.len());
    }
    assert("INT"@ != "FLOAT"@) by {
        assert("INT"@.len() != "FLOAT"@.len());
    }
    assert("INT"@ != "BOOLEAN"@) by {
        assert("INT"@.len() != "BOOLEAN"@.len());
    }
    assert("INT"@ != "DECIMAL"@) by {
        assert("INT"@.len() != "DECIMAL"@.len());
    }
    assert("INT"@ != "DATE"@) by {
        assert("INT"@.len() != "DATE"@.len());
    }
    assert("INT"@ != "DATETIME"@) by {
        assert("INT"@.len() != "DATETIME"@.len());
    }
    assert("INT"@ != "UNSPECIFIED"@) by {
        assert("INT"@.len() != "UNSPECIFIED"@.len());
    }
    assert("TINYINT"@ != "SMALLINT"@) by {
        assert("TINYINT"@.len() != "SMALLINT"@.len());
    }
    assert("TINYINT"@ != "MEDIUMINT"@) by {
        assert("TINYINT"@.len() != "MEDIUMINT"@.len());
    }
    assert("TINYINT"@ != "BIGINT"@) by {
        assert("TINYINT"@.len() != "BIGINT"@.len());
    }
    assert("TINYINT"@ != "UNSIGNED BIG INT"@) by {
        assert("TINYINT"@.len() != "UNSIGNED BIG INT"@.len());
    }
    assert("TINYINT"@ != "INT2"@) by {
        assert("TINYINT"@.len() != "INT2"@.len());
    }
    assert("TINYINT"@ != "INT4"@) by {
        assert("TINYINT"@.len() != "INT4"@.len());
    }
    assert("TINYINT"@ != "INT8"@) by {
        assert("TINYINT"@.len() != "INT8"@.len());
    }
    assert("TINYINT"@ != "CHARACTER"@) by {
        assert("TINYINT"@.len() != "CHARACTER"@.len());
    }
    assert("TINYINT"@ != "VARCHAR"@) by {
        assert("TINYINT"@[0] != "VARCHAR"@[0]);
    }
    assert("TINYINT"@ != "VARYING CHARACTER"@) by {
        assert("TINYINT"@.len() != "VARYING CHARACTER"@.len());
    }
    assert("TINYINT"@ != "NCHAR"@) by {
        assert("TINYINT"@.len() != "NCHAR"@.len());
    }
    assert("TINYINT"@ != "NATIVE CHARACTER"@) by {
        assert("TINYINT"@.len() != "NATIVE CHARACTER"@.len());
    }
    assert("TINYINT"@ != "NVARCHAR"@) by {
        assert("TINYINT"@.len() != "NVARCHAR"@.len());
    }
    assert("TINYINT"@ != "CLOB"@) by {
        assert("TINYINT"@.len() != "CLOB"@.len());
    }
    assert("TINYINT"@ != "DOUBLE"@) by {
        assert("TINYINT"@.len() != "DOUBLE"@.len());
    }
    assert("TINYINT"@ != "DOUBLE PRECISION"@) by {
        assert("TINYINT"@.len() != "DOUBLE PRECISION"@.len());
    }
    assert("TINYINT"@ != "FLOAT"@) by {
        assert("TINYINT"@.len() != "FLOAT"@.len());
    }
    assert("TINYINT"@ != "BOOLEAN"@) by {
        assert("TINYINT"@[0] != "BOOLEAN"@[0]);
    }
    assert("TINYINT"@ != "DECIMAL"@) by {
        assert("TINYINT"@[0] != "DECIMAL"@[0]);
    }
    assert("TINYINT"@ != "DATE"@) by {
        assert("TINYINT"@.len() != "DATE"@.len());
    }
    assert("TINYINT"@ != "DATETIME"@) by {
        assert("TINYINT"@.len() != "DATETIME"@.len());
    }
    assert("TINYINT"@ != "UNSPECIFIED"@) by {
        assert("TINYINT"@.len() != "UNSPECIFIED"@.len());
    }
    assert("SMALLINT"@ != "MEDIUMINT"@) by {
        assert("SMALLINT"@.len() != "MEDIUMINT"@.len());
    }
    assert("SMALLINT"@ != "BIGINT"@) by {
        assert("SMALLINT"@.len() != "BIGINT"@.len());
    }
    assert("SMALLINT"@ != "UNSIGNED BIG INT"@) by {
        assert("SMALLINT"@.len() != "UNSIGNED BIG INT"@.len());
    }
    assert("SMALLINT"@ != "INT2"@) by {
        assert("SMALLINT"@.len() != "INT2"@.len());
    }
    assert("SMALLINT"@ != "INT4"@) by {
        assert("SMALLINT"@.len() != "INT4"@.len());
    }
    assert("SMALLINT"@ != "INT8"@) by {
        assert("SMALLINT"@.len() != "INT8"@.len());
    }
    assert("SMALLINT"@ != "CHARACTER"@) by {
        assert("SMALLINT"@.len() != "CHARACTER"@.len());
    }
    assert("SMALLINT"@ != "VARCHAR"@) by {
        assert("SMALLINT"@.len() != "VARCHAR"@.len());
    }
    assert("SMALLINT"@ != "VARYING CHARACTER"@) by {
        assert("SMALLINT"@.len() != "VARYING CHARACTER"@.len());
    }
    assert("SMALLINT"@ != "NCHAR"@) by {
        assert("SMALLINT"@.len() != "NCHAR"@.len());
    }
    assert("SMALLINT"@ != "NATIVE CHARACTER"@) by {
        assert("SMALLINT"@.len() != "NATIVE CHARACTER"@.len());
    }
    assert("SMALLINT"@ != "NVARCHAR"@) by {
        assert("SMALLINT"@[0] != "NVARCHAR"@[0]);
    }
    assert("SMALLINT"@ != "CLOB"@) by {
        assert("SMALLINT"@.len() != "CLOB"@.len());
    }
    assert("SMALLINT"@ != "DOUBLE"@) by {
        assert("SMALLINT"@.len() != "DOUBLE"@.len());
    }
    assert("SMALLINT"@ != "DOUBLE PRECISION"@) by {
        assert("SMALLINT"@.len() != "DOUBLE PRECISION"@.len());
    }
    assert("SMALLINT"@ != "FLOAT"@) by {
        assert("SMALLINT"@.len() != "FLOAT"@.len());
    }
    assert("SMALLINT"@ != "BOOLEAN"@) by {
        assert("SMALLINT"@.len() != "BOOLEAN"@.len());
    }
    assert("SMALLINT"@ != "DECIMAL"@) by {
        assert("SMALLINT"@.len() != "DECIMAL"@.len());
    }
    assert("SMALLINT"@ != "DATE"@) by {
        assert("SMALLINT"@.len() != "DATE"@.len());
    }
    assert("SMALLINT"@ != "DATETIME"@) by {
        assert("SMALLINT"@[0] != "DATETIME"@[0]);
    }
    assert("SMALLINT"@ != "UNSPECIFIED"@) by {
        assert("SMALLINT"@.len() != "UNSPECIFIED"@.len());
    }
    assert("MEDIUMINT"@ != "BIGINT"@) by {
        assert("MEDIUMINT"@.len() != "BIGINT"@.len());
    }
    assert("MEDIUMINT"@ != "UNSIGNED BIG INT"@) by {
        assert("MEDIUMINT"@.len() != "UNSIGNED BIG INT"@.len());
    }
    assert("MEDIUMINT"@ != "INT2"@) by {
        assert("MEDIUMINT"@.len() != "INT2"@.len());
    }
    assert("MEDIUMINT"@ != "INT4"@) by {
        assert("MEDIUMINT"@.len() != "INT4"@.len());
    }
    assert("MEDIUMINT"@ != "INT8"@) by {
        assert("MEDIUMINT"@.len() != "INT8"@.len());
    }
    assert("MEDIUMINT"@ != "CHARACTER"@) by {
        assert("MEDIUMINT"@[0] != "CHARACTER"@[0]);
    }
    assert("MEDIUMINT"@ != "VARCHAR"@) by {
        assert("MEDIUMINT"@.len() != "VARCHAR"@.len());
    }
    assert("MEDIUMINT"@ != "VARYING CHARACTER"@) by {
        assert("MEDIUMINT"@.len() != "VARYING CHARACTER"@.len());
    }
    assert("MEDIUMINT"@ != "NCHAR"@) by {
        assert("MEDIUMINT"@.len() != "NCHAR"@.len());
    }
    assert("MEDIUMINT"@ != "NATIVE CHARACTER"@) by {
        assert("MEDIUMINT"@.len() != "NATIVE CHARACTER"@.len());
    }
    assert("MEDIUMINT"@ != "NVARCHAR"@) by {
        assert("MEDIUMINT"@.len() != "NVARCHAR"@.len());
    }
    assert("MEDIUMINT"@ != "CLOB"@) by {
        assert("MEDIUMINT"@.len() != "CLOB"@.len());
    }
    assert("MEDIUMINT"@ != "DOUBLE"@) by {
        assert("MEDIUMINT"@.len() != "DOUBLE"@.len());
    }
    assert("MEDIUMINT"@ != "DOUBLE PRECISION"@) by {
        assert("MEDIUMINT"@.len() != "DOUBLE PRECISION"@.len());
    }
    assert("MEDIUMINT"@ != "FLOAT"@) by {
        assert("MEDIUMINT"@.len() != "FLOAT"@.len());
    }
    assert("MEDIUMINT"@ != "BOOLEAN"@) by {
        assert("MEDIUMINT"@.len() != "BOOLEAN"@.len());
    }
    assert("MEDIUMINT"@ != "DECIMAL"@) by {
        assert("MEDIUMINT"@.len() != "DECIMAL"@.len());
    }
    assert("MEDIUMINT"@ != "DATE"@) by {
        assert("MEDIUMINT"@.len() != "DATE"@.len());
    }
    assert("MEDIUMINT"@ != "DATETIME"@) by {
        assert("MEDIUMINT"@.len() != "DATETIME"@.len());
    }
    assert("MEDIUMINT"@ != "UNSPECIFIED"@) by {
        assert("MEDIUMINT"@.len() != "UNSPECIFIED"@.len());
    }
    assert("BIGINT"@ != "UNSIGNED BIG INT"@) by {
        assert("BIGINT"@.len() != "UNSIGNED BIG INT"@.len());
    }
    assert("BIGINT"@ != "INT2"@) by {
        assert("BIGINT"@.len() != "INT2"@.len());
    }
    assert("BIGINT"@ != "INT4"@) by {
        assert("BIGINT"@.len() != "INT4"@.len());
    }
    assert("BIGINT"@ != "INT8"@) by {
        assert("BIGINT"@.len() != "INT8"@.len());
    }
    assert("BIGINT"@ != "CHARACTER"@) by {
        assert("BIGINT"@.len() != "CHARACTER"@.len());
    }
    assert("BIGINT"@ != "VARCHAR"@) by {
        assert("BIGINT"@.len() != "VARCHAR"@.len());
    }
    assert("BIGINT"@ != "VARYING CHARACTER"@) by {
        assert("BIGINT"@.len() != "VARYING CHARACTER"@.len());
    }
    assert("BIGINT"@ != "NCHAR"@) by {
        assert("BIGINT"@.len() != "NCHAR"@.len());
    }
    assert("BIGINT"@ != "NATIVE CHARACTER"@) by {
        assert("BIGINT"@.len() != "NATIVE CHARACTER"@.len());
    }
    assert("BIGINT"@ != "NVARCHAR"@) by {
        assert("BIGINT"@.len() != "NVARCHAR"@.len());
    }
    assert("BIGINT"@ != "CLOB"@) by {
        assert("BIGINT"@.len() != "CLOB"@.len());
    }
    assert("BIGINT"@ != "DOUBLE"@) by {
        assert("BIGINT"@[0] != "DOUBLE"@[0]);
    }
    assert("BIGINT"@ != "DOUBLE PRECISION"@) by {
        assert("BIGINT"@.len() != "DOUBLE PRECISION"@.len());
    }
    assert("BIGINT"@ != "FLOAT"@) by {
        assert("BIGINT"@.len() != "FLOAT"@.len());
    }
    assert("BIGINT"@ != "BOOLEAN"@) by {
        assert("BIGINT"@.len() != "BOOLEAN"@.len());
    }
    assert("BIGINT"@ != "DECIMAL"@) by {
        assert("BIGINT"@.len() != "DECIMAL"@.len());
    }
    assert("BIGINT"@ != "DATE"@) by {
        assert("BIGINT"@.len() != "DATE"@.len());
    }
    assert("BIGINT"@ != "DATETIME"@) by {
        assert("BIGINT"@.len() != "DATETIME"@.len());
    }
    assert("BIGINT"@ != "UNSPECIFIED"@) by {
        assert("BIGINT"@.len() != "UNSPECIFIED"@.len());
    }
    assert("UNSIGNED BIG INT"@ != "INT2"@) by {
        assert("UNSIGNED BIG INT"@.len() != "INT2"@.len());
    }
    assert("UNSIGNED BIG INT"@ != "INT4"@) by {
        assert("UNSIGNED BIG INT"@.len() != "INT4"@.len());
    }
    assert("UNSIGNED BIG INT"@ != "INT8"@) by {
        assert("UNSIGNED BIG INT"@.len() != "INT8"@.len());
    }
    assert("UNSIGNED BIG INT"@ != "CHARACTER"@) by {
        assert("UNSIGNED BIG INT"@.len() != "CHARACTER"@.len());
    }
    assert("UNSIGNED BIG INT"@ != "VARCHAR"@) by {
        assert("UNSIGNED BIG INT"@.len() != "VARCHAR"@.len());
    }
    assert("UNSIGNED BIG INT"@ != "VARYING CHARACTER"@) by {
        assert("UNSIGNED BIG INT"@.len() != "VARYING CHARACTER"@.len());
    }
    assert("UNSIGNED BIG INT"@ != "NCHAR"@) by {
        assert("UNSIGNED BIG INT"@.len() != "NCHAR"@.len());
    }
    assert("UNSIGNED BIG INT"@ != "NATIVE CHARACTER"@) by {
        assert("UNSIGNED BIG INT"@[0] != "NATIVE CHARACTER"@[0]);
    }
    assert("UNSIGNED BIG INT"@ != "NVARCHAR"@) by {
        assert("UNSIGNED BIG INT"@.len() != "NVARCHAR"@.len());
    }
    assert("UNSIGNED BIG INT"@ != "CLOB"@) by {
        assert("UNSIGNED BIG INT"@.len() != "CLOB"@.len());
    }
    assert("UNSIGNED BIG INT"@ != "DOUBLE"@) by {
        assert("UNSIGNED BIG INT"@.len() != "DOUBLE"@.len());
    }
    assert("UNSIGNED BIG INT"@ != "DOUBLE PRECISION"@) by {
        assert("UNSIGNED BIG INT"@[0] != "DOUBLE PRECISION"@[0]);
    }
    assert("UNSIGNED BIG INT"@ != "FLOAT"@) by {
        assert("UNSIGNED BIG INT"@.len() != "FLOAT"@.len());
    }
    assert("UNSIGNED BIG INT"@ != "BOOLEAN"@) by {
        assert("UNSIGNED BIG INT"@.len() != "BOOLEAN"@.len());
    }
    assert("UNSIGNED BIG INT"@ != "DECIMAL"@) by {
        assert("UNSIGNED BIG INT"@.len() != "DECIMAL"@.len());
    }
    assert("UNSIGNED BIG INT"@ != "DATE"@) by {
        assert("UNSIGNED BIG INT"@.len() != "DATE"@.len());
    }
    assert("UNSIGNED BIG INT"@ != "DATETIME"@) by {
        assert("UNSIGNED BIG INT"@.len() != "DATETIME"@.len());
    }
    assert("UNSIGNED BIG INT"@ != "UNSPECIFIED"@) by {
        assert("UNSIGNED BIG INT"@.len() != "UNSPECIFIED"@.len());
    }
    assert("INT2"@ != "INT4"@) by {
        assert("INT2"@[3] != "INT4"@[3]);
    }
    assert("INT2"@ != "INT8"@) by {
        assert("INT2"@[3] != "INT8"@[3]);
    }
    assert("INT2"@ != "CHARACTER"@) by {
        assert("INT2"@.len() != "CHARACTER"@.len());
    }
    assert("INT2"@ != "VARCHAR"@) by {
        assert("INT2"@.len() != "VARCHAR"@.len());
    }
    assert("INT2"@ != "VARYING CHARACTER"@) by {
        assert("INT2"@.len() != "VARYING CHARACTER"@.len());
    }
    assert("INT2"@ != "NCHAR"@) by {
        assert("INT2"@.len() != "NCHAR"@.len());
    }
    assert("INT2"@ != "NATIVE CHARACTER"@) by {
        assert("INT2"@.len() != "NATIVE CHARACTER"@.len());
    }
    assert("INT2"@ != "NVARCHAR"@) by {
        assert("INT2"@.len() != "NVARCHAR"@.len());
    }
    assert("INT2"@ != "CLOB"@) by {
        assert("INT2"@[0] != "CLOB"@[0]);
    }
    assert("INT2"@ != "DOUBLE"@) by {
        assert("INT2"@.len() != "DOUBLE"@.len());
    }
    assert("INT2"@ != "DOUBLE PRECISION"@) by {
        assert("INT2"@.len() != "DOUBLE PRECISION"@.len());
    }
    assert("INT2"@ != "FLOAT"@) by {
        assert("INT2"@.len() != "FLOAT"@.len());
    }
    assert("INT2"@ != "BOOLEAN"@) by {
        assert("INT2"@.len() != "BOOLEAN"@.len());
    }
    assert("INT2"@ != "DECIMAL"@) by {
        assert("INT2"@.len() != "DECIMAL"@.len());
    }
    assert("INT2"@ != "DATE"@) by {
        assert("INT2"@[0] != "DATE"@[0]);
    }
    assert("INT2"@ != "DATETIME"@) by {
        assert("INT2"@.len() != "DATETIME"@.len());
    }
    assert("INT2"@ != "UNSPECIFIED"@) by {
        assert("INT2"@.len() != "UNSPECIFIED"@.len());
    }
    assert("INT4"@ != "INT8"@) by {
        assert("INT4"@[3] != "INT8"@[3]);
    }
    assert("INT4"@ != "CHARACTER"@) by {
        assert("INT4"@.len() != "CHARACTER"@.len());
    }
    assert("INT4"@ != "VARCHAR"@) by {
        assert("INT4"@.len() != "VARCHAR"@.len());
    }
    assert("INT4"@ != "VARYING CHARACTER"@) by {
        assert("INT4"@.len() != "VARYING CHARACTER"@.len());
    }
    assert("INT4"@ != "NCHAR"@) by {
        assert("INT4"@.len() != "NCHAR"@.len());
    }
    assert("INT4"@ != "NATIVE CHARACTER"@) by {
        assert("INT4"@.len() != "NATIVE CHARACTER"@.len());
    }
    assert("INT4"@ != "NVARCHAR"@) by {
        assert("INT4"@.len() != "NVARCHAR"@.len());
    }
    assert("INT4"@ != "CLOB"@) by {
        assert("INT4"@[0] != "CLOB"@[0]);
    }
    assert("INT4"@ != "DOUBLE"@) by {
        assert("INT4"@.len() != "DOUBLE"@.len());
    }
    assert("INT4"@ != "DOUBLE PRECISION"@) by {
        assert("INT4"@.len() != "DOUBLE PRECISION"@.len());
    }
    assert("INT4"@ != "FLOAT"@) by {
        assert("INT4"@.len() != "FLOAT"@.len());
    }
    assert("INT4"@ != "BOOLEAN"@) by {
        assert("INT4"@.len() != "BOOLEAN"@.len());
    }
    assert("INT4"@ != "DECIMAL"@) by {
        assert("INT4"@.len() != "DECIMAL"@.len());
    }
    assert("INT4"@ != "DATE"@) by {
        assert("INT4"@[0] != "DATE"@[0]);
    }
    assert("INT4"@ != "DATETIME"@) by {
        assert("INT4"@.len() != "DATETIME"@.len());
    }
    assert("INT4"@ != "UNSPECIFIED"@) by {
        assert("INT4"@.len() != "UNSPECIFIED"@.len());
    }
    assert("INT8"@ != "CHARACTER"@) by {
        assert("INT8"@.len() != "CHARACTER"@.len());
    }
    assert("INT8"@ != "VARCHAR"@) by {
        assert("INT8"@.len() != "VARCHAR"@.len());
    }
    assert("INT8"@ != "VARYING CHARACTER"@) by {
        assert("INT8"@.len() != "VARYING CHARACTER"@.len());
    }
    assert("INT8"@ != "NCHAR"@) by {
        assert("INT8"@.len() != "NCHAR"@.len());
    }
    assert("INT8"@ != "NATIVE CHARACTER"@) by {
        assert("INT8"@.len() != "NATIVE CHARACTER"@.len());
    }
    assert("INT8"@ != "NVARCHAR"@) by {
        assert("INT8"@.len() != "NVARCHAR"@.len());
    }
    assert("INT8"@ != "CLOB"@) by {
        assert("INT8"@[0] != "CLOB"@[0]);
    }
    assert("INT8"@ != "DOUBLE"@) by {
        assert("INT8"@.len() != "DOUBLE"@.len());
    }
    assert("INT8"@ != "DOUBLE PRECISION"@) by {
        assert("INT8"@.len() != "DOUBLE PRECISION"@.len());
    }
    assert("INT8"@ != "FLOAT"@) by {
        assert("INT8"@.len() != "FLOAT"@.len());
    }
    assert("INT8"@ != "BOOLEAN"@) by {
        assert("INT8"@.len() != "BOOLEAN"@.len());
    }
    assert("INT8"@ != "DECIMAL"@) by {
        assert("INT8"@.len() != "DECIMAL"@.len());
    }
    assert("INT8"@ != "DATE"@) by {
        assert("INT8"@[0] != "DATE"@[0]);
    }
    assert("INT8"@ != "DATETIME"@) by {
        assert("INT8"@.len() != "DATETIME"@.len());
    }
    assert("INT8"@ != "UNSPECIFIED"@) by {
        assert("INT8"@.len() != "UNSPECIFIED"@.len());
    }
    assert("CHARACTER"@ != "VARCHAR"@) by {
        assert("CHARACTER"@.len() != "VARCHAR"@.len());
    }
    assert("CHARACTER"@ != "VARYING CHARACTER"@) by {
        assert("CHARACTER"@.len() != "VARYING CHARACTER"@.len());
    }
    assert("CHARACTER"@ != "NCHAR"@) by {
        assert("CHARACTER"@.len() != "NCHAR"@.len());
    }
    assert("CHARACTER"@ != "NATIVE CHARACTER"@) by {
        assert("CHARACTER"@.len() != "NATIVE CHARACTER"@.len());
    }
    assert("CHARACTER"@ != "NVARCHAR"@) by {
        assert("CHARACTER"@.len() != "NVARCHAR"@.len());
    }
    assert("CHARACTER"@ != "CLOB"@) by {
        assert("CHARACTER"@.len() != "CLOB"@.len());
    }
    assert("CHARACTER"@ != "DOUBLE"@) by {
        assert("CHARACTER"@.len() != "DOUBLE"@.len());
    }
    assert("CHARACTER"@ != "DOUBLE PRECISION"@) by {
        assert("CHARACTER"@.len() != "DOUBLE PRECISION"@.len());
    }
    assert("CHARACTER"@ != "FLOAT"@) by {
        assert("CHARACTER"@.len() != "FLOAT"@.len());
    }
    assert("CHARACTER"@ != "BOOLEAN"@) by {
        assert("CHARACTER"@.len() != "BOOLEAN"@.len());
    }
    assert("CHARACTER"@ != "DECIMAL"@) by {
        assert("CHARACTER"@.len() != "DECIMAL"@.len());
    }
    assert("CHARACTER"@ != "DATE"@) by {
        assert("CHARACTER"@.len() != "DATE"@.len());
    }
    assert("CHARACTER"@ != "DATETIME"@) by {
        assert("CHARACTER"@.len() != "DATETIME"@.len());
    }
    assert("CHARACTER"@ != "UNSPECIFIED"@) by {
        assert("CHARACTER"@.len() != "UNSPECIFIED"@.len());
    }
    assert("VARCHAR"@ != "VARYING CHARACTER"@) by {
        assert("VARCHAR"@.len() != "VARYING CHARACTER"@.len());
    }
    assert("VARCHAR"@ != "NCHAR"@) by {
        assert("VARCHAR"@.len() != "NCHAR"@.len());
    }
    assert("VARCHAR"@ != "NATIVE CHARACTER"@) by {
        assert("VARCHAR"@.len() != "NATIVE CHARACTER"@.len());
    }
    assert("VARCHAR"@ != "NVARCHAR"@) by {
        assert("VARCHAR"@.len() != "NVARCHAR"@.len());
    }
    assert("VARCHAR"@ != "CLOB"@) by {
        assert("VARCHAR"@.len() != "CLOB"@.len());
    }
    assert("VARCHAR"@ != "DOUBLE"@) by {
        assert("VARCHAR"@.len() != "DOUBLE"@.len());
    }
    assert("VARCHAR"@ != "DOUBLE PRECISION"@) by {
        assert("VARCHAR"@.len() != "DOUBLE PRECISION"@.len());
    }
    assert("VARCHAR"@ != "FLOAT"@) by {
        assert("VARCHAR"@.len() != "FLOAT"@.len());
    }
    assert("VARCHAR"@ != "BOOLEAN"@) by {
        assert("VARCHAR"@[0] != "BOOLEAN"@[0]);
    }
    assert("VARCHAR"@ != "DECIMAL"@) by {
        assert("VARCHAR"@[0] != "DECIMAL"@[0]);
    }
    assert("VARCHAR"@ != "DATE"@) by {
        assert("VARCHAR"@.len() != "DATE"@.len());
    }
    assert("VARCHAR"@ != "DATETIME"@) by {
        assert("VARCHAR"@.len() != "DATETIME"@.len());
    }
    assert("VARCHAR"@ != "UNSPECIFIED"@) by {
        assert("VARCHAR"@.len() != "UNSPECIFIED"@.len());
    }
    assert("VARYING CHARACTER"@ != "NCHAR"@) by {
        assert("VARYING CHARACTER"@.len() != "NCHAR"@.len());
    }
    assert("VARYING CHARACTER"@ != "NATIVE CHARACTER"@) by {
        assert("VARYING CHARACTER"@.len() != "NATIVE CHARACTER"@.len());
    }
    assert("VARYING CHARACTER"@ != "NVARCHAR"@) by {
        assert("VARYING CHARACTER"@.len() != "NVARCHAR"@.len());
    }
    assert("VARYING CHARACTER"@ != "CLOB"@) by {
        assert("VARYING CHARACTER"@.len() != "CLOB"@.len());
    }
    assert("VARYING CHARACTER"@ != "DOUBLE"@) by {
        assert("VARYING CHARACTER"@.len() != "DOUBLE"@.len());
    }
    assert("VARYING CHARACTER"@ != "DOUBLE PRECISION"@) by {
        assert("VARYING CHARACTER"@.len() != "DOUBLE PRECISION"@.len());
    }
    assert("VARYING CHARACTER"@ != "FLOAT"@) by {
        assert("VARYING CHARACTER"@.len() != "FLOAT"@.len());
    }
    assert("VARYING CHARACTER"@ != "BOOLEAN"@) by {
        assert("VARYING CHARACTER"@.len() != "BOOLEAN"@.len());
    }
    assert("VARYING CHARACTER"@ != "DECIMAL"@) by {
        assert("VARYING CHARACTER"@.len() != "DECIMAL"@.len());
    }
    assert("VARYING CHARACTER"@ != "DATE"@) by {
        assert("VARYING CHARACTER"@.len() != "DATE"@.len());
    }
    assert("VARYING CHARACTER"@ != "DATETIME"@) by {
        assert("VARYING CHARACTER"@.len() != "DATETIME"@.len());
    }
    assert("VARYING CHARACTER"@ != "UNSPECIFIED"@) by {
        assert("VARYING CHARACTER"@.len() != "UNSPECIFIED"@.len());
    }
    assert("NCHAR"@ != "NATIVE CHARACTER"@) by {
        assert("NCHAR"@.len() != "NATIVE CHARACTER"@.len());
    }
    assert("NCHAR"@ != "NVARCHAR"@) by {
        assert("NCHAR"@.len() != "NVARCHAR"@.len());
    }
    assert("NCHAR"@ != "CLOB"@) by {
        assert("NCHAR"@.len() != "CLOB"@.len());
    }
    assert("NCHAR"@ != "DOUBLE"@) by {
        assert("NCHAR"@.len() != "DOUBLE"@.len());
    }
    assert("NCHAR"@ != "DOUBLE PRECISION"@) by {
        assert("NCHAR"@.len() != "DOUBLE PRECISION"@.len());
    }
    assert("NCHAR"@ != "FLOAT"@) by {
        assert("NCHAR"@[0] != "FLOAT"@[0]);
    }
    assert("NCHAR"@ != "BOOLEAN"@) by {
        assert("NCHAR"@.len() != "BOOLEAN"@.len());
    }
    assert("NCHAR"@ != "DECIMAL"@) by {
        assert("NCHAR"@.len() != "DECIMAL"@.len());
    }
    assert("NCHAR"@ != "DATE"@) by {
        assert("NCHAR"@.len() != "DATE"@.len());
    }
    assert("NCHAR"@ != "DATETIME"@) by {
        assert("NCHAR"@.len() != "DATETIME"@.len());
    }
    assert("NCHAR"@ != "UNSPECIFIED"@) by {
        assert("NCHAR"@.len() != "UNSPECIFIED"@.len());
    }
    assert("NATIVE CHARACTER"@ != "NVARCHAR"@) by {
        assert("NATIVE CHARACTER"@.len() != "NVARCHAR"@.len());
    }
    assert("NATIVE CHARACTER"@ != "CLOB"@) by {
        assert("NATIVE CHARACTER"@.len() != "CLOB"@.len());
    }
    assert("NATIVE CHARACTER"@ != "DOUBLE"@) by {
        assert("NATIVE CHARACTER"@.len() != "DOUBLE"@.len());
    }
    assert("NATIVE CHARACTER"@ != "DOUBLE PRECISION"@) by {
        assert("NATIVE CHARACTER"@[0] != "DOUBLE PRECISION"@[0]);
    }
    assert("NATIVE CHARACTER"@ != "FLOAT"@) by {
        assert("NATIVE CHARACTER"@.len() != "FLOAT"@.len());
    }
    assert("NATIVE CHARACTER"@ != "BOOLEAN"@) by {
        assert("NATIVE CHARACTER"@.len() != "BOOLEAN"@.len());
    }
    assert("NATIVE CHARACTER"@ != "DECIMAL"@) by {
        assert("NATIVE CHARACTER"@.len() != "DECIMAL"@.len());
    }
    assert("NATIVE CHARACTER"@ != "DATE"@) by {
        assert("NATIVE CHARACTER"@.len() != "DATE"@.len());
    }
    assert("NATIVE CHARACTER"@ != "DATETIME"@) by {
        assert("NATIVE CHARACTER"@.len() != "DATETIME"@.len());
    }
    assert("NATIVE CHARACTER"@ != "UNSPECIFIED"@) by {
        assert("NATIVE CHARACTER"@.len() != "UNSPECIFIED"@.len());
    }
    assert("NVARCHAR"@ != "CLOB"@) by {
        assert("NVARCHAR"@.len() != "CLOB"@.len());
    }
    assert("NVARCHAR"@ != "DOUBLE"@) by {
        assert("NVARCHAR"@.len() != "DOUBLE"@.len());
    }
    assert("NVARCHAR"@ != "DOUBLE PRECISION"@) by {
        assert("NVARCHAR"@.len() != "DOUBLE PRECISION"@.len());
    }
    assert("NVARCHAR"@ != "FLOAT"@) by {
        assert("NVARCHAR"@.len() != "FLOAT"@.len());
    }
    assert("NVARCHAR"@ != "BOOLEAN"@) by {
        assert("NVARCHAR"@.len() != "BOOLEAN"@.len());
    }
    assert("NVARCHAR"@ != "DECIMAL"@) by {
        assert("NVARCHAR"@.len() != "DECIMAL"@.len());
    }
    assert("NVARCHAR"@ != "DATE"@) by {
        assert("NVARCHAR"@.len() != "DATE"@.len());
    }
    assert("NVARCHAR"@ != "DATETIME"@) by {
        assert("NVARCHAR"@[0] != "DATETIME"@[0]);
    }
    assert("NVARCHAR"@ != "UNSPECIFIED"@) by {
        assert("NVARCHAR"@.len() != "UNSPECIFIED"@.len());
    }
    assert("CLOB"@ != "DOUBLE"@) by {
        assert("CLOB"@.len() != "DOUBLE"@.len());
    }
    assert("CLOB"@ != "DOUBLE PRECISION"@) by {
        assert("CLOB"@.len() != "DOUBLE PRECISION"@.len());
    }
    assert("CLOB"@ != "FLOAT"@) by {
        assert("CLOB"@.len() != "FLOAT"@.len());
    }
    assert("CLOB"@ != "BOOLEAN"@) by {
        assert("CLOB"@.len() != "BOOLEAN"@.len());
    }
    assert("CLOB"@ != "DECIMAL"@) by {
        assert("CLOB"@.len() != "DECIMAL"@.len());
    }
    assert("CLOB"@ != "DATE"@) by {
        assert("CLOB"@[0] != "DATE"@[0]);
    }
    assert("CLOB"@ != "DATETIME"@) by {
        assert("CLOB"@.len() != "DATETIME"@.len());
    }
    assert("CLOB"@ != "UNSPECIFIED"@) by {
        assert("CLOB"@.len() != "UNSPECIFIED"@.len());
    }
    assert("DOUBLE"@ != "DOUBLE PRECISION"@) by {
        assert("DOUBLE"@.len() != "DOUBLE PRECISION"@.len());
    }
    assert("DOUBLE"@ != "FLOAT"@) by {
        assert("DOUBLE"@.len() != "FLOAT"@.len());
    }
    assert("DOUBLE"@ != "BOOLEAN"@) by {
        assert("DOUBLE"@.len() != "BOOLEAN"@.len());
    }
    assert("DOUBLE"@ != "DECIMAL"@) by {
        assert("DOUBLE"@.len() != "DECIMAL"@.len());
    }
    assert("DOUBLE"@ != "DATE"@) by {
        assert("DOUBLE"@.len() != "DATE"@.len());
    }
    assert("DOUBLE"@ != "DATETIME"@) by {
        assert("DOUBLE"@.len() != "DATETIME"@.len());
    }
    assert("DOUBLE"@ != "UNSPECIFIED"@) by {
        assert("DOUBLE"@.len() != "UNSPECIFIED"@.len());
    }
    assert("DOUBLE PRECISION"@ != "FLOAT"@) by {
        assert("DOUBLE PRECISION"@.len() != "FLOAT"@.len());
    }
    assert("DOUBLE PRECISION"@ != "BOOLEAN"@) by {
        assert("DOUBLE PRECISION"@.len() != "BOOLEAN"@.len());
    }
    assert("DOUBLE PRECISION"@ != "DECIMAL"@) by {
        assert("DOUBLE PRECISION"@.len() != "DECIMAL"@.len());
    }
    assert("DOUBLE PRECISION"@ != "DATE"@) by {
        assert("DOUBLE PRECISION"@.len() != "DATE"@.len());
    }
    assert("DOUBLE PRECISION"@ != "DATETIME"@) by {
        assert("DOUBLE PRECISION"@.len() != "DATETIME"@.len());
    }
    assert("DOUBLE PRECISION"@ != "UNSPECIFIED"@) by {
        assert("DOUBLE PRECISION"@.len() != "UNSPECIFIED"@.len());
    }
    assert("FLOAT"@ != "BOOLEAN"@) by {
        assert("FLOAT"@.len() != "BOOLEAN"@.len());
    }
    assert("FLOAT"@ != "DECIMAL"@) by {
        assert("FLOAT"@.len() != "DECIMAL"@.len());
    }
    assert("FLOAT"@ != "DATE"@) by {
        assert("FLOAT"@.len() != "DATE"@.len());
    }
    assert("FLOAT"@ != "DATETIME"@) by {
        assert("FLOAT"@.len() != "DATETIME"@.len());
    }
    assert("FLOAT"@ != "UNSPECIFIED"@) by {
        assert("FLOAT"@.len() != "UNSPECIFIED"@.len());
    }
    assert("BOOLEAN"@ != "DECIMAL"@) by {
        assert("BOOLEAN"@[0] != "DECIMAL"@[0]);
    }
    assert("BOOLEAN"@ != "DATE"@) by {
        assert("BOOLEAN"@.len() != "DATE"@.len());
    }
    assert("BOOLEAN"@ != "DATETIME"@) by {
        assert("BOOLEAN"@.len() != "DATETIME"@.len());
    }
    assert("BOOLEAN"@ != "UNSPECIFIED"@) by {
        assert("BOOLEAN"@.len() != "UNSPECIFIED"@.len());
    }
    assert("DECIMAL"@ != "DATE"@) by {
        assert("DECIMAL"@.len() != "DATE"@.len());
    }
    assert("DECIMAL"@ != "DATETIME"@) by {
        assert("DECIMAL"@.len() != "DATETIME"@.len());
    }
    assert("DECIMAL"@ != "UNSPECIFIED"@) by {
        assert("DECIMAL"@.len() != "UNSPECIFIED"@.len());
    }
    assert("DATE"@ != "DATETIME"@) by {
        assert("DATE"@.len() != "DATETIME"@.len());
    }
    assert("DATE"@ != "UNSPECIFIED"@) by {
        assert("DATE"@.len() != "UNSPECIFIED"@.len());
    }
    assert("DATETIME"@ != "UNSPECIFIED"@) by {
        assert("DATETIME"@.len() != "UNSPECIFIED"@.len());
    }
}


/// The type a SQL type name (already upper-cased) denotes, if any.
pub open spec fn data_type_from_upper(u: Seq<char>) -> Option<ColumnDataType> {
    if u == "UNSPECIFIED"@ {
        Some(ColumnDataType::Null)
    } else if u == "ANY"@ {
        Some(ColumnDataType::Any)
    } else if u == "BLOB"@ {
        Some(ColumnDataType::Blob)
    } else if u == "TEXT"@ {
        Some(ColumnDataType::Text)
    } else if u == "INTEGER"@ {
        Some(ColumnDataType::Integer)
    } else if u == "REAL"@ {
        Some(ColumnDataType::Real)
    } else if u == "NUMERIC"@ {
        Some(ColumnDataType::Numeric)
    } else if u == "JSON"@ {
        Some(ColumnDataType::JSON)
    } else if u == "JSONB"@ {
        Some(ColumnDataType::JSONB)
    } else if u == "INT"@ {
        Some(ColumnDataType::Int)
    } else if u == "TINYINT"@ {
        Some(ColumnDataType::TinyInt)
    } else if u == "SMALLINT"@ {
        Some(ColumnDataType::SmallInt)
    } else if u == "MEDIUMINT"@ {
        Some(ColumnDataType::MediumInt)
    } else if u == "BIGINT"@ {
        Some(ColumnDataType::BigInt)
    } else if u == "UNSIGNED BIG INT"@ {
        Some(ColumnDataType::UnignedBigInt)
    } else if u == "INT2"@ {
        Some(ColumnDataType::Int2)
    } else if u == "INT4"@ {
        Some(ColumnDataType::Int4)
    } else if u == "INT8"@ {
        Some(ColumnDataType::Int8)
    } else if u == "CHARACTER"@ {
        Some(ColumnDataType::Character)
    } else if u == "VARCHAR"@ {
        Some(ColumnDataType::Varchar)
    } else if u == "VARYING CHARACTER"@ {
        Some(ColumnDataType::VaryingCharacter)
    } else if u == "NCHAR"@ {
        Some(ColumnDataType::NChar)
    } else if u == "NATIVE CHARACTER"@ {
        Some(ColumnDataType::NativeCharacter)
    } else if u == "NVARCHAR"@ {
        Some(ColumnDataType::NVarChar)
    } else if u == "CLOB"@ {
        Some(ColumnDataType::Clob)
    } else if u == "DOUBLE"@ {
        Some(ColumnDataType::Double)
    } else if u == "DOUBLE PRECISION"@ {
        Some(ColumnDataType::DoublePrecision)
    } else if u == "FLOAT"@ {
        Some(ColumnDataType::Float)
    } else if u == "BOOLEAN"@ {
        Some(ColumnDataType::Boolean)
    } else if u == "DECIMAL"@ {
        Some(ColumnDataType::Decimal)
    } else if u == "DATE"@ {
        Some(ColumnDataType::Date)
    } else if u == "DATETIME"@ {
        Some(ColumnDataType::DateTime)
    } else {
        None
    }
}

impl ColumnDataType {
    pub fn sql_name(&self) -> (r: &'static str)
        ensures
            r@ == data_type_sql(*self),
    {
        match self {
            ColumnDataType::Null => "NULL",
            ColumnDataType::Any => "ANY",
            ColumnDataType::Blob => "BLOB",
            ColumnDataType::Text => "TEXT",
            ColumnDataType::Integer => "INTEGER",
            ColumnDataType::Real => "REAL",
            ColumnDataType::Numeric => "NUMERIC",
            ColumnDataType::JSON => "JSON",
            ColumnDataType::JSONB => "JSONB",
            ColumnDataType::Int => "INT",
            ColumnDataType::TinyInt => "TINYINT",
            ColumnDataType::SmallInt => "SMALLINT",
            ColumnDataType::MediumInt => "MEDIUMINT",
            ColumnDataType::BigInt => "BIGINT",
            ColumnDataType::UnignedBigInt => "UNSIGNED BIG INT",
            ColumnDataType::Int2 => "INT2",
            ColumnDataType::Int4 => "INT4",
            ColumnDataType::Int8 => "INT8",
            ColumnDataType::Character => "CHARACTER",
            ColumnDataType::Varchar => "VARCHAR",
            ColumnDataType::VaryingCharacter => "VARYING CHARACTER",
            ColumnDataType::NChar => "NCHAR",
            ColumnDataType::NativeCharacter => "NATIVE CHARACTER",
            ColumnDataType::NVarChar => "NVARCHAR",
            ColumnDataType::Clob => "CLOB",
            ColumnDataType::Double => "DOUBLE",
            ColumnDataType::DoublePrecision => "DOUBLE PRECISION",
            ColumnDataType::Float => "FLOAT",
            ColumnDataType::Boolean => "BOOLEAN",
            ColumnDataType::Decimal => "DECIMAL",
            ColumnDataType::Date => "DATE",
            ColumnDataType::DateTime => "DATETIME",
        }
    }

    /// Looks up the type denoted by a SQL type name, ignoring case.
    pub fn from_type_name(name: &str) -> (r: Option<ColumnDataType>)
        ensures
            r == data_type_from_upper(uppercase(name@)),
            (forall|i: int| 0 <= i < name@.len() ==> (#[trigger] name@[i] as u32) < 128) ==> r
                == data_type_from_upper(name@.map_values(|c: char| ascii_upper(c))),
    {
        let upper = to_uppercase(name);
        proof {
            if forall|i: int| 0 <= i < name@.len() ==> (#[trigger] name@[i] as u32) < 128 {
                assert(upper@ =~= name@.map_values(|c: char| ascii_upper(c)));
            }
        }
        let u = upper.as_str();
        if str_eq(u, "UNSPECIFIED") {
            return Some(ColumnDataType::Null);
        }
        if str_eq(u, "ANY") {
            return Some(ColumnDataType::Any);
        }
        if str_eq(u, "BLOB") {
            return Some(ColumnDataType::Blob);
        }
        if str_eq(u, "TEXT") {
            return Some(ColumnDataType::Text);
        }
        if str_eq(u, "INTEGER") {
            return Some(ColumnDataType::Integer);
        }
        if str_eq(u, "REAL") {
            return Some(ColumnDataType::Real);
        }
        if str_eq(u, "NUMERIC") {
            return Some(ColumnDataType::Numeric);
        }
        if str_eq(u, "JSON") {
            return Some(ColumnDataType::JSON);
        }
        if str_eq(u, "JSONB") {
            return Some(ColumnDataType::JSONB);
        }
        if str_eq(u, "INT") {
            return Some(ColumnDataType::Int);
        }
        if str_eq(u, "TINYINT") {
            return Some(ColumnDataType::TinyInt);
        }
        if str_eq(u, "SMALLINT") {
            return Some(ColumnDataType::SmallInt);
        }
        if str_eq(u, "MEDIUMINT") {
            return Some(ColumnDataType::MediumInt);
        }
        if str_eq(u, "BIGINT") {
            return Some(ColumnDataType::BigInt);
        }
        if str_eq(u, "UNSIGNED BIG INT") {
            return Some(ColumnDataType::UnignedBigInt);
        }
        if str_eq(u, "INT2") {
            return Some(ColumnDataType::Int2);
        }
        if str_eq(u, "INT4") {
            return Some(ColumnDataType::Int4);
        }
        if str_eq(u, "INT8") {
            return Some(ColumnDataType::Int8);
        }
        if str_eq(u, "CHARACTER") {
            return Some(ColumnDataType::Character);
        }
        if str_eq(u, "VARCHAR") {
            return Some(ColumnDataType::Varchar);
        }
        if str_eq(u, "VARYING CHARACTER") {
            return Some(ColumnDataType::VaryingCharacter);
        }
        if str_eq(u, "NCHAR") {
            return Some(ColumnDataType::NChar);
        }
        if str_eq(u, "NATIVE CHARACTER") {
            return Some(ColumnDataType::NativeCharacter);
        }
        if str_eq(u, "NVARCHAR") {
            return Some(ColumnDataType::NVarChar);
        }
        if str_eq(u, "CLOB") {
            return Some(ColumnDataType::Clob);
        }
        if str_eq(u, "DOUBLE") {
            return Some(ColumnDataType::Double);
        }
        if str_eq(u, "DOUBLE PRECISION") {
            return Some(ColumnDataType::DoublePrecision);
        }
        if str_eq(u, "FLOAT") {
            return Some(ColumnDataType::Float);
        }
        if str_eq(u, "BOOLEAN") {
            return Some(ColumnDataType::Boolean);
        }
        if str_eq(u, "DECIMAL") {
            return Some(ColumnDataType::Decimal);
        }
        if str_eq(u, "DATE") {
            return Some(ColumnDataType::Date);
        }
        if str_eq(u, "DATETIME") {
            return Some(ColumnDataType::DateTime);
        }
        None
    }
}

/// A column definition with its column-level constraints.
#[derive(Clone, Debug, PartialEq)]
pub struct Column {
    pub name: String,
    pub data_type: ColumnDataType,
    pub options: Vec<ColumnOption>,
}

/// The SQL fragments of the options, in order.
pub open spec fn option_fragments(opts: Seq<ColumnOption>) -> Seq<Seq<char>> {
    opts.map_values(|o: ColumnOption| column_option_sql(o))
}

pub open spec fn column_sql(c: Column) -> Seq<char> {
    "'"@ + c.name@ + "' "@ + data_type_sql(c.data_type) + if c.options@.len() == 0 {
        Seq::empty()
    } else {
        " "@ + seq_join(option_fragments(c.options@), " "@)
    }
}

pub open spec fn is_primary_option(o: ColumnOption) -> bool {
    o matches ColumnOption::Unique { is_primary } && is_primary
}

fn option_fragment_list(opts: &Vec<ColumnOption>) -> (r: Vec<String>)
    ensures
        views(r@) == option_fragments(opts@),
{
    let mut r: Vec<String> = Vec::new();
    let mut i: usize = 0;
    while i < opts.len()
        invariant
            i <= opts.len(),
            views(r@) =~= option_fragments(opts@.take(i as int)),
        decreases opts.len() - i,
    {
        let f = opts[i].to_fragment();
        proof {
            lemma_views_push(r@, f);
            assert(opts@.take(i + 1) =~= opts@.take(i as int).push(opts@[i as int]));
            assert(option_fragments(opts@.take(i + 1)) =~= option_fragments(opts@.take(i as int)).push(f@));
        }
        r.push(f);
        i += 1;
    }
    proof {
        assert(opts@.take(opts.len() as int) =~= opts@);
    }
    r
}

impl Column {
    pub fn to_fragment(&self) -> (r: String)
        ensures
            r@ == column_sql(*self),
    {
        let options = option_fragment_list(&self.options);
        let mut s = String::new();
        s.append("'");
        s.append(self.name.as_str());
        s.append("' ");
        s.append(self.data_type.sql_name());
        if options.len() != 0 {
            s.append(" ");
            let joined = join(&options, " ");
            s.append(joined.as_str());
        }
        assert(s@ =~= column_sql(*self));
        s
    }

    /// Whether one of the column's options makes it the primary key.
    pub fn is_primary(&self) -> (r: bool)
        ensures
            r == exists|i: int| 0 <= i < self.options@.len() && is_primary_option(#[trigger] self.options@[i]),
    {
        let mut i: usize = 0;
        while i < self.options.len()
            invariant
                i <= self.options@.len(),
                forall|j: int| 0 <= j < i ==> !is_primary_option(#[trigger] self.options@[j]),
            decreases self.options.len() - i,
        {
            match &self.options[i] {
                ColumnOption::Unique { is_primary } => {
                    if *is_primary {
                        return true;
                    }
                },
                _ => {},
            }
            i += 1;
        }
        false
    }
}

/// A table: its columns and its table-level constraints.
#[derive(Clone, Debug, PartialEq)]
pub struct Table {
    pub name: String,
    pub strict: bool,
    pub columns: Vec<Column>,
    pub foreign_keys: Vec<ForeignKey>,
    pub unique: Vec<UniqueConstraint>,
    pub virtual_table: bool,
    pub temporary: bool,
}

/// Column definitions, then `UNIQUE` constraints, then `FOREIGN KEY` constraints.
pub open spec fn table_body_fragments(t: Table) -> Seq<Seq<char>> {
    t.columns@.map_values(|c: Column| column_sql(c)) + t.unique@.map_values(
        |u: UniqueConstraint| unique_constraint_sql(u),
    ) + t.foreign_keys@.map_values(|f: ForeignKey| foreign_key_sql(f))
}

pub open spec fn create_table_sql(t: Table) -> Seq<char> {
    "CREATE"@ + (if t.temporary {
        " TEMPORARY"@
    } else {
        ""@
    }) + " TABLE '"@ + t.name@ + "' ("@ + seq_join(table_body_fragments(t), ", "@) + ")"@ + (
    if t.strict {
        " STRICT"@
    } else {
        ""@
    })
}

impl Table {
    /// The `CREATE TABLE` statement for this table. Virtual tables have none.
    pub fn create_table_statement(&self) -> (r: String)
        requires
            !self.virtual_table,
        ensures
            r@ == create_table_sql(*self),
    {
        let mut parts: Vec<String> = Vec::new();
        let ghost cols = self.columns@.map_values(|c: Column| column_sql(c));
        let ghost uniq = self.unique@.map_values(|u: UniqueConstraint| unique_constraint_sql(u));
        let ghost fks = self.foreign_keys@.map_values(|f: ForeignKey| foreign_key_sql(f));
        let mut i: usize = 0;
        while i < self.columns.len()
            invariant
                i <= self.columns@.len(),
                cols == self.columns@.map_values(|c: Column| column_sql(c)),
                views(parts@) =~= cols.take(i as int),
            decreases self.columns.len() - i,
        {
            let f = self.columns[i].to_fragment();
            proof {
                lemma_views_push(parts@, f);
                assert(cols.take(i + 1) =~= cols.take(i as int).push(f@));
            }
            parts.push(f);
            i += 1;
        }
        let mut i: usize = 0;
        while i < self.unique.len()
            invariant
                i <= self.unique@.len(),
                cols == self.columns@.map_values(|c: Column| column_sql(c)),
                uniq == self.unique@.map_values(|u: UniqueConstraint| unique_constraint_sql(u)),
                views(parts@) =~= cols + uniq.take(i as int),
            decreases self.unique.len() - i,
        {
            let f = self.unique[i].to_fragment();
            proof {
                lemma_views_push(parts@, f);
                assert(uniq.take(i + 1) =~= uniq.take(i as int).push(f@));
            }
            parts.push(f);
            i += 1;
        }
        let mut i: usize = 0;
        while i < self.foreign_keys.len()
            invariant
                i <= self.foreign_keys@.len(),
                cols == self.columns@.map_values(|c: Column| column_sql(c)),
                uniq == self.unique@.map_values(|u: UniqueConstraint| unique_constraint_sql(u)),
                fks == self.foreign_keys@.map_values(|f: ForeignKey| foreign_key_sql(f)),
                views(parts@) =~= cols + uniq + fks.take(i as int),
            decreases self.foreign_keys.len() - i,
        {
            let f = self.foreign_keys[i].to_fragment();
            proof {
                lemma_views_push(parts@, f);
                assert(fks.take(i + 1) =~= fks.take(i as int).push(f@));
            }
            parts.push(f);
            i += 1;
        }
        assert(uniq.take(uniq.len() as int) =~= uniq);
        assert(fks.take(fks.len() as int) =~= fks);
        assert(cols.take(cols.len() as int) =~= cols);
        assert(views(parts@) =~= table_body_fragments(*self));
        let mut s = String::new();
        s.append("CREATE");
        if self.temporary {
            s.append(" TEMPORARY");
        } else {
            s.append("");
        }
        s.append(" TABLE '");
        s.append(self.name.as_str());
        s.append("' (");
        let body = join(&parts, ", ");
        s.append(body.as_str());
        s.append(")");
        if self.strict {
            s.append(" STRICT");
        } else {
            s.append("");
        }
        assert(s@ =~= create_table_sql(*self));
        s
    }
}

/// An index over columns of a table.
#[derive(Clone, Debug, PartialEq, Default)]
pub struct TableIndex {
    pub name: String,
    pub table_name: String,
    pub columns: Vec<ColumnOrder>,
    pub unique: bool,
    pub predicate: Option<String>,
    pub if_not_exists: bool,
}

pub open spec fn column_order_sql(c: ColumnOrder) -> Seq<char> {
    c.column_name@ + " "@ + match c.ascending {
        Some(true) => "ASC"@,
        Some(false) => "DESC"@,
        None => ""@,
    }
}

pub open spec fn create_index_sql(i: TableIndex) -> Seq<char> {
    "CREATE "@ + (if i.unique {
        "UNIQUE"@
    } else {
        ""@
    }) + " INDEX "@ + (if i.if_not_exists {
        "IF NOT EXISTS"@
    } else {
        ""@
    }) + " '"@ + i.name@ + "' ON '"@ + i.table_name@ + "' ("@ + seq_join(
        i.columns@.map_values(|c: ColumnOrder| column_order_sql(c)),
        ", "@,
    ) + ") "@ + match i.predicate {
        Some(p) => "WHERE "@ + p@,
        None => ""@,
    }
}

impl TableIndex {
    /// The `CREATE INDEX` statement for this index.
    pub fn create_index_statement(&self) -> (r: String)
        ensures
            r@ == create_index_sql(*self),
    {
        let ghost frags = self.columns@.map_values(|c: ColumnOrder| column_order_sql(c));
        let mut parts: Vec<String> = Vec::new();
        let mut i: usize = 0;
        while i < self.columns.len()
            invariant
                i <= self.columns@.len(),
                frags == self.columns@.map_values(|c: ColumnOrder| column_order_sql(c)),
                views(parts@) =~= frags.take(i as int),
            decreases self.columns.len() - i,
        {
            let c = &self.columns[i];
            let mut f = String::new();
            f.append(c.column_name.as_str());
            f.append(" ");
            match c.ascending {
                Some(true) => f.append("ASC"),
                Some(false) => f.append("DESC"),
                None => f.append(""),
            }
            assert(f@ =~= column_order_sql(*c));
            proof {
                lemma_views_push(parts@, f);
                assert(frags.take(i + 1) =~= frags.take(i as int).push(f@));
            }
            parts.push(f);
            i += 1;
        }
        assert(frags.take(frags.len() as int) =~= frags);
        let mut s = String::new();
        s.append("CREATE ");
        if self.unique {
            s.append("UNIQUE");
        } else {
            s.append("");
        }
        s.append(" INDEX ");
        if self.if_not_exists {
            s.append("IF NOT EXISTS");
        } else {
            s.append("");
        }
        s.append(" '");
        s.append(self.name.as_str());
        s.append("' ON '");
        s.append(self.table_name.as_str());
        s.append("' (");
        let cols = join(&parts, ", ");
        s.append(cols.as_str());
        s.append(") ");
        match &self.predicate {
            Some(p) => {
                s.append("WHERE ");
                s.append(p.as_str());
            },
            None => s.append(""),
        }
        assert(s@ =~= create_index_sql(*self));
        s
    }
}


/// The first character of a quoted SQL identifier.
pub open spec fn is_quote_char(c: char) -> bool {
    c == '"' || c == '`' || c == '\'' || c == '['
}

pub open spec fn is_quoted(s: Seq<char>) -> bool {
    s.len() > 0 && is_quote_char(s[0])
}

/// Whether `unquote` is defined on `s`: a quoted identifier must have at least one
/// character between its quotes, and its closing quote must be a single byte.
pub open spec fn unquote_defined(s: Seq<char>) -> bool {
    is_quoted(s) ==> s.len() >= 3 && (s.last() as u32) < 128
}

/// The identifier without its surrounding quotes, if it has any.
pub open spec fn unquoted(s: Seq<char>) -> Seq<char> {
    if is_quoted(s) {
        s.subrange(1, s.len() - 1)
    } else {
        s
    }
}

/// Removes the surrounding quotes (`"..."`, `` `...` ``, `'...'`, `[...]`) of an identifier.
pub fn unquote(name: String) -> (r: String)
    requires
        unquote_defined(name@),
    ensures
        r@ == unquoted(name@),
{
    let n = name.unicode_len();
    if n == 0 {
        return name;
    }
    let c = name.as_str().get_char(0);
    if c == '"' || c == '`' || c == '\'' || c == '[' {
        let inner = name.as_str().substring_char(1, n - 1);
        String::from_str(inner)
    } else {
        name
    }
}

/// `unquote` where it is defined, and `None` elsewhere.
pub fn try_unquote(name: &String) -> (r: Option<String>)
    ensures
        r is Some <==> unquote_defined(name@),
        r matches Some(u) ==> u@ == unquoted(name@),
{
    let n = name.unicode_len();
    if n == 0 {
        return Some(name.clone());
    }
    let c = name.as_str().get_char(0);
    if c == '"' || c == '`' || c == '\'' || c == '[' {
        if n < 3 {
            return None;
        }
        let last = name.as_str().get_char(n - 1);
        if (last as u32) >= 128 {
            return None;
        }
        let inner = name.as_str().substring_char(1, n - 1);
        Some(String::from_str(inner))
    } else {
        Some(name.clone())
    }
}

pub open spec fn opt_view(o: Option<String>) -> Option<Seq<char>> {
    match o {
        Some(s) => Some(s@),
        None => None,
    }
}

pub open spec fn opt_views(o: Option<Vec<String>>) -> Seq<Seq<char>> {
    match o {
        Some(v) => views(v@),
        None => Seq::empty(),
    }
}

/// The generation mode named by a `STORED` / `VIRTUAL` keyword.
pub open spec fn generated_mode(m: Option<String>) -> Option<GeneratedExpressionMode> {
    match m {
        Some(k) => if k@ == "VIRTUAL"@ {
            Some(GeneratedExpressionMode::Virtual)
        } else if k@ == "STORED"@ {
            Some(GeneratedExpressionMode::Stored)
        } else {
            None
        },
        None => None,
    }
}

/// Collations and deferrable clauses have no column option.
pub open spec fn constraint_supported(c: ParsedColumnConstraint) -> bool {
    !(c is Collate || c is Defer)
}

/// `o` is the column option of the parsed column constraint `c`.
pub open spec fn option_of_constraint(o: ColumnOption, c: ParsedColumnConstraint) -> bool {
    match c {
        ParsedColumnConstraint::PrimaryKey => o == ColumnOption::Unique { is_primary: true },
        ParsedColumnConstraint::Unique => o == ColumnOption::Unique { is_primary: false },
        ParsedColumnConstraint::NotNull => o == ColumnOption::NotNull,
        ParsedColumnConstraint::Check(e) => o matches ColumnOption::Check(x) && x@ == e@,
        ParsedColumnConstraint::Default(e) => o matches ColumnOption::Default(x) && x@ == e@,
        ParsedColumnConstraint::ForeignKey(cl) => o matches ColumnOption::ForeignKey {
            foreign_table,
            referred_columns,
            on_delete,
            on_update,
        } && foreign_table@ == cl.table_text@ && views(referred_columns@) == opt_views(cl.columns)
            && on_delete is None && on_update is None,
        ParsedColumnConstraint::Generated { expr, mode } => o matches ColumnOption::Generated {
            expr: x,
            mode: m,
        } && x@ == expr@ && m == generated_mode(mode),
        _ => false,
    }
}

fn generated_mode_of(m: &Option<String>) -> (r: Option<GeneratedExpressionMode>)
    ensures
        r == generated_mode(*m),
{
    match m {
        Some(k) => {
            if str_eq(k.as_str(), "VIRTUAL") {
                Some(GeneratedExpressionMode::Virtual)
            } else if str_eq(k.as_str(), "STORED") {
                Some(GeneratedExpressionMode::Stored)
            } else {
                None
            }
        },
        None => None,
    }
}

fn clone_strings(v: &Vec<String>) -> (r: Vec<String>)
    ensures
        views(r@) == views(v@),
{
    let mut r: Vec<String> = Vec::new();
    let mut i: usize = 0;
    while i < v.len()
        invariant
            i <= v.len(),
            views(r@) =~= views(v@).take(i as int),
        decreases v.len() - i,
    {
        let s = String::from_str(v[i].as_str());
        proof {
            lemma_views_push(r@, s);
            assert(views(v@).take(i + 1) =~= views(v@).take(i as int).push(s@));
        }
        r.push(s);
        i += 1;
    }
    assert(views(v@).take(v.len() as int) =~= views(v@));
    r
}

fn clone_opt_string(o: &Option<String>) -> (r: Option<String>)
    ensures
        opt_view(r) == opt_view(*o),
{
    match o {
        Some(s) => Some(String::from_str(s.as_str())),
        None => None,
    }
}

impl ColumnOption {
    /// The column option of a parsed column constraint; collations and deferrable
    /// clauses have none.
    pub fn from_parsed(c: &ParsedColumnConstraint) -> (r: Result<ColumnOption, SchemaError>)
        ensures
            r is Ok <==> constraint_supported(*c),
            r matches Ok(o) ==> option_of_constraint(o, *c),
            r matches Err(e) ==> e is Precondition,
    {
        match c {
            ParsedColumnConstraint::PrimaryKey => Ok(ColumnOption::Unique { is_primary: true }),
            ParsedColumnConstraint::Unique => Ok(ColumnOption::Unique { is_primary: false }),
            ParsedColumnConstraint::NotNull => Ok(ColumnOption::NotNull),
            ParsedColumnConstraint::Check(e) => Ok(ColumnOption::Check(String::from_str(e.as_str()))),
            ParsedColumnConstraint::Default(e) => Ok(
                ColumnOption::Default(String::from_str(e.as_str())),
            ),
            ParsedColumnConstraint::ForeignKey(cl) => {
                let referred_columns = match &cl.columns {
                    Some(cols) => clone_strings(cols),
                    None => Vec::new(),
                };
                proof {
                    if cl.columns is None {
                        assert(views(referred_columns@) =~= Seq::<Seq<char>>::empty());
                    }
                }
                Ok(
                    ColumnOption::ForeignKey {
                        foreign_table: String::from_str(cl.table_text.as_str()),
                        referred_columns,
                        on_delete: None,
                        on_update: None,
                    },
                )
            },
            ParsedColumnConstraint::Generated { expr, mode } => Ok(
                ColumnOption::Generated {
                    expr: String::from_str(expr.as_str()),
                    mode: generated_mode_of(mode),
                },
            ),
            ParsedColumnConstraint::Collate => Err(
                SchemaError::Precondition(String::from_str("Not implemented: COLLATE")),
            ),
            ParsedColumnConstraint::Defer => Err(
                SchemaError::Precondition(String::from_str("Not implemented: DEFERRABLE")),
            ),
        }
    }
}

/// The type of a column declared with the given type name: unknown names and a
/// missing type both give `Null`.
pub open spec fn declared_data_type(t: Option<String>) -> ColumnDataType {
    match t {
        Some(n) => match data_type_from_upper(uppercase(n@)) {
            Some(d) => d,
            None => ColumnDataType::Null,
        },
        None => ColumnDataType::Null,
    }
}

/// Whether a parsed column definition can be converted.
pub open spec fn parsed_column_ok(p: ParsedColumn) -> bool {
    &&& unquote_defined(p.name_raw@)
    &&& unquoted(p.name_raw@).len() > 0
    &&& forall|i: int| 0 <= i < p.constraints@.len() ==> constraint_supported(#[trigger] p.constraints@[i])
}

/// `c` is the column of the parsed column definition `p`.
pub open spec fn column_of_parsed(c: Column, p: ParsedColumn) -> bool {
    &&& c.name@ == unquoted(p.name_raw@)
    &&& c.data_type == declared_data_type(p.declared_type)
    &&& c.options@.len() == p.constraints@.len()
    &&& forall|i: int| 0 <= i < p.constraints@.len() ==> option_of_constraint(#[trigger] c.options@[i], p.constraints@[i])
}

impl Column {
    /// The column of a parsed column definition.
    pub fn from_parsed(p: &ParsedColumn) -> (r: Result<Column, SchemaError>)
        ensures
            r is Ok <==> parsed_column_ok(*p),
            r matches Ok(c) ==> column_of_parsed(c, *p),
            r matches Err(e) ==> e is Precondition,
    {
        let name = match try_unquote(&p.name_raw) {
            Some(n) => n,
            None => {
                return Err(SchemaError::Precondition(String::from_str("malformed column name")));
            },
        };
        if name.unicode_len() == 0 {
            return Err(SchemaError::Precondition(String::from_str("empty column name")));
        }
        let data_type = match &p.declared_type {
            Some(t) => match ColumnDataType::from_type_name(t.as_str()) {
                Some(d) => d,
                None => ColumnDataType::Null,
            },
            None => ColumnDataType::Null,
        };
        let mut options: Vec<ColumnOption> = Vec::new();
        let mut i: usize = 0;
        while i < p.constraints.len()
            invariant
                i <= p.constraints@.len(),
                options@.len() == i,
                forall|j: int| 0 <= j < i ==> constraint_supported(#[trigger] p.constraints@[j]),
                forall|j: int| 0 <= j < i ==> option_of_constraint(#[trigger] options@[j], p.constraints@[j]),
            decreases p.constraints.len() - i,
        {
            match ColumnOption::from_parsed(&p.constraints[i]) {
                Ok(o) => options.push(o),
                Err(e) => {
                    return Err(e);
                },
            }
            i += 1;
        }
        Ok(Column { name, data_type, options })
    }
}

/// The `ON DELETE` action of a `REFERENCES` clause: its last such clause wins.
pub open spec fn last_on_delete(args: Seq<ParsedRefArg>) -> Option<ReferentialAction>
    decreases args.len(),
{
    if args.len() == 0 {
        None
    } else {
        match args.last() {
            ParsedRefArg::OnDelete(a) => Some(a),
            _ => last_on_delete(args.drop_last()),
        }
    }
}

/// The `ON UPDATE` action of a `REFERENCES` clause: its last such clause wins.
pub open spec fn last_on_update(args: Seq<ParsedRefArg>) -> Option<ReferentialAction>
    decreases args.len(),
{
    if args.len() == 0 {
        None
    } else {
        match args.last() {
            ParsedRefArg::OnUpdate(a) => Some(a),
            _ => last_on_update(args.drop_last()),
        }
    }
}

fn referential_actions(args: &Vec<ParsedRefArg>) -> (r: (
    Option<ReferentialAction>,
    Option<ReferentialAction>,
))
    ensures
        r.0 == last_on_delete(args@),
        r.1 == last_on_update(args@),
{
    let mut on_delete: Option<ReferentialAction> = None;
    let mut on_update: Option<ReferentialAction> = None;
    let mut i: usize = 0;
    while i < args.len()
        invariant
            i <= args.len(),
            on_delete == last_on_delete(args@.take(i as int)),
            on_update == last_on_update(args@.take(i as int)),
        decreases args.len() - i,
    {
        proof {
            assert(args@.take(i + 1).drop_last() =~= args@.take(i as int));
        }
        match &args[i] {
            ParsedRefArg::OnDelete(a) => on_delete = Some(*a),
            ParsedRefArg::OnUpdate(a) => on_update = Some(*a),
            ParsedRefArg::Other => {},
        }
        i += 1;
    }
    assert(args@.take(args.len() as int) =~= args@);
    (on_delete, on_update)
}

/// The table-level foreign-key constraints, in order.
pub open spec fn foreign_key_constraints(cs: Seq<ParsedTableConstraint>) -> Seq<ParsedTableConstraint>
    decreases cs.len(),
{
    if cs.len() == 0 {
        Seq::empty()
    } else if cs.last() is ForeignKey {
        foreign_key_constraints(cs.drop_last()).push(cs.last())
    } else {
        foreign_key_constraints(cs.drop_last())
    }
}

/// The table-level unique constraints, in order.
pub open spec fn unique_constraints(cs: Seq<ParsedTableConstraint>) -> Seq<ParsedTableConstraint>
    decreases cs.len(),
{
    if cs.len() == 0 {
        Seq::empty()
    } else if cs.last() is Unique {
        unique_constraints(cs.drop_last()).push(cs.last())
    } else {
        unique_constraints(cs.drop_last())
    }
}

/// `f` is the foreign key of the parsed table constraint `c`.
pub open spec fn foreign_key_of_parsed(f: ForeignKey, c: ParsedTableConstraint) -> bool {
    c matches ParsedTableConstraint::ForeignKey { name, columns, clause } && {
        &&& opt_view(f.name) == opt_view(name)
        &&& views(f.columns@) == views(columns@)
        &&& f.foreign_table@ == unquoted(clause.table_raw@)
        &&& views(f.referred_columns@) == opt_views(clause.columns)
        &&& f.on_delete == last_on_delete(clause.args@)
        &&& f.on_update == last_on_update(clause.args@)
    }
}

/// `u` is the unique constraint of the parsed table constraint `c`.
pub open spec fn unique_of_parsed(u: UniqueConstraint, c: ParsedTableConstraint) -> bool {
    c matches ParsedTableConstraint::Unique { name, columns } && opt_view(u.name) == opt_view(name)
        && views(u.columns@) == views(columns@)
}

/// A foreign-key constraint can be converted when its table name can be unquoted.
pub open spec fn table_constraint_ok(c: ParsedTableConstraint) -> bool {
    c matches ParsedTableConstraint::ForeignKey { clause, .. } ==> unquote_defined(clause.table_raw@)
}

pub open spec fn parsed_constraints(cs: Option<Vec<ParsedTableConstraint>>) -> Seq<ParsedTableConstraint> {
    match cs {
        Some(v) => v@,
        None => Seq::empty(),
    }
}

fn foreign_key_from_parsed(c: &ParsedTableConstraint) -> (r: Option<ForeignKey>)
    requires
        c is ForeignKey,
    ensures
        r is Some <==> table_constraint_ok(*c),
        r matches Some(f) ==> foreign_key_of_parsed(f, *c),
{
    match c {
        ParsedTableConstraint::ForeignKey { name, columns, clause } => {
            let foreign_table = match try_unquote(&clause.table_raw) {
                Some(t) => t,
                None => {
                    return None;
                },
            };
            let (on_delete, on_update) = referential_actions(&clause.args);
            let referred_columns = match &clause.columns {
                Some(cols) => clone_strings(cols),
                None => Vec::new(),
            };
            proof {
                if clause.columns is None {
                    assert(views(referred_columns@) =~= Seq::<Seq<char>>::empty());
                }
            }
            Some(
                ForeignKey {
                    name: clone_opt_string(name),
                    columns: clone_strings(columns),
                    foreign_table,
                    referred_columns,
                    on_delete,
                    on_update,
                },
            )
        },
        _ => None,
    }
}

/// Whether every part of a parsed `CREATE TABLE` can be converted.
pub open spec fn parsed_table_ok(temporary: bool, name_raw: Seq<char>, body: ParsedTableBody) -> bool {
    &&& unquote_defined(name_raw)
    &&& forall|i: int| 0 <= i < body.columns@.len() ==> parsed_column_ok(#[trigger] body.columns@[i])
    &&& forall|i: int|
        0 <= i < parsed_constraints(body.constraints).len() ==> table_constraint_ok(
            #[trigger] parsed_constraints(body.constraints)[i],
        )
}

/// Whether `Table::from_parsed` succeeds on `p`.
pub open spec fn table_statement_ok(p: ParsedStatement) -> bool {
    match p {
        ParsedStatement::CreateTable { temporary, name_raw, body, .. } => match body {
            Some(b) => parsed_table_ok(temporary, name_raw@, b),
            None => false,
        },
        ParsedStatement::CreateVirtualTable { name_raw, .. } => unquote_defined(name_raw@),
        _ => false,
    }
}

/// `t` is the table that the parsed statement `p` creates.
pub open spec fn table_of_parsed(t: Table, p: ParsedStatement) -> bool {
    match p {
        ParsedStatement::CreateTable { temporary, name_raw, body, .. } => match body {
            Some(b) => {
                let cs = parsed_constraints(b.constraints);
                let fks = foreign_key_constraints(cs);
                let uniq = unique_constraints(cs);
                &&& t.name@ == unquoted(name_raw@)
                &&& t.strict == b.strict
                &&& !t.virtual_table
                &&& t.temporary == temporary
                &&& t.columns@.len() == b.columns@.len()
                &&& forall|i: int| 0 <= i < b.columns@.len() ==> column_of_parsed(#[trigger] t.columns@[i], b.columns@[i])
                &&& t.foreign_keys@.len() == fks.len()
                &&& forall|i: int| 0 <= i < fks.len() ==> foreign_key_of_parsed(#[trigger] t.foreign_keys@[i], fks[i])
                &&& t.unique@.len() == uniq.len()
                &&& forall|i: int| 0 <= i < uniq.len() ==> unique_of_parsed(#[trigger] t.unique@[i], uniq[i])
            },
            None => false,
        },
        ParsedStatement::CreateVirtualTable { name_raw, .. } => {
            &&& t.name@ == unquoted(name_raw@)
            &&& !t.strict
            &&& t.columns@.len() == 0
            &&& t.foreign_keys@.len() == 0
            &&& t.unique@.len() == 0
            &&& t.virtual_table
            &&& !t.temporary
        },
        _ => false,
    }
}

fn table_constraints_from_parsed(cs: &Vec<ParsedTableConstraint>) -> (r: Option<
    (Vec<ForeignKey>, Vec<UniqueConstraint>),
>)
    ensures
        r is Some <==> forall|i: int| 0 <= i < cs@.len() ==> table_constraint_ok(#[trigger] cs@[i]),
        r matches Some(p) ==> {
            let fks = foreign_key_constraints(cs@);
            let uniq = unique_constraints(cs@);
            &&& p.0@.len() == fks.len()
            &&& forall|i: int| 0 <= i < fks.len() ==> foreign_key_of_parsed(#[trigger] p.0@[i], fks[i])
            &&& p.1@.len() == uniq.len()
            &&& forall|i: int| 0 <= i < uniq.len() ==> unique_of_parsed(#[trigger] p.1@[i], uniq[i])
        },
{
    let mut fks: Vec<ForeignKey> = Vec::new();
    let mut uniq: Vec<UniqueConstraint> = Vec::new();
    let mut i: usize = 0;
    while i < cs.len()
        invariant
            i <= cs@.len(),
            forall|j: int| 0 <= j < i ==> table_constraint_ok(#[trigger] cs@[j]),
            fks@.len() == foreign_key_constraints(cs@.take(i as int)).len(),
            forall|j: int|
                0 <= j < fks@.len() ==> foreign_key_of_parsed(
                    #[trigger] fks@[j],
                    foreign_key_constraints(cs@.take(i as int))[j],
                ),
            uniq@.len() == unique_constraints(cs@.take(i as int)).len(),
            forall|j: int|
                0 <= j < uniq@.len() ==> unique_of_parsed(
                    #[trigger] uniq@[j],
                    unique_constraints(cs@.take(i as int))[j],
                ),
        decreases cs.len() - i,
    {
        proof {
            assert(cs@.take(i + 1).drop_last() =~= cs@.take(i as int));
        }
        match &cs[i] {
            ParsedTableConstraint::ForeignKey { .. } => {
                match foreign_key_from_parsed(&cs[i]) {
                    Some(f) => fks.push(f),
                    None => {
                        return None;
                    },
                }
            },
            ParsedTableConstraint::Unique { name, columns } => {
                uniq.push(
                    UniqueConstraint { name: clone_opt_string(name), columns: clone_strings(columns) },
                );
            },
            ParsedTableConstraint::Other => {},
        }
        i += 1;
    }
    assert(cs@.take(cs.len() as int) =~= cs@);
    Some((fks, uniq))
}

impl Table {
    /// The table that a parsed `CREATE TABLE` or `CREATE VIRTUAL TABLE` statement creates.
    pub fn from_parsed(p: &ParsedStatement) -> (r: Result<Table, SchemaError>)
        ensures
            r is Ok <==> table_statement_ok(*p),
            r matches Ok(t) ==> table_of_parsed(t, *p),
            r matches Err(e) ==> e is Precondition,
    {
        match p {
            ParsedStatement::CreateTable { temporary, name_raw, body, .. } => {
                let body = match body {
                    Some(b) => b,
                    None => {
                        return Err(
                            SchemaError::Precondition(
                                String::from_str("expected cols and constraints, got AsSelect"),
                            ),
                        );
                    },
                };
                let (foreign_keys, unique) = match &body.constraints {
                    Some(cs) => match table_constraints_from_parsed(cs) {
                        Some(x) => x,
                        None => {
                            assert(parsed_constraints(body.constraints) == cs@);
                            return Err(
                                SchemaError::Precondition(
                                    String::from_str("malformed foreign table name"),
                                ),
                            );
                        },
                    },
                    None => {
                        proof {
                            assert(foreign_key_constraints(Seq::<ParsedTableConstraint>::empty())
                                =~= Seq::<ParsedTableConstraint>::empty());
                            assert(unique_constraints(Seq::<ParsedTableConstraint>::empty())
                                =~= Seq::<ParsedTableConstraint>::empty());
                        }
                        (Vec::new(), Vec::new())
                    },
                };
                let mut columns: Vec<Column> = Vec::new();
                let mut i: usize = 0;
                #[verifier::loop_isolation(false)]
                while i < body.columns.len()
                    invariant
                        i <= body.columns@.len(),
                        columns@.len() == i,
                        forall|j: int| 0 <= j < i ==> parsed_column_ok(#[trigger] body.columns@[j]),
                        forall|j: int| 0 <= j < i ==> column_of_parsed(#[trigger] columns@[j], body.columns@[j]),
                    decreases body.columns.len() - i,
                {
                    match Column::from_parsed(&body.columns[i]) {
                        Ok(c) => columns.push(c),
                        Err(e) => {
                            assert(!parsed_column_ok(body.columns@[i as int]));
                            assert(!parsed_table_ok(*temporary, name_raw@, *body));
                            return Err(e);
                        },
                    }
                    i += 1;
                }
                let name = match try_unquote(name_raw) {
                    Some(n) => n,
                    None => {
                        return Err(SchemaError::Precondition(String::from_str("malformed table name")));
                    },
                };
                Ok(
                    Table {
                        name,
                        strict: body.strict,
                        columns,
                        foreign_keys,
                        unique,
                        virtual_table: false,
                        temporary: *temporary,
                    },
                )
            },
            ParsedStatement::CreateVirtualTable { name_raw, .. } => {
                let name = match try_unquote(name_raw) {
                    Some(n) => n,
                    None => {
                        return Err(SchemaError::Precondition(String::from_str("malformed table name")));
                    },
                };
                Ok(
                    Table {
                        name,
                        strict: false,
                        columns: Vec::new(),
                        foreign_keys: Vec::new(),
                        unique: Vec::new(),
                        virtual_table: true,
                        temporary: false,
                    },
                )
            },
            ParsedStatement::CreateIndex { .. } => Err(
                SchemaError::Precondition(String::from_str("expected 'CREATE TABLE', got: CREATE INDEX")),
            ),
            ParsedStatement::Other { description } | ParsedStatement::CreateView { description, .. }
            | ParsedStatement::Select { description, .. } => {
                let mut msg = String::from_str("expected 'CREATE TABLE', got: ");
                msg.append(description.as_str());
                Err(SchemaError::Precondition(msg))
            },
        }
    }
}

/// The name of the column an index column stands for.
pub open spec fn index_column_name(c: ParsedIndexColumn) -> Seq<char> {
    match c.name_raw {
        Some(n) => unquoted(n@),
        None => c.expr_text@,
    }
}

pub open spec fn index_column_ok(c: ParsedIndexColumn) -> bool {
    c.name_raw matches Some(n) ==> unquote_defined(n@)
}

/// Whether `TableIndex::from_parsed` succeeds on `p`.
pub open spec fn index_statement_ok(p: ParsedStatement) -> bool {
    match p {
        ParsedStatement::CreateIndex { name_raw, table_raw, columns, .. } => {
            &&& unquote_defined(name_raw@)
            &&& unquote_defined(table_raw@)
            &&& forall|i: int| 0 <= i < columns@.len() ==> index_column_ok(#[trigger] columns@[i])
        },
        _ => false,
    }
}

/// `x` is the index that the parsed statement `p` creates.
pub open spec fn index_of_parsed(x: TableIndex, p: ParsedStatement) -> bool {
    p matches ParsedStatement::CreateIndex {
        unique,
        if_not_exists,
        name_raw,
        table_raw,
        columns,
        predicate,
        ..
    } && {
        &&& x.name@ == unquoted(name_raw@)
        &&& x.table_name@ == unquoted(table_raw@)
        &&& x.unique == unique
        &&& x.if_not_exists == if_not_exists
        &&& opt_view(x.predicate) == opt_view(predicate)
        &&& x.columns@.len() == columns@.len()
        &&& forall|i: int|
            0 <= i < columns@.len() ==> {
                &&& (#[trigger] x.columns@[i]).column_name@ == index_column_name(columns@[i])
                &&& x.columns@[i].ascending == columns@[i].ascending
                &&& x.columns@[i].nulls_first == columns@[i].nulls_first
            }
    }
}

impl TableIndex {
    /// The index that a parsed `CREATE INDEX` statement creates.
    pub fn from_parsed(p: &ParsedStatement) -> (r: Result<TableIndex, SchemaError>)
        ensures
            r is Ok <==> index_statement_ok(*p),
            r matches Ok(x) ==> index_of_parsed(x, *p),
            r matches Err(e) ==> e is Precondition,
    {
        match p {
            ParsedStatement::CreateIndex {
                unique,
                if_not_exists,
                name_raw,
                table_raw,
                columns,
                predicate,
                ..
            } => {
                let name = match try_unquote(name_raw) {
                    Some(n) => n,
                    None => {
                        return Err(SchemaError::Precondition(String::from_str("malformed index name")));
                    },
                };
                let table_name = match try_unquote(table_raw) {
                    Some(n) => n,
                    None => {
                        return Err(SchemaError::Precondition(String::from_str("malformed table name")));
                    },
                };
                let mut cols: Vec<ColumnOrder> = Vec::new();
                let mut i: usize = 0;
                #[verifier::loop_isolation(false)]
                while i < columns.len()
                    invariant
                        i <= columns@.len(),
                        cols@.len() == i,
                        forall|j: int| 0 <= j < i ==> index_column_ok(#[trigger] columns@[j]),
                        forall|j: int|
                            0 <= j < i ==> {
                                &&& (#[trigger] cols@[j]).column_name@ == index_column_name(columns@[j])
                                &&& cols@[j].ascending == columns@[j].ascending
                                &&& cols@[j].nulls_first == columns@[j].nulls_first
                            },
                    decreases columns.len() - i,
                {
                    let c = &columns[i];
                    let column_name = match &c.name_raw {
                        Some(n) => match try_unquote(n) {
                            Some(u) => u,
                            None => {
                                assert(!index_column_ok(columns@[i as int]));
                                assert(!index_statement_ok(*p));
                                return Err(
                                    SchemaError::Precondition(String::from_str("malformed column name")),
                                );
                            },
                        },
                        None => String::from_str(c.expr_text.as_str()),
                    };
                    cols.push(
                        ColumnOrder { column_name, ascending: c.ascending, nulls_first: c.nulls_first },
                    );
                    i += 1;
                }
                Ok(
                    TableIndex {
                        name,
                        table_name,
                        columns: cols,
                        unique: *unique,
                        predicate: clone_opt_string(predicate),
                        if_not_exists: *if_not_exists,
                    },
                )
            },
            _ => Err(SchemaError::Precondition(String::from_str("expected 'CREATE INDEX'"))),
        }
    }
}


/// Abstract value of a column option.
pub ghost enum ColumnOptionV {
    Null,
    NotNull,
    Default(Seq<char>),
    Unique { is_primary: bool },
    ForeignKey {
        foreign_table: Seq<char>,
        referred_columns: Seq<Seq<char>>,
        on_delete: Option<ReferentialAction>,
        on_update: Option<ReferentialAction>,
    },
    Check(Seq<char>),
    OnUpdate(Seq<char>),
    Generated { expr: Seq<char>, mode: Option<GeneratedExpressionMode> },
}

impl View for ColumnOption {
    type V = ColumnOptionV;

    open spec fn view(&self) -> ColumnOptionV {
        match self {
            ColumnOption::Null => ColumnOptionV::Null,
            ColumnOption::NotNull => ColumnOptionV::NotNull,
            ColumnOption::Default(v) => ColumnOptionV::Default(v@),
            ColumnOption::Unique { is_primary } => ColumnOptionV::Unique { is_primary: *is_primary },
            ColumnOption::ForeignKey { foreign_table, referred_columns, on_delete, on_update } =>
                ColumnOptionV::ForeignKey {
                foreign_table: foreign_table@,
                referred_columns: views(referred_columns@),
                on_delete: *on_delete,
                on_update: *on_update,
            },
            ColumnOption::Check(e) => ColumnOptionV::Check(e@),
            ColumnOption::OnUpdate(e) => ColumnOptionV::OnUpdate(e@),
            ColumnOption::Generated { expr, mode } => ColumnOptionV::Generated {
                expr: expr@,
                mode: *mode,
            },
        }
    }
}

/// Abstract value of a column.
pub ghost struct ColumnV {
    pub name: Seq<char>,
    pub data_type: ColumnDataType,
    pub options: Seq<ColumnOptionV>,
}

pub open spec fn options_view(opts: Seq<ColumnOption>) -> Seq<ColumnOptionV> {
    opts.map_values(|o: ColumnOption| o@)
}

impl View for Column {
    type V = ColumnV;

    open spec fn view(&self) -> ColumnV {
        ColumnV { name: self.name@, data_type: self.data_type, options: options_view(self.options@) }
    }
}

fn copy_strings(v: &Vec<String>) -> (r: Vec<String>)
    ensures
        views(r@) == views(v@),
{
    let mut r: Vec<String> = Vec::new();
    let mut i: usize = 0;
    while i < v.len()
        invariant
            i <= v.len(),
            views(r@) == views(v@.take(i as int)),
        decreases v.len() - i,
    {
        proof {
            lemma_views_push(r@, v@[i as int]);
            assert(v@.take(i + 1) =~= v@.take(i as int).push(v@[i as int]));
            lemma_views_push(v@.take(i as int), v@[i as int]);
        }
        r.push(v[i].clone());
        i += 1;
    }
    proof {
        assert(v@.take(i as int) =~= v@);
    }
    r
}

impl ColumnOption {
    /// A copy of the option.
    pub fn duplicate(&self) -> (r: ColumnOption)
        ensures
            r@ == self@,
    {
        match self {
            ColumnOption::Null => ColumnOption::Null,
            ColumnOption::NotNull => ColumnOption::NotNull,
            ColumnOption::Default(v) => ColumnOption::Default(v.clone()),
            ColumnOption::Unique { is_primary } => ColumnOption::Unique { is_primary: *is_primary },
            ColumnOption::ForeignKey { foreign_table, referred_columns, on_delete, on_update } =>
                ColumnOption::ForeignKey {
                foreign_table: foreign_table.clone(),
                referred_columns: copy_strings(referred_columns),
                on_delete: *on_delete,
                on_update: *on_update,
            },
            ColumnOption::Check(e) => ColumnOption::Check(e.clone()),
            ColumnOption::OnUpdate(e) => ColumnOption::OnUpdate(e.clone()),
            ColumnOption::Generated { expr, mode } => ColumnOption::Generated {
                expr: expr.clone(),
                mode: *mode,
            },
        }
    }
}

/// A copy of the options.
pub fn copy_options(v: &Vec<ColumnOption>) -> (r: Vec<ColumnOption>)
    ensures
        options_view(r@) == options_view(v@),
{
    let mut r: Vec<ColumnOption> = Vec::new();
    let mut i: usize = 0;
    while i < v.len()
        invariant
            i <= v.len(),
            options_view(r@) == options_view(v@.take(i as int)),
        decreases v.len() - i,
    {
        let o = v[i].duplicate();
        proof {
            assert(options_view(r@.push(o)) =~= options_view(r@).push(o@));
            assert(options_view(v@.take(i + 1)) =~= options_view(v@.take(i as int)).push(v@[i as int]@));
        }
        r.push(o);
        i += 1;
    }
    proof {
        assert(v@.take(i as int) =~= v@);
    }
    r
}

impl Column {
    /// A copy of the column.
    pub fn duplicate(&self) -> (r: Column)
        ensures
            r@ == self@,
    {
        Column { name: self.name.clone(), data_type: self.data_type, options: copy_options(&self.options) }
    }
}

} // verus!

//! Plain-value model of the parts of a parsed SQL statement that the schema
//! conversions read.
use vstd::prelude::*;

use crate::schema::ReferentialAction;

verus! {

/// A referential action clause of a `REFERENCES` clause.
#[derive(Clone, Debug, PartialEq)]
pub enum ParsedRefArg {
    OnDelete(ReferentialAction),
    OnUpdate(ReferentialAction),
    /// `ON INSERT` or `MATCH`.
    Other,
}

/// A `REFERENCES` clause.
#[derive(Clone, Debug, PartialEq)]
pub struct ParsedForeignKeyClause {
    /// The referenced table's name as written, quotes included.
    pub table_raw: String,
    /// The referenced table's name as the parser prints it.
    pub table_text: String,
    /// The referenced columns as the parser prints them.
    pub columns: Option<Vec<String>>,
    pub args: Vec<ParsedRefArg>,
}

/// A column-level constraint.
#[derive(Clone, Debug, PartialEq)]
pub enum ParsedColumnConstraint {
    PrimaryKey,
    NotNull,
    Unique,
    /// The printed check expression.
    Check(String),
    /// The printed default expression.
    Default(String),
    ForeignKey(ParsedForeignKeyClause),
    /// The printed expression and the `STORED` / `VIRTUAL` keyword, if any.
    Generated { expr: String, mode: Option<String> },
    Collate,
    Defer,
}

/// A column definition.
#[derive(Clone, Debug, PartialEq)]
pub struct ParsedColumn {
    /// The column's name as written, quotes included.
    pub name_raw: String,
    /// The declared type's name, if any.
    pub declared_type: Option<String>,
    pub constraints: Vec<ParsedColumnConstraint>,
}

/// A table-level constraint.
#[derive(Clone, Debug, PartialEq)]
pub enum ParsedTableConstraint {
    ForeignKey {
        /// The printed constraint name, if any.
        name: Option<String>,
        /// The printed referencing columns.
        columns: Vec<String>,
        clause: ParsedForeignKeyClause,
    },
    Unique {
        /// The printed constraint name, if any.
        name: Option<String>,
        /// The printed column expressions.
        columns: Vec<String>,
    },
    /// `PRIMARY KEY` or `CHECK`.
    Other,
}

/// The column list and constraints of `CREATE TABLE`.
#[derive(Clone, Debug, PartialEq)]
pub struct ParsedTableBody {
    pub columns: Vec<ParsedColumn>,
    pub constraints: Option<Vec<ParsedTableConstraint>>,
    pub strict: bool,
}

/// One indexed column of `CREATE INDEX`.
#[derive(Clone, Debug, PartialEq)]
pub struct ParsedIndexColumn {
    /// When the indexed expression is a bare name: that name as written.
    pub name_raw: Option<String>,
    /// The printed indexed expression.
    pub expr_text: String,
    pub ascending: Option<bool>,
    pub nulls_first: Option<bool>,
}


/// One result column of a `SELECT` core.
#[derive(Clone, Debug, PartialEq)]
pub enum ParsedResultColumn {
    /// `*`
    Star,
    /// `name.*`, with the name as the parser prints it.
    TableStar(String),
    /// A bare identifier as written, its `Debug` rendering, and the `AS` alias if any.
    Id { name: String, debug: String, alias: Option<String> },
    /// `qualifier.name`, both as printed, and the `AS` alias if any.
    Qualified { qualifier: String, name: String, alias: Option<String> },
    /// `CAST(.. AS type)`: the type's name if one is given, and the `AS` alias if any.
    Cast { target: Option<String>, alias: Option<String> },
    /// Any other expression.
    Other,
}

/// A table of a `FROM` clause: the name it is referred to by (its `AS` alias, else its
/// printed qualified name) and its printed qualified name.
#[derive(Clone, Debug, PartialEq)]
pub struct ParsedSource {
    pub key: String,
    pub name: String,
}

/// The parts of a `SELECT` that the schema code reads.
#[derive(Clone, Debug, PartialEq)]
pub struct ParsedSelect {
    /// Whether the first select is a `SELECT` core (not `VALUES`).
    pub is_core: bool,
    /// The tables, in order, when the select is a single `SELECT` core without `DISTINCT` /
    /// `ALL`, `GROUP BY` or `WINDOW`, whose `FROM` clause names only tables; else `None`.
    pub sources: Option<Vec<ParsedSource>>,
    /// The result columns of the first `SELECT` core.
    pub columns: Vec<ParsedResultColumn>,
}

/// A parsed statement; `description` is the statement as the parser's `Debug` prints it.
#[derive(Clone, Debug, PartialEq)]
pub enum ParsedStatement {
    CreateTable {
        temporary: bool,
        /// The table's name as written, quotes included.
        name_raw: String,
        /// `None` for `CREATE TABLE ... AS SELECT`.
        body: Option<ParsedTableBody>,
        description: String,
    },
    CreateVirtualTable { name_raw: String, description: String },
    CreateIndex {
        unique: bool,
        if_not_exists: bool,
        name_raw: String,
        table_raw: String,
        columns: Vec<ParsedIndexColumn>,
        /// The printed `WHERE` expression.
        predicate: Option<String>,
        description: String,
    },
    CreateView {
        temporary: bool,
        if_not_exists: bool,
        /// The view's qualified name as the parser prints it.
        name_text: String,
        /// Whether the statement lists the view's column names.
        columns_given: bool,
        select: ParsedSelect,
        /// The `SELECT` as the parser prints it.
        query: String,
        description: String,
    },
    Select { select: ParsedSelect, description: String },
    /// Any other statement, with its printed description.
    Other { description: String },
}

} // verus!

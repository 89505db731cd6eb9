//! Parsing SQL with `sqlite3_parser` and reading its syntax tree into the
//! plain-value model of `statement`.
use vstd::prelude::*;

use fallible_iterator::FallibleIterator;
use sqlite3_parser::ast::{
    As, Cmd, ColumnConstraint, ColumnDefinition, CompoundSelect, CreateTableBody, Distinctness, Expr,
    ForeignKeyClause, FromClause, GroupBy, Id, IndexedColumn, JoinedSelectTable, Name,
    NamedColumnConstraint, NamedTableConstraint, NullsOrder, OneSelect, QualifiedName, RefAct,
    RefArg, ResultColumn, Select, SelectTable, SortOrder, SortedColumn, Stmt, TableConstraint,
    TableOptions, WindowDef,
};

use crate::schema::{ReferentialAction, SchemaError, Table, TableIndex};
use crate::statement::{
    ParsedColumn, ParsedColumnConstraint, ParsedForeignKeyClause, ParsedIndexColumn, ParsedRefArg,
    ParsedResultColumn, ParsedSelect, ParsedSource, ParsedStatement, ParsedTableBody,
    ParsedTableConstraint,
};

verus! {

#[verifier::external_type_specification]
#[verifier::external_body]
pub struct ExStmt(Stmt);

#[verifier::external_type_specification]
#[verifier::external_body]
pub struct ExQualifiedName(QualifiedName);

#[verifier::external_type_specification]
#[verifier::external_body]
pub struct ExName(Name);

#[verifier::external_type_specification]
#[verifier::external_body]
pub struct ExCreateTableBody(CreateTableBody);

#[verifier::external_type_specification]
#[verifier::external_body]
pub struct ExColumnDefinition(ColumnDefinition);

#[verifier::external_type_specification]
#[verifier::external_body]
pub struct ExNamedColumnConstraint(NamedColumnConstraint);

#[verifier::external_type_specification]
#[verifier::external_body]
pub struct ExExpr(Expr);

#[verifier::external_type_specification]
#[verifier::external_body]
pub struct ExForeignKeyClause(ForeignKeyClause);

#[verifier::external_type_specification]
#[verifier::external_body]
pub struct ExIndexedColumn(IndexedColumn);

#[verifier::external_type_specification]
#[verifier::external_body]
pub struct ExRefArg(RefArg);

#[verifier::external_type_specification]
#[verifier::external_body]
pub struct ExRefAct(RefAct);

#[verifier::external_type_specification]
#[verifier::external_body]
pub struct ExNamedTableConstraint(NamedTableConstraint);

#[verifier::external_type_specification]
#[verifier::external_body]
pub struct ExSortedColumn(SortedColumn);

#[verifier::external_type_specification]
#[verifier::external_body]
pub struct ExTableOptions(TableOptions);

#[verifier::external_type_specification]
#[verifier::external_body]
pub struct ExSortOrder(SortOrder);

#[verifier::external_type_specification]
#[verifier::external_body]
pub struct ExNullsOrder(NullsOrder);


#[verifier::external_type_specification]
#[verifier::external_body]
pub struct ExSelect(Select);

#[verifier::external_type_specification]
#[verifier::external_body]
pub struct ExOneSelect(OneSelect);

#[verifier::external_type_specification]
#[verifier::external_body]
pub struct ExCompoundSelect(CompoundSelect);

#[verifier::external_type_specification]
#[verifier::external_body]
pub struct ExDistinctness(Distinctness);

#[verifier::external_type_specification]
#[verifier::external_body]
pub struct ExGroupBy(GroupBy);

#[verifier::external_type_specification]
#[verifier::external_body]
pub struct ExWindowDef(WindowDef);

#[verifier::external_type_specification]
#[verifier::external_body]
pub struct ExFromClause(FromClause);

#[verifier::external_type_specification]
#[verifier::external_body]
pub struct ExSelectTable(SelectTable);

#[verifier::external_type_specification]
#[verifier::external_body]
pub struct ExJoinedSelectTable(JoinedSelectTable);

#[verifier::external_type_specification]
#[verifier::external_body]
pub struct ExResultColumn(ResultColumn);

#[verifier::external_type_specification]
#[verifier::external_body]
pub struct ExAs(As);

#[verifier::external_type_specification]
#[verifier::external_body]
pub struct ExId(Id);

/// The statement kinds the schema conversions read, with their still-unread parts.
enum StmtShape {
    CreateTable { temporary: bool, tbl_name: QualifiedName, body: CreateTableBody },
    CreateVirtualTable { tbl_name: QualifiedName },
    CreateIndex {
        unique: bool,
        if_not_exists: bool,
        idx_name: QualifiedName,
        tbl_name: Name,
        columns: Vec<SortedColumn>,
        where_clause: Option<Expr>,
    },
    CreateView {
        temporary: bool,
        if_not_exists: bool,
        view_name: QualifiedName,
        columns: Option<Vec<IndexedColumn>>,
        select: Select,
    },
    Select(Select),
    Other(Stmt),
}

enum OneSelectShape {
    Select {
        distinctness: Option<Distinctness>,
        columns: Vec<ResultColumn>,
        from: Option<FromClause>,
        group_by: Option<GroupBy>,
        window_clause: Option<Vec<WindowDef>>,
    },
    Values,
}

enum ResultColumnShape {
    Expr(Expr, Option<As>),
    Star,
    TableStar(Name),
}

enum SelectTableShape {
    Table(QualifiedName, Option<As>),
    TableCall(QualifiedName, Option<As>),
    Select(Select, Option<As>),
    Sub(FromClause, Option<As>),
}

enum ExprShape {
    Id(Id),
    Qualified(Name, Name),
    Cast(Expr),
    Other(Expr),
}

enum BodyShape {
    ColumnsAndConstraints {
        columns: Vec<ColumnDefinition>,
        constraints: Option<Vec<NamedTableConstraint>>,
        options: TableOptions,
    },
    AsSelect,
}

enum ColumnConstraintShape {
    PrimaryKey,
    NotNull,
    Unique,
    Check(Expr),
    Default(Expr),
    Defer,
    Collate,
    ForeignKey(ForeignKeyClause),
    Generated { expr: Expr, typ: Option<String> },
}

enum RefArgShape {
    OnDelete(RefAct),
    OnInsert(RefAct),
    OnUpdate(RefAct),
    Match(Name),
}

enum TableConstraintShape {
    PrimaryKey { columns: Vec<SortedColumn> },
    Unique { columns: Vec<SortedColumn> },
    Check(Expr),
    ForeignKey { columns: Vec<IndexedColumn>, clause: ForeignKeyClause },
}

/// The message (the `Display`) of the syntax error that `sqlite3_parser`'s `Parser::next`
/// reports for the first statement of the text; `None` when it reports none.
pub uninterp spec fn sql_parse_error(sql: Seq<char>) -> Option<Seq<char>>;

/// The statement that `sqlite3_parser`'s `Parser::next` reads first from the text, as the
/// library's model of it (`None` for empty input and `EXPLAIN`), when it reports no
/// syntax error.
pub uninterp spec fn parsed_statement_of(sql: Seq<char>) -> Option<ParsedStatement>;

/// Parses the first SQL statement of `sql` with `sqlite3_parser`'s `Parser::next` and
/// reads its syntax tree into the library's model (`lower_statement`): `EXPLAIN`
/// statements and empty input give `None`, a syntax error its message.
#[verifier::external_body]
pub fn sqlite3_parse_into_statement(sql: &str) -> (r: Result<Option<ParsedStatement>, String>)
    ensures
        sql@.len() == 0 ==> r matches Ok(None),
        match r {
            Ok(p) => sql_parse_error(sql@) is None && p == parsed_statement_of(sql@),
            Err(m) => sql_parse_error(sql@) == Some(m@),
        },
{
    let mut parser = sqlite3_parser::lexer::sql::Parser::new(sql.as_bytes());
    match parser.next() {
        Err(err) => Err(err.to_string()),
        Ok(Some(sqlite3_parser::ast::Cmd::Stmt(stmt))) => Ok(Some(lower_statement(stmt))),
        Ok(_) => Ok(None),
    }
}

/// Tells the kinds of `sqlite3_parser::ast::Stmt` apart.
#[verifier::external_body]
fn stmt_shape(stmt: Stmt) -> StmtShape {
    match stmt {
        Stmt::CreateTable { temporary, tbl_name, body, .. } => StmtShape::CreateTable { temporary, tbl_name, body },
        Stmt::CreateVirtualTable { tbl_name, .. } => StmtShape::CreateVirtualTable { tbl_name },
        Stmt::CreateIndex { unique, if_not_exists, idx_name, tbl_name, columns, where_clause } =>
            StmtShape::CreateIndex { unique, if_not_exists, idx_name, tbl_name, columns, where_clause },
        Stmt::CreateView { temporary, if_not_exists, view_name, columns, select } =>
            StmtShape::CreateView { temporary, if_not_exists, view_name, columns, select },
        Stmt::Select(select) => StmtShape::Select(select),
        other => StmtShape::Other(other),
    }
}

/// The `Debug` rendering of a statement.
#[verifier::external_body]
pub(crate) fn stmt_debug(stmt: &Stmt) -> String {
    format!("{stmt:?}")
}

/// The object name of a `QualifiedName`, without schema or alias.
#[verifier::external_body]
fn qualified_name_base(q: QualifiedName) -> Name {
    q.name
}

/// The text of a `Name` as written, quotes included.
#[verifier::external_body]
fn name_raw(n: &Name) -> String {
    n.0.clone()
}

/// A `Name` as `sqlite3_parser` prints it (its `Display`).
#[verifier::external_body]
fn name_text(n: &Name) -> String {
    n.to_string()
}

/// An expression as `sqlite3_parser` prints it (its `Display`).
#[verifier::external_body]
fn expr_text(e: &Expr) -> String {
    e.to_string()
}

/// Tells the kinds of `CreateTableBody` apart; the column map becomes its values in order.
#[verifier::external_body]
fn body_shape(body: CreateTableBody) -> BodyShape {
    match body {
        CreateTableBody::ColumnsAndConstraints { columns, constraints, options } => BodyShape::ColumnsAndConstraints {
            columns: columns.into_values().collect(),
            constraints,
            options,
        },
        CreateTableBody::AsSelect(_) => BodyShape::AsSelect,
    }
}

/// `TableOptions::contains(TableOptions::STRICT)`.
#[verifier::external_body]
fn is_strict(options: &TableOptions) -> bool {
    options.contains(TableOptions::STRICT)
}

/// The name, declared type name and constraints of a column definition.
#[verifier::external_body]
fn column_definition_parts(def: ColumnDefinition) -> (Name, Option<String>, Vec<NamedColumnConstraint>) {
    (def.col_name, def.col_type.map(|t| t.name), def.constraints)
}

/// Tells the kinds of a column constraint apart.
#[verifier::external_body]
fn column_constraint_shape(c: NamedColumnConstraint) -> ColumnConstraintShape {
    match c.constraint {
        ColumnConstraint::PrimaryKey { .. } => ColumnConstraintShape::PrimaryKey,
        ColumnConstraint::NotNull { .. } => ColumnConstraintShape::NotNull,
        ColumnConstraint::Unique(_) => ColumnConstraintShape::Unique,
        ColumnConstraint::Check(e) => ColumnConstraintShape::Check(e),
        ColumnConstraint::Default(e) => ColumnConstraintShape::Default(e),
        ColumnConstraint::Defer(_) => ColumnConstraintShape::Defer,
        ColumnConstraint::Collate { .. } => ColumnConstraintShape::Collate,
        ColumnConstraint::ForeignKey { clause, .. } => ColumnConstraintShape::ForeignKey(clause),
        ColumnConstraint::Generated { expr, typ } => ColumnConstraintShape::Generated { expr, typ: typ.map(|t| t.0) },
    }
}

/// The table name, referenced columns and arguments of a `REFERENCES` clause.
#[verifier::external_body]
fn foreign_key_clause_parts(c: ForeignKeyClause) -> (Name, Option<Vec<IndexedColumn>>, Vec<RefArg>) {
    (c.tbl_name, c.columns, c.args)
}

/// The column name of an `IndexedColumn`.
#[verifier::external_body]
fn indexed_column_name(c: IndexedColumn) -> Name {
    c.col_name
}

/// Tells the kinds of a `REFERENCES` argument apart.
#[verifier::external_body]
fn ref_arg_shape(a: RefArg) -> RefArgShape {
    match a {
        RefArg::OnDelete(act) => RefArgShape::OnDelete(act),
        RefArg::OnUpdate(act) => RefArgShape::OnUpdate(act),
        RefArg::OnInsert(act) => RefArgShape::OnInsert(act),
        RefArg::Match(n) => RefArgShape::Match(n),
    }
}

/// The referential action that a `RefAct` names.
#[verifier::external_body]
fn referential_action(a: RefAct) -> ReferentialAction {
    match a {
        RefAct::Restrict => ReferentialAction::Restrict,
        RefAct::Cascade => ReferentialAction::Cascade,
        RefAct::SetNull => ReferentialAction::SetNull,
        RefAct::NoAction => ReferentialAction::NoAction,
        RefAct::SetDefault => ReferentialAction::SetDefault,
    }
}

/// The name of a table constraint and its kind.
#[verifier::external_body]
fn table_constraint_shape(c: NamedTableConstraint) -> (Option<Name>, TableConstraintShape) {
    let shape = match c.constraint {
        TableConstraint::ForeignKey { columns, clause, .. } => TableConstraintShape::ForeignKey { columns, clause },
        TableConstraint::Unique { columns, .. } => TableConstraintShape::Unique { columns },
        TableConstraint::PrimaryKey { columns, .. } => TableConstraintShape::PrimaryKey { columns },
        TableConstraint::Check(e) => TableConstraintShape::Check(e),
    };
    (c.name, shape)
}

/// The expression, sort order and nulls order of a `SortedColumn`.
#[verifier::external_body]
fn sorted_column_parts(c: SortedColumn) -> (Expr, Option<SortOrder>, Option<NullsOrder>) {
    (c.expr, c.order, c.nulls)
}

/// Whether a sort order is `ASC`.
#[verifier::external_body]
fn is_ascending(o: SortOrder) -> bool {
    match o {
        SortOrder::Asc => true,
        SortOrder::Desc => false,
    }
}

/// Whether a nulls order is `NULLS FIRST`.
#[verifier::external_body]
fn is_nulls_first(o: NullsOrder) -> bool {
    match o {
        NullsOrder::First => true,
        NullsOrder::Last => false,
    }
}

/// The name, when the expression is a bare name.
#[verifier::external_body]
fn expr_as_name(e: Expr) -> Result<Name, Expr> {
    match e {
        Expr::Name(n) => Ok(n),
        other => Err(other),
    }
}


/// The first select of a `SELECT` and its compound parts.
#[verifier::external_body]
fn select_body(s: Select) -> (OneSelect, Option<Vec<CompoundSelect>>) {
    (s.body.select, s.body.compounds)
}

/// Tells a `SELECT` core from `VALUES`.
#[verifier::external_body]
fn one_select_shape(o: OneSelect) -> OneSelectShape {
    match o {
        OneSelect::Select { distinctness, columns, from, group_by, window_clause, .. } =>
            OneSelectShape::Select { distinctness, columns, from, group_by, window_clause },
        OneSelect::Values(_) => OneSelectShape::Values,
    }
}

/// The first table and the joined tables of a `FROM` clause.
#[verifier::external_body]
fn from_parts(f: FromClause) -> (Option<SelectTable>, Option<Vec<JoinedSelectTable>>) {
    (f.select.map(|b| *b), f.joins)
}

/// The table of a join.
#[verifier::external_body]
fn joined_table(j: JoinedSelectTable) -> SelectTable {
    j.table
}

/// Tells the kinds of table references of a `FROM` clause apart.
#[verifier::external_body]
fn select_table_shape(t: SelectTable) -> SelectTableShape {
    match t {
        SelectTable::Table(qn, alias, _) => SelectTableShape::Table(qn, alias),
        SelectTable::TableCall(qn, _, alias) => SelectTableShape::TableCall(qn, alias),
        SelectTable::Select(select, alias) => SelectTableShape::Select(select, alias),
        SelectTable::Sub(from, alias) => SelectTableShape::Sub(from, alias),
    }
}

/// The name of an alias given with `AS`; `None` for an alias without it.
#[verifier::external_body]
fn alias_name(a: As) -> Option<Name> {
    match a {
        As::As(n) => Some(n),
        As::Elided(_) => None,
    }
}

/// A qualified name as `sqlite3_parser` prints it (its `Display`).
#[verifier::external_body]
fn qualified_name_text(q: &QualifiedName) -> String {
    q.to_string()
}

/// Tells the kinds of result columns apart.
#[verifier::external_body]
fn result_column_shape(c: ResultColumn) -> ResultColumnShape {
    match c {
        ResultColumn::Expr(e, alias) => ResultColumnShape::Expr(e, alias),
        ResultColumn::Star => ResultColumnShape::Star,
        ResultColumn::TableStar(n) => ResultColumnShape::TableStar(n),
    }
}

/// Tells identifiers, qualified names and casts apart from other expressions.
#[verifier::external_body]
fn expr_shape(e: Expr) -> ExprShape {
    match e {
        Expr::Id(id) => ExprShape::Id(id),
        Expr::Qualified(q, n) => ExprShape::Qualified(q, n),
        cast @ Expr::Cast { .. } => ExprShape::Cast(cast),
        other => ExprShape::Other(other),
    }
}

/// An identifier as written.
#[verifier::external_body]
fn id_text(id: &Id) -> String {
    id.0.clone()
}

/// The `Debug` rendering of an identifier.
#[verifier::external_body]
fn id_debug(id: &Id) -> String {
    format!("{id:?}")
}

/// Whether ` AS ` starts at position `k` of `s`.
pub open spec fn as_at(s: Seq<char>, k: int) -> bool {
    s[k] == ' ' && s[k + 1] == 'A' && s[k + 2] == 'S' && s[k + 3] == ' '
}

/// The last position in `1..=k` where ` AS ` starts, or 0 when there is none.
pub open spec fn last_as(s: Seq<char>, k: int) -> int
    decreases k,
{
    if k <= 0 {
        0
    } else if as_at(s, k) {
        k
    } else {
        last_as(s, k - 1)
    }
}

/// Where the type name that starts at or before `e` ends, before `end`: at the first
/// ` (` that opens a size, else at `end`.
pub open spec fn type_end(s: Seq<char>, e: int, end: int) -> int
    decreases end - e,
{
    if e >= end {
        end
    } else if s[e] == ' ' && e + 1 < end && s[e + 1] == '(' {
        e
    } else {
        type_end(s, e + 1, end)
    }
}

/// The type named by a printed cast `CAST (expr AS type)`: the text between its last
/// ` AS ` and the closing parenthesis, up to a size in parentheses; `None` for a text
/// shorter than four characters and for a cast that names no type (`.. AS)`).
pub open spec fn cast_type(s: Seq<char>) -> Option<Seq<char>> {
    let n = s.len() as int;
    if n < 4 {
        None
    } else if s[n - 1] == ')' && s[n - 2] == 'S' && s[n - 3] == 'A' && s[n - 4] == ' ' {
        None
    } else {
        let start = last_as(s, n - 4) + 4;
        let end = n - 1;
        if start > end {
            None
        } else {
            Some(s.subrange(start, type_end(s, start, end)))
        }
    }
}

proof fn lemma_last_as_bounds(s: Seq<char>, k: int)
    requires
        k >= 0,
    ensures
        0 <= last_as(s, k) <= k,
    decreases k,
{
    if k > 0 {
        lemma_last_as_bounds(s, k - 1);
    }
}

/// The type named by a printed `CAST (expr AS type)`: what follows its last ` AS `, up to
/// a size in parentheses; `None` when the cast names no type (`.. AS)`).
fn cast_target(printed: &str) -> (r: Option<String>)
    ensures
        match r {
            Some(t) => cast_type(printed@) == Some(t@),
            None => cast_type(printed@) is None,
        },
{
    let n = printed.unicode_len();
    if n < 4 {
        return None;
    }
    if printed.get_char(n - 1) == ')' && printed.get_char(n - 2) == 'S' && printed.get_char(n - 3)
        == 'A' && printed.get_char(n - 4) == ' ' {
        return None;
    }
    let mut k: usize = n - 4;
    while k > 0 && !(printed.get_char(k) == ' ' && printed.get_char(k + 1) == 'A' && printed.get_char(
        k + 2,
    ) == 'S' && printed.get_char(k + 3) == ' ')
        invariant
            n == printed@.len(),
            n >= 4,
            k <= n - 4,
            last_as(printed@, n - 4) == last_as(printed@, k as int),
        decreases k,
    {
        k -= 1;
    }
    proof {
        lemma_last_as_bounds(printed@, k as int);
    }
    let start = k + 4;
    let end = n - 1;
    if start > end {
        return None;
    }
    let mut e: usize = start;
    while e < end && !(printed.get_char(e) == ' ' && e + 1 < end && printed.get_char(e + 1) == '(')
        invariant
            n == printed@.len(),
            start <= e <= end,
            end < n,
            type_end(printed@, start as int, end as int) == type_end(printed@, e as int, end as int),
        decreases end - e,
    {
        e += 1;
    }
    Some(String::from_str(printed.substring_char(start, e)))
}

/// A `SELECT` printed as a statement (the `Display` of `Cmd::Stmt`), which ends in `;`.
#[verifier::external_body]
fn select_statement_text(s: &Select) -> (r: String)
    ensures
        r@.len() > 0 && r@.last() == ';',
{
    Cmd::Stmt(Stmt::Select(s.clone())).to_string()
}

/// A `SELECT` as the parser prints it.
fn select_text(s: &Select) -> (r: String) {
    let t = select_statement_text(s);
    let n = t.as_str().unicode_len();
    String::from_str(t.as_str().substring_char(0, n - 1))
}

fn lower_alias(alias: Option<As>) -> (r: Option<String>)
    ensures
        alias is None ==> r is None,
{
    match alias {
        Some(a) => match alias_name(a) {
            Some(n) => Some(name_text(&n)),
            None => None,
        },
        None => None,
    }
}

fn lower_result_column(c: ResultColumn) -> ParsedResultColumn {
    match result_column_shape(c) {
        ResultColumnShape::Star => ParsedResultColumn::Star,
        ResultColumnShape::TableStar(n) => ParsedResultColumn::TableStar(name_text(&n)),
        ResultColumnShape::Expr(e, alias) => {
            let alias = lower_alias(alias);
            match expr_shape(e) {
                ExprShape::Id(id) => ParsedResultColumn::Id {
                    name: id_text(&id),
                    debug: id_debug(&id),
                    alias,
                },
                ExprShape::Qualified(q, n) => ParsedResultColumn::Qualified {
                    qualifier: name_text(&q),
                    name: name_text(&n),
                    alias,
                },
                ExprShape::Cast(cast) => ParsedResultColumn::Cast {
                    target: cast_target(expr_text(&cast).as_str()),
                    alias,
                },
                ExprShape::Other(_) => ParsedResultColumn::Other,
            }
        },
    }
}

fn lower_source(t: SelectTable) -> Option<ParsedSource> {
    match select_table_shape(t) {
        SelectTableShape::Table(qn, alias) => {
            let name = qualified_name_text(&qn);
            let key = match lower_alias(alias) {
                Some(a) => a,
                None => name.clone(),
            };
            Some(ParsedSource { key, name })
        },
        SelectTableShape::TableCall(..) => None,
        SelectTableShape::Select(..) => None,
        SelectTableShape::Sub(..) => None,
    }
}

fn lower_sources(from: Option<FromClause>) -> (r: Option<Vec<ParsedSource>>)
    ensures
        from is None ==> r is None,
{
    let from = match from {
        Some(f) => f,
        None => {
            return None;
        },
    };
    let (first, joins) = from_parts(from);
    let first = match first {
        Some(t) => t,
        None => {
            return None;
        },
    };
    let mut out: Vec<ParsedSource> = Vec::new();
    match lower_source(first) {
        Some(src) => out.push(src),
        None => {
            return None;
        },
    }
    match joins {
        Some(js) => {
            let mut js = js;
            while js.len() > 0
                decreases js@.len(),
            {
                let j = js.remove(0);
                match lower_source(joined_table(j)) {
                    Some(src) => out.push(src),
                    None => {
                        return None;
                    },
                }
            }
        },
        None => {},
    }
    Some(out)
}

/// Reads the parts of a `SELECT` that the schema code uses.
fn lower_select(s: Select) -> ParsedSelect {
    let (first, compounds) = select_body(s);
    match one_select_shape(first) {
        OneSelectShape::Select { distinctness, columns, from, group_by, window_clause } => {
            let mut parsed: Vec<ParsedResultColumn> = Vec::new();
            let mut columns = columns;
            while columns.len() > 0
                decreases columns@.len(),
            {
                parsed.push(lower_result_column(columns.remove(0)));
            }
            let simple = compounds.is_none() && distinctness.is_none() && group_by.is_none()
                && window_clause.is_none();
            let sources = if simple {
                lower_sources(from)
            } else {
                None
            };
            ParsedSelect { is_core: true, sources, columns: parsed }
        },
        OneSelectShape::Values => ParsedSelect { is_core: false, sources: None, columns: Vec::new() },
    }
}

fn lower_names(names: Vec<IndexedColumn>) -> (r: Vec<String>)
    ensures
        r@.len() == names@.len(),
{
    let mut r: Vec<String> = Vec::new();
    let mut names = names;
    let ghost n = names@.len();
    while names.len() > 0
        invariant
            r@.len() + names@.len() == n,
        decreases names@.len(),
    {
        let c = names.remove(0);
        r.push(name_text(&indexed_column_name(c)));
    }
    r
}

fn lower_foreign_key_clause(c: ForeignKeyClause) -> ParsedForeignKeyClause {
    let (tbl_name, columns, args) = foreign_key_clause_parts(c);
    let mut parsed_args: Vec<ParsedRefArg> = Vec::new();
    let mut args = args;
    while args.len() > 0
        decreases args@.len(),
    {
        let a = args.remove(0);
        let p = match ref_arg_shape(a) {
            RefArgShape::OnDelete(act) => ParsedRefArg::OnDelete(referential_action(act)),
            RefArgShape::OnUpdate(act) => ParsedRefArg::OnUpdate(referential_action(act)),
            RefArgShape::OnInsert(_) => ParsedRefArg::Other,
            RefArgShape::Match(_) => ParsedRefArg::Other,
        };
        parsed_args.push(p);
    }
    ParsedForeignKeyClause {
        table_raw: name_raw(&tbl_name),
        table_text: name_text(&tbl_name),
        columns: match columns {
            Some(cols) => Some(lower_names(cols)),
            None => None,
        },
        args: parsed_args,
    }
}

fn lower_column(def: ColumnDefinition) -> ParsedColumn {
    let (name, declared_type, constraints) = column_definition_parts(def);
    let mut parsed: Vec<ParsedColumnConstraint> = Vec::new();
    let mut constraints = constraints;
    while constraints.len() > 0
        decreases constraints@.len(),
    {
        let c = constraints.remove(0);
        let p = match column_constraint_shape(c) {
            ColumnConstraintShape::PrimaryKey => ParsedColumnConstraint::PrimaryKey,
            ColumnConstraintShape::NotNull => ParsedColumnConstraint::NotNull,
            ColumnConstraintShape::Unique => ParsedColumnConstraint::Unique,
            ColumnConstraintShape::Check(e) => ParsedColumnConstraint::Check(expr_text(&e)),
            ColumnConstraintShape::Default(e) => ParsedColumnConstraint::Default(expr_text(&e)),
            ColumnConstraintShape::Defer => ParsedColumnConstraint::Defer,
            ColumnConstraintShape::Collate => ParsedColumnConstraint::Collate,
            ColumnConstraintShape::ForeignKey(clause) => ParsedColumnConstraint::ForeignKey(
                lower_foreign_key_clause(clause),
            ),
            ColumnConstraintShape::Generated { expr, typ } => ParsedColumnConstraint::Generated {
                expr: expr_text(&expr),
                mode: typ,
            },
        };
        parsed.push(p);
    }
    ParsedColumn { name_raw: name_raw(&name), declared_type, constraints: parsed }
}

fn lower_table_constraint(c: NamedTableConstraint) -> ParsedTableConstraint {
    let (name, shape) = table_constraint_shape(c);
    let name = match name {
        Some(n) => Some(name_text(&n)),
        None => None,
    };
    match shape {
        TableConstraintShape::ForeignKey { columns, clause } => ParsedTableConstraint::ForeignKey {
            name,
            columns: lower_names(columns),
            clause: lower_foreign_key_clause(clause),
        },
        TableConstraintShape::Unique { columns } => {
            let mut texts: Vec<String> = Vec::new();
            let mut columns = columns;
            while columns.len() > 0
                decreases columns@.len(),
            {
                let (expr, _order, _nulls) = sorted_column_parts(columns.remove(0));
                texts.push(expr_text(&expr));
            }
            ParsedTableConstraint::Unique { name, columns: texts }
        },
        TableConstraintShape::PrimaryKey { .. } => ParsedTableConstraint::Other,
        TableConstraintShape::Check(_) => ParsedTableConstraint::Other,
    }
}

fn lower_index_column(c: SortedColumn) -> ParsedIndexColumn {
    let (expr, order, nulls) = sorted_column_parts(c);
    let ascending = match order {
        Some(o) => Some(is_ascending(o)),
        None => None,
    };
    let nulls_first = match nulls {
        Some(o) => Some(is_nulls_first(o)),
        None => None,
    };
    match expr_as_name(expr) {
        Ok(n) => ParsedIndexColumn {
            name_raw: Some(name_raw(&n)),
            expr_text: name_text(&n),
            ascending,
            nulls_first,
        },
        Err(e) => ParsedIndexColumn { name_raw: None, expr_text: expr_text(&e), ascending, nulls_first },
    }
}

/// Reads the parts of a parsed statement that the schema conversions use.
fn lower_statement(stmt: Stmt) -> ParsedStatement {
    let description = stmt_debug(&stmt);
    match stmt_shape(stmt) {
        StmtShape::CreateTable { temporary, tbl_name, body } => {
            let name_raw = name_raw(&qualified_name_base(tbl_name));
            let body = match body_shape(body) {
                BodyShape::ColumnsAndConstraints { columns, constraints, options } => {
                    let mut parsed_columns: Vec<ParsedColumn> = Vec::new();
                    let mut columns = columns;
                    while columns.len() > 0
                        decreases columns@.len(),
                    {
                        parsed_columns.push(lower_column(columns.remove(0)));
                    }
                    let parsed_constraints = match constraints {
                        Some(cs) => {
                            let mut out: Vec<ParsedTableConstraint> = Vec::new();
                            let mut cs = cs;
                            while cs.len() > 0
                                decreases cs@.len(),
                            {
                                out.push(lower_table_constraint(cs.remove(0)));
                            }
                            Some(out)
                        },
                        None => None,
                    };
                    Some(
                        ParsedTableBody {
                            columns: parsed_columns,
                            constraints: parsed_constraints,
                            strict: is_strict(&options),
                        },
                    )
                },
                BodyShape::AsSelect => None,
            };
            ParsedStatement::CreateTable { temporary, name_raw, body, description }
        },
        StmtShape::CreateVirtualTable { tbl_name } => ParsedStatement::CreateVirtualTable {
            name_raw: name_raw(&qualified_name_base(tbl_name)),
            description,
        },
        StmtShape::CreateIndex { unique, if_not_exists, idx_name, tbl_name, columns, where_clause } => {
            let mut parsed_columns: Vec<ParsedIndexColumn> = Vec::new();
            let mut columns = columns;
            while columns.len() > 0
                decreases columns@.len(),
            {
                parsed_columns.push(lower_index_column(columns.remove(0)));
            }
            ParsedStatement::CreateIndex {
                unique,
                if_not_exists,
                name_raw: name_raw(&qualified_name_base(idx_name)),
                table_raw: name_raw(&tbl_name),
                columns: parsed_columns,
                predicate: match where_clause {
                    Some(e) => Some(expr_text(&e)),
                    None => None,
                },
                description,
            }
        },
        StmtShape::CreateView { temporary, if_not_exists, view_name, columns, select } => {
            let query = select_text(&select);
            ParsedStatement::CreateView {
                temporary,
                if_not_exists,
                name_text: qualified_name_text(&view_name),
                columns_given: columns.is_some(),
                select: lower_select(select),
                query,
                description,
            }
        },
        StmtShape::Select(select) => ParsedStatement::Select { select: lower_select(select), description },
        StmtShape::Other(_) => ParsedStatement::Other { description },
    }
}

impl Table {
    /// The table that a parsed `CREATE TABLE` or `CREATE VIRTUAL TABLE` statement creates.
    pub fn try_from(p: ParsedStatement) -> (r: Result<Table, SchemaError>)
        ensures
            r is Ok <==> crate::schema::table_statement_ok(p),
            r matches Ok(t) ==> crate::schema::table_of_parsed(t, p),
            r matches Err(e) ==> e is Precondition,
    {
        Table::from_parsed(&p)
    }
}

impl TableIndex {
    /// The index that a parsed `CREATE INDEX` statement creates.
    pub fn try_from(p: ParsedStatement) -> (r: Result<TableIndex, SchemaError>)
        ensures
            r is Ok <==> crate::schema::index_statement_ok(p),
            r matches Ok(x) ==> crate::schema::index_of_parsed(x, p),
            r matches Err(e) ==> e is Precondition,
    {
        TableIndex::from_parsed(&p)
    }
}

} // verus!

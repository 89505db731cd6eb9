//! Filters of the query string (`filter[col][$op]=value`, `$and` / `$or` groups) and their
//! compilation to a parameterised SQL fragment.
use vstd::prelude::*;

use crate::num::{is_float, is_float_literal, parse_i64, parsed_i64};
use crate::listing::{is_column_name, is_column_name_char};
use crate::text::{
    char_is_alphanumeric, join, lemma_views_push, push_char, seq_join, split, split_on, str_eq, views,
};
use crate::util::{base64_url_decode, base64_url_decoded, base64_url_encode, base64_url_encoded};

verus! {

/// The comparison of a filter leaf.
#[derive(Clone, Copy, Debug, PartialEq, Eq)]
pub enum CompareOp {
    Equal,
    NotEqual,
    GreaterThanEqual,
    GreaterThan,
    LessThanEqual,
    LessThan,
    Null,
    NotNull,
    Like,
    Regexp,
}

/// The operator a name stands for: `eq`, `ne`, `gte`, `gt`, `lte`, `lt`, `null`, `some`,
/// `like` or `re`.
pub open spec fn op_named(s: Seq<char>) -> Option<CompareOp> {
    if s == "eq"@ {
        Some(CompareOp::Equal)
    } else if s == "ne"@ {
        Some(CompareOp::NotEqual)
    } else if s == "gte"@ {
        Some(CompareOp::GreaterThanEqual)
    } else if s == "gt"@ {
        Some(CompareOp::GreaterThan)
    } else if s == "lte"@ {
        Some(CompareOp::LessThanEqual)
    } else if s == "lt"@ {
        Some(CompareOp::LessThan)
    } else if s == "null"@ {
        Some(CompareOp::Null)
    } else if s == "some"@ {
        Some(CompareOp::NotNull)
    } else if s == "like"@ {
        Some(CompareOp::Like)
    } else if s == "re"@ {
        Some(CompareOp::Regexp)
    } else {
        None
    }
}

/// The operator that an operator key names: the name itself (`gt`) or the name after a
/// `$` (`$gt`).
pub open spec fn compare_op_of(s: Seq<char>) -> Option<CompareOp> {
    if s.len() > 0 && s[0] == '$' {
        op_named(s.drop_first())
    } else {
        op_named(s)
    }
}

/// The operator names of a filter, with or without their `$`: `eq` is `=`, `ne` is `<>`,
/// `gte` is `>=`, `gt` is `>`, `lte` is `<=`, `lt` is `<`, `null` is `IS NULL`, `some` is
/// `IS NOT NULL`, `like` is `LIKE` and `re` is `REGEXP`.
pub proof fn lemma_operator_names()
    ensures
        op_named("eq"@) == Some(CompareOp::Equal),
        compare_op_of("$eq"@) == Some(CompareOp::Equal),
        op_named("ne"@) == Some(CompareOp::NotEqual),
        compare_op_of("$ne"@) == Some(CompareOp::NotEqual),
        op_named("gte"@) == Some(CompareOp::GreaterThanEqual),
        compare_op_of("$gte"@) == Some(CompareOp::GreaterThanEqual),
        op_named("gt"@) == Some(CompareOp::GreaterThan),
        compare_op_of("$gt"@) == Some(CompareOp::GreaterThan),
        op_named("lte"@) == Some(CompareOp::LessThanEqual),
        compare_op_of("$lte"@) == Some(CompareOp::LessThanEqual),
        op_named("lt"@) == Some(CompareOp::LessThan),
        compare_op_of("$lt"@) == Some(CompareOp::LessThan),
        op_named("null"@) == Some(CompareOp::Null),
        compare_op_of("$null"@) == Some(CompareOp::Null),
        op_named("some"@) == Some(CompareOp::NotNull),
        compare_op_of("$some"@) == Some(CompareOp::NotNull),
        op_named("like"@) == Some(CompareOp::Like),
        compare_op_of("$like"@) == Some(CompareOp::Like),
        op_named("re"@) == Some(CompareOp::Regexp),
        compare_op_of("$re"@) == Some(CompareOp::Regexp),
{
    reveal_strlit("eq");
    reveal_strlit("ne");
    reveal_strlit("gte");
    reveal_strlit("gt");
    reveal_strlit("lte");
    reveal_strlit("lt");
    reveal_strlit("null");
    reveal_strlit("some");
    reveal_strlit("like");
    reveal_strlit("re");
    reveal_strlit("$eq");
    reveal_strlit("$ne");
    reveal_strlit("$gte");
    reveal_strlit("$gt");
    reveal_strlit("$lte");
    reveal_strlit("$lt");
    reveal_strlit("$null");
    reveal_strlit("$some");
    reveal_strlit("$like");
    reveal_strlit("$re");
    assert("eq"@ != "ne"@) by {
        assert("eq"@[0] != "ne"@[0]);
    }
    assert("eq"@ != "gte"@) by {
        assert("eq"@.len() != "gte"@.len());
    }
    assert("eq"@ != "gt"@) by {
        assert("eq"@[0] != "gt"@[0]);
    }
    assert("eq"@ != "lte"@) by {
        assert("eq"@.len() != "lte"@.len());
    }
    assert("eq"@ != "lt"@) by {
        assert("eq"@[0] != "lt"@[0]);
    }
    assert("eq"@ != "null"@) by {
        assert("eq"@.len() != "null"@.len());
    }
    assert("eq"@ != "some"@) by {
        assert("eq"@.len() != "some"@.len());
    }
    assert("eq"@ != "like"@) by {
        assert("eq"@.len() != "like"@.len());
    }
    assert("eq"@ != "re"@) by {
        assert("eq"@[0] != "re"@[0]);
    }
    assert("ne"@ != "gte"@) by {
        assert("ne"@.len() != "gte"@.len());
    }
    assert("ne"@ != "gt"@) by {
        assert("ne"@[0] != "gt"@[0]);
    }
    assert("ne"@ != "lte"@) by {
        assert("ne"@.len() != "lte"@.len());
    }
    assert("ne"@ != "lt"@) by {
        assert("ne"@[0] != "lt"@[0]);
    }
    assert("ne"@ != "null"@) by {
        assert("ne"@.len() != "null"@.len());
    }
    assert("ne"@ != "some"@) by {
        assert("ne"@.len() != "some"@.len());
    }
    assert("ne"@ != "like"@) by {
        assert("ne"@.len() != "like"@.len());
    }
    assert("ne"@ != "re"@) by {
        assert("ne"@[0] != "re"@[0]);
    }
    assert("gte"@ != "gt"@) by {
        assert("gte"@.len() != "gt"@.len());
    }
    assert("gte"@ != "lte"@) by {
        assert("gte"@[0] != "lte"@[0]);
    }
    assert("gte"@ != "lt"@) by {
        assert("gte"@.len() != "lt"@.len());
    }
    assert("gte"@ != "null"@) by {
        assert("gte"@.len() != "null"@.len());
    }
    assert("gte"@ != "some"@) by {
        assert("gte"@.len() != "some"@.len());
    }
    assert("gte"@ != "like"@) by {
        assert("gte"@.len() != "like"@.len());
    }
    assert("gte"@ != "re"@) by {
        assert("gte"@.len() != "re"@.len());
    }
    assert("gt"@ != "lte"@) by {
        assert("gt"@.len() != "lte"@.len());
    }
    assert("gt"@ != "lt"@) by {
        assert("gt"@[0] != "lt"@[0]);
    }
    assert("gt"@ != "null"@) by {
        assert("gt"@.len() != "null"@.len());
    }
    assert("gt"@ != "some"@) by {
        assert("gt"@.len() != "some"@.len());
    }
    assert("gt"@ != "like"@) by {
        assert("gt"@.len() != "like"@.len());
    }
    assert("gt"@ != "re"@) by {
        assert("gt"@[0] != "re"@[0]);
    }
    assert("lte"@ != "lt"@) by {
        assert("lte"@.len() != "lt"@.len());
    }
    assert("lte"@ != "null"@) by {
        assert("lte"@.len() != "null"@.len());
    }
    assert("lte"@ != "some"@) by {
        assert("lte"@.len() != "some"@.len());
    }
    assert("lte"@ != "like"@) by {
        assert("lte"@.len() != "like"@.len());
    }
    assert("lte"@ != "re"@) by {
        assert("lte"@.len() != "re"@.len());
    }
    assert("lt"@ != "null"@) by {
        assert("lt"@.len() != "null"@.len());
    }
    assert("lt"@ != "some"@) by {
        assert("lt"@.len() != "some"@.len());
    }
    assert("lt"@ != "like"@) by {
        assert("lt"@.len() != "like"@.len());
    }
    assert("lt"@ != "re"@) by {
        assert("lt"@[0] != "re"@[0]);
    }
    assert("null"@ != "some"@) by {
        assert("null"@[0] != "some"@[0]);
    }
    assert("null"@ != "like"@) by {
        assert("null"@[0] != "like"@[0]);
    }
    assert("null"@ != "re"@) by {
        assert("null"@.len() != "re"@.len());
    }
    assert("some"@ != "like"@) by {
        assert("some"@[0] != "like"@[0]);
    }
    assert("some"@ != "re"@) by {
        assert("some"@.len() != "re"@.len());
    }
    assert("like"@ != "re"@) by {
        assert("like"@.len() != "re"@.len());
    }
    assert("$eq"@.drop_first() =~= "eq"@);
    assert("$eq"@[0] == '$');
    assert("$ne"@.drop_first() =~= "ne"@);
    assert("$ne"@[0] == '$');
    assert("$gte"@.drop_first() =~= "gte"@);
    assert("$gte"@[0] == '$');
    assert("$gt"@.drop_first() =~= "gt"@);
    assert("$gt"@[0] == '$');
    assert("$lte"@.drop_first() =~= "lte"@);
    assert("$lte"@[0] == '$');
    assert("$lt"@.drop_first() =~= "lt"@);
    assert("$lt"@[0] == '$');
    assert("$null"@.drop_first() =~= "null"@);
    assert("$null"@[0] == '$');
    assert("$some"@.drop_first() =~= "some"@);
    assert("$some"@[0] == '$');
    assert("$like"@.drop_first() =~= "like"@);
    assert("$like"@[0] == '$');
    assert("$re"@.drop_first() =~= "re"@);
    assert("$re"@[0] == '$');
}

fn op_by_name(name: &str) -> (r: Option<CompareOp>)
    ensures
        r == op_named(name@),
{
    if str_eq(name, "eq") {
        Some(CompareOp::Equal)
    } else if str_eq(name, "ne") {
        Some(CompareOp::NotEqual)
    } else if str_eq(name, "gte") {
        Some(CompareOp::GreaterThanEqual)
    } else if str_eq(name, "gt") {
        Some(CompareOp::GreaterThan)
    } else if str_eq(name, "lte") {
        Some(CompareOp::LessThanEqual)
    } else if str_eq(name, "lt") {
        Some(CompareOp::LessThan)
    } else if str_eq(name, "null") {
        Some(CompareOp::Null)
    } else if str_eq(name, "some") {
        Some(CompareOp::NotNull)
    } else if str_eq(name, "like") {
        Some(CompareOp::Like)
    } else if str_eq(name, "re") {
        Some(CompareOp::Regexp)
    } else {
        None
    }
}

/// The SQL text of an operator.
pub open spec fn compare_op_sql(op: CompareOp) -> Seq<char> {
    match op {
        CompareOp::GreaterThanEqual => ">="@,
        CompareOp::GreaterThan => ">"@,
        CompareOp::LessThanEqual => "<="@,
        CompareOp::LessThan => "<"@,
        CompareOp::NotEqual => "<>"@,
        CompareOp::Null => "IS NULL"@,
        CompareOp::NotNull => "IS NOT NULL"@,
        CompareOp::Like => "LIKE"@,
        CompareOp::Regexp => "REGEXP"@,
        CompareOp::Equal => "="@,
    }
}

/// Each comparison compiles to its own SQL operator: `$gte` to `>=`, `$gt` to `>`, `$lte`
/// to `<=`, `$lt` to `<`, `$ne` to `<>`, `$null` to `IS NULL`, `$notnull` to `IS NOT NULL`,
/// `$like` to `LIKE`, `$re` to `REGEXP` and `$eq` to `=`; no two comparisons share one.
pub proof fn lemma_compare_op_sql()
    ensures
        compare_op_sql(CompareOp::GreaterThanEqual) == ">="@,
        compare_op_sql(CompareOp::GreaterThan) == ">"@,
        compare_op_sql(CompareOp::LessThanEqual) == "<="@,
        compare_op_sql(CompareOp::LessThan) == "<"@,
        compare_op_sql(CompareOp::NotEqual) == "<>"@,
        compare_op_sql(CompareOp::Null) == "IS NULL"@,
        compare_op_sql(CompareOp::NotNull) == "IS NOT NULL"@,
        compare_op_sql(CompareOp::Like) == "LIKE"@,
        compare_op_sql(CompareOp::Regexp) == "REGEXP"@,
        compare_op_sql(CompareOp::Equal) == "="@,
        forall|a: CompareOp, b: CompareOp| #[trigger] compare_op_sql(a) == #[trigger] compare_op_sql(b) ==> a == b,
{
    reveal_strlit(">=");
    reveal_strlit(">");
    reveal_strlit("<=");
    reveal_strlit("<");
    reveal_strlit("<>");
    reveal_strlit("IS NULL");
    reveal_strlit("IS NOT NULL");
    reveal_strlit("LIKE");
    reveal_strlit("REGEXP");
    reveal_strlit("=");
    assert forall|a: CompareOp, b: CompareOp| #[trigger] compare_op_sql(a) == #[trigger] compare_op_sql(b) implies a
        == b by {
        let x = compare_op_sql(a);
        let y = compare_op_sql(b);
        assert(x.len() == y.len());
        assert(x[0] == y[0]);
        if x.len() > 1 {
            assert(x[1] == y[1]);
        }
    }
}

/// Operators that take no value.
pub open spec fn is_unary_op(op: CompareOp) -> bool {
    op is Null || op is NotNull
}

impl CompareOp {
    pub fn from(qualifier: &str) -> (r: Option<CompareOp>)
        ensures
            r == compare_op_of(qualifier@),
    {
        let n = qualifier.unicode_len();
        if n > 0 && qualifier.get_char(0) == '$' {
            proof {
                assert(qualifier@.subrange(1, n as int) =~= qualifier@.drop_first());
            }
            op_by_name(qualifier.substring_char(1, n))
        } else {
            op_by_name(qualifier)
        }
    }

    pub fn is_unary(&self) -> (r: bool)
        ensures
            r == is_unary_op(*self),
    {
        match self {
            CompareOp::Null | CompareOp::NotNull => true,
            _ => false,
        }
    }

    pub fn to_sql(self) -> (r: &'static str)
        ensures
            r@ == compare_op_sql(self),
    {
        match self {
            CompareOp::GreaterThanEqual => ">=",
            CompareOp::GreaterThan => ">",
            CompareOp::LessThanEqual => "<=",
            CompareOp::LessThan => "<",
            CompareOp::NotEqual => "<>",
            CompareOp::Null => "IS NULL",
            CompareOp::NotNull => "IS NOT NULL",
            CompareOp::Like => "LIKE",
            CompareOp::Regexp => "REGEXP",
            CompareOp::Equal => "=",
        }
    }
}

/// How the members of a group are combined.
#[derive(Clone, Copy, Debug, PartialEq, Eq)]
pub enum Combiner {
    And,
    Or,
}

pub open spec fn combiner_sep(c: Combiner) -> Seq<char> {
    match c {
        Combiner::And => " AND "@,
        Combiner::Or => " OR "@,
    }
}

/// A filter value. A floating-point number is held as the text it was written in, which
/// `str::parse::<f64>` accepts.
#[derive(Clone, Debug, PartialEq)]
pub enum Value {
    String(String),
    Integer(i64),
    Double(String),
    Bool(bool),
}

pub ghost enum ValueV {
    String(Seq<char>),
    Integer(i64),
    Double(Seq<char>),
    Bool(bool),
}

impl View for Value {
    type V = ValueV;

    open spec fn view(&self) -> ValueV {
        match self {
            Value::String(s) => ValueV::String(s@),
            Value::Integer(i) => ValueV::Integer(*i),
            Value::Double(d) => ValueV::Double(d@),
            Value::Bool(b) => ValueV::Bool(*b),
        }
    }
}

/// The value a query-string text stands for: a boolean literal, then an `i64`, then an
/// `f64`, else the text itself.
pub open spec fn unparsed(s: Seq<char>) -> ValueV {
    if s == "TRUE"@ || s == "true"@ {
        ValueV::Bool(true)
    } else if s == "FALSE"@ || s == "false"@ {
        ValueV::Bool(false)
    } else {
        match parsed_i64(s) {
            Some(i) => ValueV::Integer(i),
            None => if is_float_literal(s) {
                ValueV::Double(s)
            } else {
                ValueV::String(s)
            },
        }
    }
}

impl Value {
    /// Reads a query-string text as a value; `1` and `0` stay integers.
    pub fn unparse(value: String) -> (r: Value)
        ensures
            r@ == unparsed(value@),
    {
        if str_eq(value.as_str(), "TRUE") || str_eq(value.as_str(), "true") {
            return Value::Bool(true);
        }
        if str_eq(value.as_str(), "FALSE") || str_eq(value.as_str(), "false") {
            return Value::Bool(false);
        }
        match parse_i64(value.as_str()) {
            Some(i) => Value::Integer(i),
            None => if is_float(value.as_str()) {
                Value::Double(value)
            } else {
                Value::String(value)
            },
        }
    }
}

/// One filter leaf: `[column][$op]=value`.
#[derive(Clone, Debug, PartialEq)]
pub struct ColumnOpValue {
    pub column: String,
    pub op: CompareOp,
    pub value: Value,
}

/// A filter: a leaf, or a group of filters joined by a combiner.
#[derive(Debug, PartialEq)]
pub enum ValueOrComposite {
    Value(ColumnOpValue),
    Composite(Combiner, Vec<ValueOrComposite>),
}

/// The decimal digit character of `d < 10`.
pub open spec fn digit_char(d: nat) -> char {
    if d == 0 {
        '0'
    } else if d == 1 {
        '1'
    } else if d == 2 {
        '2'
    } else if d == 3 {
        '3'
    } else if d == 4 {
        '4'
    } else if d == 5 {
        '5'
    } else if d == 6 {
        '6'
    } else if d == 7 {
        '7'
    } else if d == 8 {
        '8'
    } else {
        '9'
    }
}

/// Decimal notation of a natural number, without leading zeros.
pub open spec fn decimal(n: nat) -> Seq<char>
    decreases n,
{
    if n < 10 {
        seq![digit_char(n)]
    } else {
        decimal(n / 10).push(digit_char(n % 10))
    }
}

fn digit(d: usize) -> (r: char)
    requires
        d < 10,
    ensures
        r == digit_char(d as nat),
{
    if d == 0 {
        '0'
    } else if d == 1 {
        '1'
    } else if d == 2 {
        '2'
    } else if d == 3 {
        '3'
    } else if d == 4 {
        '4'
    } else if d == 5 {
        '5'
    } else if d == 6 {
        '6'
    } else if d == 7 {
        '7'
    } else if d == 8 {
        '8'
    } else {
        '9'
    }
}

/// Appends the decimal notation of `n`.
pub fn push_decimal(s: &mut String, n: usize)
    ensures
        final(s)@ == old(s)@ + decimal(n as nat),
    decreases n,
{
    if n >= 10 {
        push_decimal(s, n / 10);
    }
    push_char(s, digit(n % 10));
}

/// The name of the `index`-th placeholder.
pub open spec fn param_name_of(index: nat) -> Seq<char> {
    ":__p"@ + decimal(index)
}

/// The name of the `index`-th placeholder: `:__p` and the index in decimal.
pub fn param_name(index: usize) -> (r: String)
    ensures
        r@ == param_name_of(index as nat),
{
    let mut s = String::from_str(":__p");
    push_decimal(&mut s, index);
    s
}

/// A column as it appears in the fragment: quoted, after the table prefix if any.
pub open spec fn column_ref(prefix: Option<Seq<char>>, column: Seq<char>) -> Seq<char> {
    let quoted = seq!['"'] + column + seq!['"'];
    match prefix {
        Some(p) => p + seq!['.'] + quoted,
        None => quoted,
    }
}

/// Fragment and named parameters of one leaf whose placeholder, if it has one, is the
/// `index`-th.
pub open spec fn leaf_sql(v: ColumnOpValue, prefix: Option<Seq<char>>, index: nat) -> (
    Seq<char>,
    Seq<(Seq<char>, Value)>,
) {
    let head = column_ref(prefix, v.column@) + seq![' '] + compare_op_sql(v.op);
    if is_unary_op(v.op) {
        (head, seq![])
    } else {
        (head + seq![' '] + param_name_of(index), seq![(param_name_of(index), v.value)])
    }
}

/// Fragment and named parameters of a filter whose placeholders are numbered from `index`
/// in the order the leaves are visited.
pub open spec fn filter_sql(f: ValueOrComposite, prefix: Option<Seq<char>>, index: nat) -> (
    Seq<char>,
    Seq<(Seq<char>, Value)>,
)
    decreases f,
{
    match f {
        ValueOrComposite::Value(v) => leaf_sql(v, prefix, index),
        ValueOrComposite::Composite(c, vs) => {
            let inner = filters_sql(vs@, prefix, index);
            (seq!['('] + seq_join(inner.0, combiner_sep(c)) + seq![')'], inner.1)
        },
    }
}

/// Fragments and named parameters of a list of filters, numbered from `index` on.
pub open spec fn filters_sql(fs: Seq<ValueOrComposite>, prefix: Option<Seq<char>>, index: nat) -> (
    Seq<Seq<char>>,
    Seq<(Seq<char>, Value)>,
)
    decreases fs,
{
    if fs.len() == 0 {
        (seq![], seq![])
    } else {
        let init = filters_sql(fs.drop_last(), prefix, index);
        let last = filter_sql(fs.last(), prefix, index + init.1.len());
        (init.0.push(last.0), init.1 + last.1)
    }
}

/// The columns of the leaves, in the order they are visited.
pub open spec fn filter_columns(f: ValueOrComposite) -> Seq<Seq<char>>
    decreases f,
{
    match f {
        ValueOrComposite::Value(v) => seq![v.column@],
        ValueOrComposite::Composite(_, vs) => filters_columns(vs@),
    }
}

pub open spec fn filters_columns(fs: Seq<ValueOrComposite>) -> Seq<Seq<char>>
    decreases fs,
{
    if fs.len() == 0 {
        seq![]
    } else {
        filters_columns(fs.drop_last()) + filter_columns(fs.last())
    }
}

pub open spec fn params_view(p: Seq<(String, Value)>) -> Seq<(Seq<char>, Value)> {
    p.map_values(|e: (String, Value)| (e.0@, e.1))
}

pub open spec fn prefix_view(p: Option<&str>) -> Option<Seq<char>> {
    match p {
        Some(s) => Some(s@),
        None => None,
    }
}


/// Whether the validator may answer `Ok` for the column.
pub open spec fn validator_accepts<E, F: Fn(&str) -> Result<(), E>>(
    validator: F,
    column: Seq<char>,
) -> bool {
    exists|s: &str, r: Result<(), E>| s@ == column && r is Ok && call_ensures(validator, (s,), r)
}

/// Whether the validator may answer `Err(e)` for the column.
pub open spec fn validator_rejects<E, F: Fn(&str) -> Result<(), E>>(
    validator: F,
    column: Seq<char>,
    e: E,
) -> bool {
    exists|s: &str| s@ == column && call_ensures(validator, (s,), Err::<(), E>(e))
}

pub open spec fn accepted_all<E, F: Fn(&str) -> Result<(), E>>(
    validator: F,
    cols: Seq<Seq<char>>,
) -> bool {
    forall|i: int| 0 <= i < cols.len() ==> #[trigger] validator_accepts(validator, cols[i])
}

/// The validator accepted the columns in order up to one that it rejected with `e`.
pub open spec fn first_rejected<E, F: Fn(&str) -> Result<(), E>>(
    validator: F,
    cols: Seq<Seq<char>>,
    e: E,
) -> bool {
    exists|i: int|
        0 <= i < cols.len() && accepted_all(validator, cols.take(i)) && #[trigger] validator_rejects(
            validator,
            cols[i],
            e,
        )
}

proof fn lemma_filters_sql_prefix(fs: Seq<ValueOrComposite>, p: Option<Seq<char>>, i: nat, k: int)
    requires
        0 <= k <= fs.len(),
    ensures
        filters_sql(fs.take(k), p, i).1.len() <= filters_sql(fs, p, i).1.len(),
        filters_columns(fs.take(k)).len() <= filters_columns(fs).len(),
        filters_columns(fs).take(filters_columns(fs.take(k)).len() as int) == filters_columns(
            fs.take(k),
        ),
    decreases fs.len() - k,
{
    if k == fs.len() {
        assert(fs.take(k) =~= fs);
        assert(filters_columns(fs).take(filters_columns(fs).len() as int) =~= filters_columns(fs));
    } else {
        lemma_filters_sql_prefix(fs, p, i, k + 1);
        assert(fs.take(k + 1).drop_last() =~= fs.take(k));
        let a = filters_columns(fs.take(k));
        let b = filters_columns(fs.take(k + 1));
        let c = filters_columns(fs);
        assert(b == a + filter_columns(fs.take(k + 1).last()));
        assert(c.take(a.len() as int) =~= b.take(a.len() as int));
        assert(b.take(a.len() as int) =~= a);
    }
}

proof fn lemma_accepted_concat<E, F: Fn(&str) -> Result<(), E>>(
    validator: F,
    a: Seq<Seq<char>>,
    b: Seq<Seq<char>>,
)
    requires
        accepted_all(validator, a),
        accepted_all(validator, b),
    ensures
        accepted_all(validator, a + b),
{
    assert forall|i: int| 0 <= i < (a + b).len() implies #[trigger] validator_accepts(
        validator,
        (a + b)[i],
    ) by {
        if i < a.len() {
            assert((a + b)[i] == a[i]);
            assert(validator_accepts(validator, a[i]));
        } else {
            assert((a + b)[i] == b[i - a.len()]);
            assert(validator_accepts(validator, b[i - a.len()]));
        }
    }
}

proof fn lemma_params_view_concat(a: Seq<(String, Value)>, b: Seq<(String, Value)>)
    ensures
        params_view(a + b) =~= params_view(a) + params_view(b),
{
}

impl ValueOrComposite {
    /// Compiles the filter to a SQL fragment with named placeholders `:__p0`, `:__p1`, ...,
    /// and the values bound to them. Each leaf's column is first handed to `validator`; the
    /// first error it returns is returned.
    pub fn into_sql<E, F: Fn(&str) -> Result<(), E>>(
        self,
        column_prefix: Option<&str>,
        validator: &F,
    ) -> (r: Result<(String, Vec<(String, Value)>), E>)
        requires
            forall|s: &str| call_requires(*validator, (s,)),
            filter_sql(self, prefix_view(column_prefix), 0).1.len() <= usize::MAX,
        ensures
            match r {
                Ok(x) => {
                    &&& x.0@ == filter_sql(self, prefix_view(column_prefix), 0).0
                    &&& params_view(x.1@) == filter_sql(self, prefix_view(column_prefix), 0).1
                    &&& accepted_all(*validator, filter_columns(self))
                },
                Err(e) => first_rejected(*validator, filter_columns(self), e),
            },
    {
        let mut index: usize = 0;
        self.into_sql_impl(column_prefix, validator, &mut index)
    }

    #[verifier::loop_isolation(false)]
    fn into_sql_impl<E, F: Fn(&str) -> Result<(), E>>(
        self,
        column_prefix: Option<&str>,
        validator: &F,
        index: &mut usize,
    ) -> (r: Result<(String, Vec<(String, Value)>), E>)
        requires
            forall|s: &str| call_requires(*validator, (s,)),
            *old(index) + filter_sql(self, prefix_view(column_prefix), *old(index) as nat).1.len()
                <= usize::MAX,
        ensures
            match r {
                Ok(x) => {
                    &&& x.0@ == filter_sql(self, prefix_view(column_prefix), *old(index) as nat).0
                    &&& params_view(x.1@) == filter_sql(
                        self,
                        prefix_view(column_prefix),
                        *old(index) as nat,
                    ).1
                    &&& *final(index) == *old(index) + x.1@.len()
                    &&& accepted_all(*validator, filter_columns(self))
                },
                Err(e) => first_rejected(*validator, filter_columns(self), e),
            },
        decreases self,
    {
        let ghost pv = prefix_view(column_prefix);
        let ghost whole = self;
        match self {
            ValueOrComposite::Value(v) => {
                let ColumnOpValue { column, op, value } = v;
                let cs = column.as_str();
                let checked = validator(cs);
                match checked {
                    Ok(_) => {},
                    Err(e) => {
                        proof {
                            let cols = filter_columns(whole);
                            assert(cols[0] == column@);
                            assert(cs@ == cols[0] && call_ensures(*validator, (cs,), Err::<(), E>(e)));
                            assert(validator_rejects(*validator, cols[0], e));
                            assert(accepted_all(*validator, cols.take(0)));
                        }
                        return Err(e);
                    },
                }
                let mut s = String::new();
                match column_prefix {
                    Some(p) => {
                        s.append(p);
                        push_char(&mut s, '.');
                    },
                    None => {},
                }
                push_char(&mut s, '"');
                s.append(column.as_str());
                push_char(&mut s, '"');
                push_char(&mut s, ' ');
                s.append(op.to_sql());
                proof {
                    let cols = filter_columns(whole);
                    assert(cs@ == cols[0] && checked is Ok && call_ensures(*validator, (cs,), checked));
                    assert(validator_accepts(*validator, cols[0]));
                    assert(accepted_all(*validator, cols));
                    assert(s@ =~= column_ref(pv, column@) + seq![' '] + compare_op_sql(op));
                }
                if op.is_unary() {
                    let params: Vec<(String, Value)> = Vec::new();
                    proof {
                        assert(params_view(params@) =~= seq![]);
                    }
                    Ok((s, params))
                } else {
                    let param = param_name(*index);
                    *index = *index + 1;
                    push_char(&mut s, ' ');
                    s.append(param.as_str());
                    let mut params: Vec<(String, Value)> = Vec::new();
                    let ghost pname = param@;
                    params.push((param, value));
                    proof {
                        assert(params_view(params@) =~= seq![(pname, value)]);
                    }
                    Ok((s, params))
                }
            },
            ValueOrComposite::Composite(combiner, vs) => {
                let ghost orig_vec = vs;
                let ghost orig = vs@;
                let ghost start: nat = *index as nat;
                let mut vs = vs;
                let total = vs.len();
                let mut fragments: Vec<String> = Vec::new();
                let mut params: Vec<(String, Value)> = Vec::new();
                let mut k: usize = 0;
                proof {
                    assert(orig.take(0) =~= Seq::<ValueOrComposite>::empty());
                    assert(views(fragments@) =~= Seq::<Seq<char>>::empty());
                    assert(params_view(params@) =~= Seq::<(Seq<char>, Value)>::empty());
                    assert(orig.skip(0) =~= orig);
                }
                while vs.len() > 0
                    invariant
                        whole == ValueOrComposite::Composite(combiner, orig_vec),
                        orig == orig_vec@,
                        orig.len() == total,
                        pv == prefix_view(column_prefix),
                        forall|s: &str| call_requires(*validator, (s,)),
                        start + filters_sql(orig, pv, start).1.len() <= usize::MAX,
                        k + vs@.len() == orig.len(),
                        vs@ == orig.skip(k as int),
                        views(fragments@) == filters_sql(orig.take(k as int), pv, start).0,
                        params_view(params@) == filters_sql(orig.take(k as int), pv, start).1,
                        *index == start + params@.len(),
                        accepted_all(*validator, filters_columns(orig.take(k as int))),
                    decreases vs.len(),
                {
                    let x = vs.remove(0);
                    let ghost before = *index;
                    proof {
                        assert(x == orig[k as int]);
                        assert(orig.take(k + 1).drop_last() =~= orig.take(k as int));
                        assert(orig.take(k + 1).last() == x);
                        assert(vs@ =~= orig.skip(k + 1));
                        lemma_filters_sql_prefix(orig, pv, start, k + 1);
                        assert(decreases_to!(whole => whole->Composite_1));
                        assert(decreases_to!(orig_vec => orig_vec@[k as int]));
                        assert(decreases_to!(whole => x));
                    }
                    match x.into_sql_impl(column_prefix, validator, index) {
                        Ok(res) => {
                            let (f, p) = res;
                            let mut p = p;
                            proof {
                                lemma_views_push(fragments@, f);
                                lemma_params_view_concat(params@, p@);
                                lemma_accepted_concat(
                                    *validator,
                                    filters_columns(orig.take(k as int)),
                                    filter_columns(x),
                                );
                            }
                            fragments.push(f);
                            params.append(&mut p);
                            k = k + 1;
                        },
                        Err(e) => {
                            proof {
                                let a = filters_columns(orig.take(k as int));
                                let b = filter_columns(x);
                                let whole_cols = filters_columns(orig);
                                assert(filter_columns(whole) == whole_cols);
                                lemma_filters_sql_prefix(orig, pv, start, k + 1);
                                assert(filters_columns(orig.take(k + 1)) == a + b);
                                let i = choose|i: int|
                                    0 <= i < b.len() && accepted_all(*validator, b.take(i))
                                        && #[trigger] validator_rejects(*validator, b[i], e);
                                lemma_accepted_concat(*validator, a, b.take(i));
                                assert(whole_cols.take(a.len() + i) =~= a + b.take(i));
                                assert(whole_cols.take((a + b).len() as int)[a.len() + i] == (a + b)[a.len() + i]);
                                assert((a + b)[a.len() + i] == b[i]);
                                assert(whole_cols[a.len() + i] == b[i]);
                                assert(validator_rejects(*validator, whole_cols[a.len() + i], e));
                            }
                            return Err(e);
                        },
                    }
                }
                let sep: &str = match combiner {
                    Combiner::And => " AND ",
                    Combiner::Or => " OR ",
                };
                let frag_join = join(&fragments, sep);
                let mut s = String::new();
                push_char(&mut s, '(');
                s.append(frag_join.as_str());
                push_char(&mut s, ')');
                proof {
                    assert(orig.take(k as int) =~= orig);
                    assert(sep@ == combiner_sep(combiner));
                    assert(s@ =~= seq!['('] + frag_join@ + seq![')']);
                }
                Ok((s, params))
            },
        }
    }
}


/// Values of the leaves that take a placeholder, in the order the leaves are visited.
pub open spec fn bound_values(f: ValueOrComposite) -> Seq<Value>
    decreases f,
{
    match f {
        ValueOrComposite::Value(v) => if is_unary_op(v.op) {
            seq![]
        } else {
            seq![v.value]
        },
        ValueOrComposite::Composite(_, vs) => bound_values_list(vs@),
    }
}

pub open spec fn bound_values_list(fs: Seq<ValueOrComposite>) -> Seq<Value>
    decreases fs,
{
    if fs.len() == 0 {
        seq![]
    } else {
        bound_values_list(fs.drop_last()) + bound_values(fs.last())
    }
}

/// The values paired with consecutive placeholder names from the `i`-th on.
pub open spec fn numbered(values: Seq<Value>, i: nat) -> Seq<(Seq<char>, Value)> {
    Seq::new(values.len(), |j: int| (param_name_of((i + j) as nat), values[j]))
}

/// The parameters of a compiled filter are the values of its non-unary leaves, in visiting
/// order, bound to consecutively numbered placeholders starting at the `i`-th; the column
/// prefix has no part in them.
pub proof fn lemma_filter_params(f: ValueOrComposite, prefix: Option<Seq<char>>, i: nat)
    ensures
        filter_sql(f, prefix, i).1 == numbered(bound_values(f), i),
    decreases f,
{
    match f {
        ValueOrComposite::Value(v) => {
            assert(filter_sql(f, prefix, i).1 =~= numbered(bound_values(f), i));
        },
        ValueOrComposite::Composite(_, vs) => {
            lemma_filters_params(vs@, prefix, i);
        },
    }
}

/// The list form of `lemma_filter_params`.
pub proof fn lemma_filters_params(fs: Seq<ValueOrComposite>, prefix: Option<Seq<char>>, i: nat)
    ensures
        filters_sql(fs, prefix, i).1 == numbered(bound_values_list(fs), i),
    decreases fs,
{
    if fs.len() == 0 {
        assert(filters_sql(fs, prefix, i).1 =~= numbered(bound_values_list(fs), i));
    } else {
        lemma_filters_params(fs.drop_last(), prefix, i);
        let init = bound_values_list(fs.drop_last());
        lemma_filter_params(fs.last(), prefix, i + init.len());
        let last = bound_values(fs.last());
        assert(numbered(init, i) + numbered(last, i + init.len()) =~= numbered(init + last, i));
    }
}


/// The query-string values that filters are read from: what a nested query string
/// deserializes to. Map entries are in ascending key order; numbers of every width are
/// held in the widest type; `Other` stands for the kinds that no filter accepts (floats,
/// characters, unit, options, newtypes).
#[derive(Debug)]
pub enum QsValue {
    Bool(bool),
    Unsigned(u64),
    Signed(i64),
    String(String),
    Bytes(Vec<u8>),
    Sequence(Vec<QsValue>),
    Mapping(Vec<(QsValue, QsValue)>),
    Other,
}

/// Why a filter could not be read.
#[derive(Clone, Debug, PartialEq, Eq)]
pub enum FilterError {
    /// Groups nested five deep or more.
    RecursionLimit,
    /// A value of the wrong kind at some place.
    InvalidType,
    /// A `$and` / `$or` group with this many members, fewer than two.
    InvalidLength(usize),
    /// A column name with characters outside `[[:alnum:]._-]`, e.g. when nesting ran
    /// deeper than the query-string parser allows.
    InvalidColumnName(String),
    /// An operator key that is not one of `$eq`, `$ne`, ...
    InvalidOperator,
}

pub ghost enum FilterErrorV {
    RecursionLimit,
    InvalidType,
    InvalidLength(usize),
    InvalidColumnName(Seq<char>),
    InvalidOperator,
}

impl View for FilterError {
    type V = FilterErrorV;

    open spec fn view(&self) -> FilterErrorV {
        match self {
            FilterError::RecursionLimit => FilterErrorV::RecursionLimit,
            FilterError::InvalidType => FilterErrorV::InvalidType,
            FilterError::InvalidLength(n) => FilterErrorV::InvalidLength(*n),
            FilterError::InvalidColumnName(s) => FilterErrorV::InvalidColumnName(s@),
            FilterError::InvalidOperator => FilterErrorV::InvalidOperator,
        }
    }
}

/// Abstract filter: leaves of column, operator and value, and groups.
pub ghost enum FilterV {
    Leaf(Seq<char>, CompareOp, ValueV),
    Group(Combiner, Seq<FilterV>),
}

pub open spec fn filter_view(f: ValueOrComposite) -> FilterV
    decreases f,
{
    match f {
        ValueOrComposite::Value(v) => FilterV::Leaf(v.column@, v.op, v.value@),
        ValueOrComposite::Composite(c, vs) => FilterV::Group(c, filters_view(vs@)),
    }
}

pub open spec fn filters_view(fs: Seq<ValueOrComposite>) -> Seq<FilterV>
    decreases fs,
{
    if fs.len() == 0 {
        seq![]
    } else {
        filters_view(fs.drop_last()).push(filter_view(fs.last()))
    }
}

/// Whether every character of a column name is alphanumeric or one of `.`, `-`, `_`.
pub fn sanitize_column_name(name: &str) -> (r: bool)
    ensures
        r == is_column_name(name@),
{
    let n = name.unicode_len();
    let mut i: usize = 0;
    while i < n
        invariant
            n == name@.len(),
            i <= n,
            forall|j: int| 0 <= j < i ==> is_column_name_char(#[trigger] name@[j]),
        decreases n - i,
    {
        let c = name.get_char(i);
        if !(char_is_alphanumeric(c) || c == '.' || c == '-' || c == '_') {
            return false;
        }
        i += 1;
    }
    true
}

/// A boolean literal of the query string.
pub open spec fn bool_literal(s: Seq<char>) -> Option<bool> {
    if s == "TRUE"@ || s == "true"@ {
        Some(true)
    } else if s == "FALSE"@ || s == "false"@ {
        Some(false)
    } else {
        None
    }
}

/// Reads `TRUE` / `true` and `FALSE` / `false`.
pub fn parse_bool(s: &str) -> (r: Option<bool>)
    ensures
        r == bool_literal(s@),
{
    if str_eq(s, "TRUE") || str_eq(s, "true") {
        Some(true)
    } else if str_eq(s, "FALSE") || str_eq(s, "false") {
        Some(false)
    } else {
        None
    }
}

/// A boolean parameter: a boolean literal text or a boolean.
pub open spec fn bool_param(v: QsValue) -> Result<bool, FilterErrorV> {
    match v {
        QsValue::String(s) => match bool_literal(s@) {
            Some(b) => Ok(b),
            None => Err(FilterErrorV::InvalidType),
        },
        QsValue::Bool(b) => Ok(b),
        _ => Err(FilterErrorV::InvalidType),
    }
}

/// Reads a boolean parameter.
pub fn deserialize_bool(value: QsValue) -> (r: Result<bool, FilterError>)
    ensures
        match r {
            Ok(b) => bool_param(value) == Ok::<bool, FilterErrorV>(b),
            Err(e) => bool_param(value) == Err::<bool, FilterErrorV>(e@),
        },
{
    match value {
        QsValue::String(s) => match parse_bool(s.as_str()) {
            Some(b) => Ok(b),
            None => Err(FilterError::InvalidType),
        },
        QsValue::Bool(b) => Ok(b),
        _ => Err(FilterError::InvalidType),
    }
}

/// The filter value a query-string value stands for.
pub open spec fn value_of(v: QsValue) -> Result<ValueV, FilterErrorV> {
    match v {
        QsValue::String(s) => Ok(unparsed(s@)),
        QsValue::Bytes(b) => Ok(ValueV::String(base64_url_encoded(b@))),
        QsValue::Signed(i) => Ok(ValueV::Integer(i)),
        QsValue::Unsigned(u) => Ok(ValueV::Integer(u as i64)),
        QsValue::Bool(b) => Ok(ValueV::Bool(b)),
        _ => Err(FilterErrorV::InvalidType),
    }
}

/// Reads a filter value; bytes become their url-safe base64 text, unsigned numbers are
/// reinterpreted as `i64`.
pub fn serde_value_to_value(value: QsValue) -> (r: Result<Value, FilterError>)
    ensures
        match r {
            Ok(x) => value_of(value) == Ok::<ValueV, FilterErrorV>(x@),
            Err(e) => value_of(value) == Err::<ValueV, FilterErrorV>(e@),
        },
{
    match value {
        QsValue::String(s) => Ok(Value::unparse(s)),
        QsValue::Bytes(b) => Ok(Value::String(base64_url_encode(b.as_slice()))),
        QsValue::Signed(i) => Ok(Value::Integer(i)),
        QsValue::Unsigned(u) => Ok(Value::Integer(u as i64)),
        QsValue::Bool(b) => Ok(Value::Bool(b)),
        _ => Err(FilterError::InvalidType),
    }
}

/// The operator that an operator key names.
pub open spec fn op_key(k: QsValue) -> Option<CompareOp> {
    match k {
        QsValue::String(s) => compare_op_of(s@),
        _ => None,
    }
}

/// One leaf `[column]=value` or `[column][$op]=value`.
pub open spec fn leaf_of(key: Seq<char>, v: QsValue) -> Result<FilterV, FilterErrorV> {
    if !is_column_name(key) {
        Err(FilterErrorV::InvalidColumnName(key))
    } else {
        match v {
            QsValue::String(_) => match value_of(v) {
                Ok(x) => Ok(FilterV::Leaf(key, CompareOp::Equal, x)),
                Err(e) => Err(e),
            },
            QsValue::Mapping(m) => if m@.len() == 1 {
                match op_key(m@[0].0) {
                    Some(op) => match value_of(m@[0].1) {
                        Ok(x) => Ok(FilterV::Leaf(key, op, x)),
                        Err(e) => Err(e),
                    },
                    None => Err(FilterErrorV::InvalidOperator),
                }
            } else {
                Err(FilterErrorV::InvalidType)
            },
            _ => Err(FilterErrorV::InvalidType),
        }
    }
}

/// Reads one leaf.
pub fn serde_value_to_single_column_rel_value(key: String, value: QsValue) -> (r: Result<
    ColumnOpValue,
    FilterError,
>)
    ensures
        match r {
            Ok(x) => leaf_of(key@, value) == Ok::<FilterV, FilterErrorV>(
                filter_view(ValueOrComposite::Value(x)),
            ),
            Err(e) => leaf_of(key@, value) == Err::<FilterV, FilterErrorV>(e@),
        },
{
    if !sanitize_column_name(key.as_str()) {
        return Err(FilterError::InvalidColumnName(key));
    }
    match value {
        QsValue::String(s) => {
            match serde_value_to_value(QsValue::String(s)) {
                Ok(x) => Ok(ColumnOpValue { column: key, op: CompareOp::Equal, value: x }),
                Err(e) => Err(e),
            }
        },
        QsValue::Mapping(m) => {
            if m.len() != 1 {
                return Err(FilterError::InvalidType);
            }
            let mut m = m;
            let ghost m0 = m@;
            let (k, v) = m.pop().unwrap();
            proof {
                assert(m0[0] == (k, v));
            }
            let op = match k {
                QsValue::String(ks) => CompareOp::from(ks.as_str()),
                _ => None,
            };
            match op {
                Some(op) => match serde_value_to_value(v) {
                    Ok(x) => Ok(ColumnOpValue { column: key, op, value: x }),
                    Err(e) => Err(e),
                },
                None => Err(FilterError::InvalidOperator),
            }
        },
        _ => Err(FilterError::InvalidType),
    }
}


/// A filter read from a query-string value at nesting depth `depth`: a map of one entry is a
/// leaf or a `$and` / `$or` group, a map of several entries an implicit `$and` of them, and
/// an empty map the empty `$and`. Depth five or more is refused.
pub open spec fn filter_of(v: QsValue, depth: nat) -> Result<FilterV, FilterErrorV>
    decreases 5 - depth, 3int, 0int,
{
    if depth >= 5 {
        Err(FilterErrorV::RecursionLimit)
    } else {
        match v {
            QsValue::Mapping(m) => if m@.len() == 0 {
                Ok(FilterV::Group(Combiner::And, seq![]))
            } else if m@.len() > 1 {
                match filter_entries_of(m@, depth) {
                    Ok(fs) => Ok(FilterV::Group(Combiner::And, fs)),
                    Err(e) => Err(e),
                }
            } else {
                filter_single_of(m@[0], depth)
            },
            _ => Err(FilterErrorV::InvalidType),
        }
    }
}

/// The members of an implicit `$and`, each entry read in key order; the first error wins.
pub open spec fn filter_entries_of(es: Seq<(QsValue, QsValue)>, depth: nat) -> Result<
    Seq<FilterV>,
    FilterErrorV,
>
    decreases 5 - depth, 2int, es.len(),
{
    if es.len() == 0 {
        Ok(seq![])
    } else {
        match filter_entries_of(es.drop_last(), depth) {
            Err(e) => Err(e),
            Ok(fs) => match filter_entry_of(es.last(), depth) {
                Ok(f) => Ok(fs.push(f)),
                Err(e) => Err(e),
            },
        }
    }
}

/// One entry of a map of several: a `$and` / `$or` entry is read as a map of its own one
/// level deeper, any other key as a leaf.
pub open spec fn filter_entry_of(e: (QsValue, QsValue), depth: nat) -> Result<FilterV, FilterErrorV>
    decreases 5 - depth, 1int, 0int,
{
    match e.0 {
        QsValue::String(key) => if key@ == "$and"@ || key@ == "$or"@ {
            if depth + 1 >= 5 {
                Err(FilterErrorV::RecursionLimit)
            } else {
                filter_single_of(e, depth + 1)
            }
        } else {
            leaf_of(key@, e.1)
        },
        _ => Err(FilterErrorV::InvalidType),
    }
}

/// The only entry of a map: a group or a leaf.
pub open spec fn filter_single_of(e: (QsValue, QsValue), depth: nat) -> Result<FilterV, FilterErrorV>
    decreases 5 - depth, 2int, 0int,
{
    match e.0 {
        QsValue::String(key) => if key@ == "$and"@ {
            filter_group_of(Combiner::And, e.1, depth)
        } else if key@ == "$or"@ {
            filter_group_of(Combiner::Or, e.1, depth)
        } else {
            leaf_of(key@, e.1)
        },
        _ => Err(FilterErrorV::InvalidType),
    }
}

/// A `$and` / `$or` group: a sequence of two or more filters one level deeper.
pub open spec fn filter_group_of(c: Combiner, v: QsValue, depth: nat) -> Result<FilterV, FilterErrorV>
    decreases 5 - depth, 1int, 0int,
{
    match v {
        QsValue::Sequence(items) => if items@.len() < 2 {
            Err(FilterErrorV::InvalidLength(items@.len() as usize))
        } else {
            match filter_items_of(items@, depth + 1) {
                Ok(fs) => Ok(FilterV::Group(c, fs)),
                Err(e) => Err(e),
            }
        },
        _ => Err(FilterErrorV::InvalidType),
    }
}

/// The members of a group, read in order; the first error wins.
pub open spec fn filter_items_of(items: Seq<QsValue>, depth: nat) -> Result<Seq<FilterV>, FilterErrorV>
    decreases 6 - depth, 0int, items.len(),
{
    if items.len() == 0 {
        Ok(seq![])
    } else if depth >= 5 {
        Err(FilterErrorV::RecursionLimit)
    } else {
        match filter_items_of(items.drop_last(), depth) {
            Err(e) => Err(e),
            Ok(fs) => match filter_of(items.last(), depth) {
                Ok(f) => Ok(fs.push(f)),
                Err(e) => Err(e),
            },
        }
    }
}

proof fn lemma_items_error(items: Seq<QsValue>, depth: nat, k: int, e: FilterErrorV)
    requires
        0 <= k <= items.len(),
        filter_items_of(items.take(k), depth) == Err::<Seq<FilterV>, FilterErrorV>(e),
    ensures
        filter_items_of(items, depth) == Err::<Seq<FilterV>, FilterErrorV>(e),
    decreases items.len() - k,
{
    if k == items.len() {
        assert(items.take(k) =~= items);
    } else {
        assert(items.take(k + 1).drop_last() =~= items.take(k));
        lemma_items_error(items, depth, k + 1, e);
    }
}

proof fn lemma_entries_error(es: Seq<(QsValue, QsValue)>, depth: nat, k: int, e: FilterErrorV)
    requires
        0 <= k <= es.len(),
        filter_entries_of(es.take(k), depth) == Err::<Seq<FilterV>, FilterErrorV>(e),
    ensures
        filter_entries_of(es, depth) == Err::<Seq<FilterV>, FilterErrorV>(e),
    decreases es.len() - k,
{
    if k == es.len() {
        assert(es.take(k) =~= es);
    } else {
        assert(es.take(k + 1).drop_last() =~= es.take(k));
        lemma_entries_error(es, depth, k + 1, e);
    }
}

proof fn lemma_filters_view_push(fs: Seq<ValueOrComposite>, x: ValueOrComposite)
    ensures
        filters_view(fs.push(x)) == filters_view(fs).push(filter_view(x)),
{
    assert(fs.push(x).drop_last() =~= fs);
}

/// Reads a filter from a query-string value at nesting depth `depth` (see `filter_of`).
#[verifier::loop_isolation(false)]
pub fn serde_value_to_value_or_composite(value: QsValue, depth: usize) -> (r: Result<
    ValueOrComposite,
    FilterError,
>)
    ensures
        match r {
            Ok(x) => filter_of(value, depth as nat) == Ok::<FilterV, FilterErrorV>(filter_view(x)),
            Err(e) => filter_of(value, depth as nat) == Err::<FilterV, FilterErrorV>(e@),
        },
    decreases 5 - depth, 3int, 0int,
{
    if depth >= 5 {
        return Err(FilterError::RecursionLimit);
    }
    let m = match value {
        QsValue::Mapping(m) => m,
        _ => {
            return Err(FilterError::InvalidType);
        },
    };
    if m.len() == 0 {
        let empty: Vec<ValueOrComposite> = Vec::new();
        proof {
            assert(filters_view(empty@) =~= Seq::<FilterV>::empty());
        }
        return Ok(ValueOrComposite::Composite(Combiner::And, empty));
    }
    if m.len() == 1 {
        let mut m = m;
        let ghost m0 = m@;
        let (k, v) = m.pop().unwrap();
        proof {
            assert(m0[0] == (k, v));
        }
        return single_entry_to_filter(k, v, depth);
    }
    let ghost orig = m@;
    let total = m.len();
    let mut m = m;
    let mut out: Vec<ValueOrComposite> = Vec::new();
    let mut i: usize = 0;
    proof {
        assert(orig.take(0) =~= Seq::<(QsValue, QsValue)>::empty());
        assert(filters_view(out@) =~= Seq::<FilterV>::empty());
        assert(orig.skip(0) =~= orig);
    }
    while m.len() > 0
        invariant
            depth < 5,
            orig.len() == total,
            i + m@.len() == total,
            m@ == orig.skip(i as int),
            filter_entries_of(orig.take(i as int), depth as nat) == Ok::<Seq<FilterV>, FilterErrorV>(
                filters_view(out@),
            ),
            filter_of(value, depth as nat) == (match filter_entries_of(orig, depth as nat) {
                Ok(fs) => Ok(FilterV::Group(Combiner::And, fs)),
                Err(e) => Err(e),
            }),
        decreases m.len(),
    {
        let (k, v) = m.remove(0);
        proof {
            assert((k, v) == orig[i as int]);
            assert(orig.take(i + 1).drop_last() =~= orig.take(i as int));
            assert(orig.take(i + 1).last() == (k, v));
            assert(m@ =~= orig.skip(i + 1));
        }
        match entry_to_filter(k, v, depth) {
            Ok(f) => {
                proof {
                    lemma_filters_view_push(out@, f);
                }
                out.push(f);
                i = i + 1;
            },
            Err(e) => {
                proof {
                    lemma_entries_error(orig, depth as nat, i + 1, e@);
                }
                return Err(e);
            },
        }
    }
    proof {
        assert(orig.take(i as int) =~= orig);
    }
    Ok(ValueOrComposite::Composite(Combiner::And, out))
}

fn entry_to_filter(key: QsValue, value: QsValue, depth: usize) -> (r: Result<
    ValueOrComposite,
    FilterError,
>)
    requires
        depth < 5,
    ensures
        match r {
            Ok(x) => filter_entry_of((key, value), depth as nat) == Ok::<FilterV, FilterErrorV>(
                filter_view(x),
            ),
            Err(e) => filter_entry_of((key, value), depth as nat) == Err::<FilterV, FilterErrorV>(
                e@,
            ),
        },
    decreases 5 - depth, 1int, 0int,
{
    let ghost e = (key, value);
    match key {
        QsValue::String(k) => {
            if str_eq(k.as_str(), "$and") || str_eq(k.as_str(), "$or") {
                if depth + 1 >= 5 {
                    return Err(FilterError::RecursionLimit);
                }
                single_entry_to_filter(QsValue::String(k), value, depth + 1)
            } else {
                match serde_value_to_single_column_rel_value(k, value) {
                    Ok(x) => Ok(ValueOrComposite::Value(x)),
                    Err(e) => Err(e),
                }
            }
        },
        _ => Err(FilterError::InvalidType),
    }
}

fn single_entry_to_filter(key: QsValue, value: QsValue, depth: usize) -> (r: Result<
    ValueOrComposite,
    FilterError,
>)
    requires
        depth < 5,
    ensures
        match r {
            Ok(x) => filter_single_of((key, value), depth as nat) == Ok::<FilterV, FilterErrorV>(
                filter_view(x),
            ),
            Err(e) => filter_single_of((key, value), depth as nat) == Err::<FilterV, FilterErrorV>(
                e@,
            ),
        },
    decreases 5 - depth, 2int, 0int,
{
    match key {
        QsValue::String(k) => {
            if str_eq(k.as_str(), "$and") {
                combine(Combiner::And, value, depth)
            } else if str_eq(k.as_str(), "$or") {
                combine(Combiner::Or, value, depth)
            } else {
                match serde_value_to_single_column_rel_value(k, value) {
                    Ok(x) => Ok(ValueOrComposite::Value(x)),
                    Err(e) => Err(e),
                }
            }
        },
        _ => Err(FilterError::InvalidType),
    }
}

#[verifier::loop_isolation(false)]
fn combine(combiner: Combiner, value: QsValue, depth: usize) -> (r: Result<
    ValueOrComposite,
    FilterError,
>)
    requires
        depth < 5,
    ensures
        match r {
            Ok(x) => filter_group_of(combiner, value, depth as nat) == Ok::<FilterV, FilterErrorV>(
                filter_view(x),
            ),
            Err(e) => filter_group_of(combiner, value, depth as nat) == Err::<
                FilterV,
                FilterErrorV,
            >(e@),
        },
    decreases 5 - depth, 1int, 0int,
{
    let ghost whole = value;
    let items = match value {
        QsValue::Sequence(items) => items,
        _ => {
            return Err(FilterError::InvalidType);
        },
    };
    if items.len() < 2 {
        return Err(FilterError::InvalidLength(items.len()));
    }
    let ghost orig = items@;
    let total = items.len();
    let mut items = items;
    let mut out: Vec<ValueOrComposite> = Vec::new();
    let mut i: usize = 0;
    proof {
        assert(orig.take(0) =~= Seq::<QsValue>::empty());
        assert(filters_view(out@) =~= Seq::<FilterV>::empty());
        assert(orig.skip(0) =~= orig);
    }
    while items.len() > 0
        invariant
            depth < 5,
            orig.len() == total,
            i + items@.len() == total,
            items@ == orig.skip(i as int),
            filter_items_of(orig.take(i as int), (depth + 1) as nat) == Ok::<Seq<FilterV>, FilterErrorV>(
                filters_view(out@),
            ),
            filter_group_of(combiner, whole, depth as nat) == (match filter_items_of(
                orig,
                (depth + 1) as nat,
            ) {
                Ok(fs) => Ok(FilterV::Group(combiner, fs)),
                Err(e) => Err(e),
            }),
        decreases items.len(),
    {
        let x = items.remove(0);
        proof {
            assert(x == orig[i as int]);
            assert(orig.take(i + 1).drop_last() =~= orig.take(i as int));
            assert(orig.take(i + 1).last() == x);
            assert(items@ =~= orig.skip(i + 1));
        }
        match serde_value_to_value_or_composite(x, depth + 1) {
            Ok(f) => {
                proof {
                    lemma_filters_view_push(out@, f);
                }
                out.push(f);
                i = i + 1;
            },
            Err(e) => {
                proof {
                    assert(filter_of(x, (depth + 1) as nat) == Err::<FilterV, FilterErrorV>(e@));
                    assert(filter_items_of(orig.take(i + 1), (depth + 1) as nat) == Err::<
                        Seq<FilterV>,
                        FilterErrorV,
                    >(e@));
                    lemma_items_error(orig, (depth + 1) as nat, i + 1, e@);
                    assert(filter_items_of(orig, (depth + 1) as nat) == Err::<
                        Seq<FilterV>,
                        FilterErrorV,
                    >(e@));
                }
                return Err(e);
            },
        }
    }
    proof {
        assert(orig.take(i as int) =~= orig);
    }
    Ok(ValueOrComposite::Composite(combiner, out))
}


/// Whether `c` has the Unicode `White_Space` property, which `char::is_whitespace` tests:
/// U+0009 to U+000D, U+0020, U+0085, U+00A0, U+1680, U+2000 to U+200A, U+2028, U+2029,
/// U+202F, U+205F and U+3000.
pub open spec fn is_whitespace(c: char) -> bool {
    let n = c as u32;
    (0x9 <= n && n <= 0xd) || n == 0x20 || n == 0x85 || n == 0xa0 || n == 0x1680 || (0x2000 <= n
        && n <= 0x200a) || n == 0x2028 || n == 0x2029 || n == 0x202f || n == 0x205f || n == 0x3000
}

/// Whether `c` is white space, as `char::is_whitespace` decides.
fn char_is_whitespace(c: char) -> (r: bool)
    ensures
        r == is_whitespace(c),
{
    let n = c as u32;
    (0x9 <= n && n <= 0xd) || n == 0x20 || n == 0x85 || n == 0xa0 || n == 0x1680 || (0x2000 <= n
        && n <= 0x200a) || n == 0x2028 || n == 0x2029 || n == 0x202f || n == 0x205f || n == 0x3000
}

/// `s` without leading white space.
pub open spec fn trim_start(s: Seq<char>) -> Seq<char>
    decreases s.len(),
{
    if s.len() > 0 && is_whitespace(s[0]) {
        trim_start(s.drop_first())
    } else {
        s
    }
}

/// `s` without trailing white space.
pub open spec fn trim_end(s: Seq<char>) -> Seq<char>
    decreases s.len(),
{
    if s.len() > 0 && is_whitespace(s.last()) {
        trim_end(s.drop_last())
    } else {
        s
    }
}

/// What `str::trim` leaves of `s`.
pub open spec fn trimmed(s: Seq<char>) -> Seq<char> {
    trim_end(trim_start(s))
}

proof fn lemma_trim_start(s: Seq<char>, i: int)
    requires
        0 <= i <= s.len(),
        forall|j: int| 0 <= j < i ==> is_whitespace(#[trigger] s[j]),
        i == s.len() || !is_whitespace(s[i]),
    ensures
        trim_start(s) == s.skip(i),
    decreases i,
{
    if i == 0 {
        assert(s.skip(0) =~= s);
    } else {
        assert forall|j: int| 0 <= j < i - 1 implies is_whitespace(#[trigger] s.drop_first()[j]) by {
            assert(s.drop_first()[j] == s[j + 1]);
        }
        lemma_trim_start(s.drop_first(), i - 1);
        assert(s.drop_first().skip(i - 1) =~= s.skip(i));
    }
}

proof fn lemma_trim_end(s: Seq<char>, k: int)
    requires
        0 <= k <= s.len(),
        forall|j: int| k <= j < s.len() ==> is_whitespace(#[trigger] s[j]),
        k == 0 || !is_whitespace(s[k - 1]),
    ensures
        trim_end(s) == s.take(k),
    decreases s.len() - k,
{
    if k == s.len() {
        assert(s.take(k) =~= s);
    } else {
        assert forall|j: int| k <= j < s.len() - 1 implies is_whitespace(#[trigger] s.drop_last()[j]) by {
            assert(s.drop_last()[j] == s[j]);
        }
        lemma_trim_end(s.drop_last(), k);
        assert(s.drop_last().take(k) =~= s.take(k));
    }
}

/// `str::trim`: the text without leading and trailing white space.
pub fn trim(s: &str) -> (r: String)
    ensures
        r@ == trimmed(s@),
{
    let n = s.unicode_len();
    let mut i: usize = 0;
    while i < n && char_is_whitespace(s.get_char(i))
        invariant
            n == s@.len(),
            i <= n,
            forall|j: int| 0 <= j < i ==> is_whitespace(#[trigger] s@[j]),
        decreases n - i,
    {
        i += 1;
    }
    proof {
        lemma_trim_start(s@, i as int);
    }
    let mut k: usize = n;
    while k > i && char_is_whitespace(s.get_char(k - 1))
        invariant
            n == s@.len(),
            i <= k <= n,
            forall|j: int| k <= j < n ==> is_whitespace(#[trigger] s@[j]),
        decreases k,
    {
        k -= 1;
    }
    proof {
        let t = s@.skip(i as int);
        assert forall|j: int| k - i <= j < t.len() implies is_whitespace(#[trigger] t[j]) by {
            assert(t[j] == s@[j + i]);
        }
        if k > i {
            assert(t[k - i - 1] == s@[k - 1]);
        }
        lemma_trim_end(t, k - i);
        assert(t.take(k - i) =~= s@.subrange(i as int, k as int));
    }
    String::from_str(s.substring_char(i, k))
}

/// The 16 bytes of the UUID that `uuid::Uuid::parse_str` reads from the text (hyphenated,
/// simple, braced or URN form), or `None` when it refuses the text.
pub uninterp spec fn uuid_parsed(s: Seq<char>) -> Option<Seq<u8>>;

/// `uuid::Uuid::parse_str`: the UUID's bytes, 16 of them, or `None` on an error.
#[verifier::external_body]
pub(crate) fn parse_uuid(s: &str) -> (r: Option<Vec<u8>>)
    ensures
        r is Some <==> uuid_parsed(s@) is Some,
        r matches Some(v) ==> uuid_parsed(s@) == Some(v@) && v@.len() == 16,
{
    match uuid::Uuid::parse_str(s) {
        Ok(u) => Some(u.as_bytes().to_vec()),
        Err(_) => None,
    }
}

/// A pagination cursor: bytes, or an integer.
#[derive(Clone, Debug, PartialEq, Eq)]
pub enum Cursor {
    Blob(Vec<u8>),
    Integer(i64),
}

pub ghost enum CursorV {
    Blob(Seq<u8>),
    Integer(i64),
}

impl View for Cursor {
    type V = CursorV;

    open spec fn view(&self) -> CursorV {
        match self {
            Cursor::Blob(b) => CursorV::Blob(b@),
            Cursor::Integer(i) => CursorV::Integer(*i),
        }
    }
}

/// A cursor text: a UUID, else url-safe base64 bytes, else an integer.
pub open spec fn cursor_of(v: QsValue) -> Result<CursorV, FilterErrorV> {
    match v {
        QsValue::String(s) => match uuid_parsed(s@) {
            Some(b) => Ok(CursorV::Blob(b)),
            None => match base64_url_decoded(s@) {
                Some(b) => Ok(CursorV::Blob(b)),
                None => match parsed_i64(s@) {
                    Some(i) => Ok(CursorV::Integer(i)),
                    None => Err(FilterErrorV::InvalidType),
                },
            },
        },
        _ => Err(FilterErrorV::InvalidType),
    }
}

impl Cursor {
    /// Reads a cursor parameter.
    pub fn parse(value: QsValue) -> (r: Result<Cursor, FilterError>)
        ensures
            match r {
                Ok(c) => cursor_of(value) == Ok::<CursorV, FilterErrorV>(c@),
                Err(e) => cursor_of(value) == Err::<CursorV, FilterErrorV>(e@),
            },
    {
        match value {
            QsValue::String(s) => {
                if let Some(b) = parse_uuid(s.as_str()) {
                    return Ok(Cursor::Blob(b));
                }
                if let Some(b) = base64_url_decode(s.as_str()) {
                    return Ok(Cursor::Blob(b));
                }
                match parse_i64(s.as_str()) {
                    Some(i) => Ok(Cursor::Integer(i)),
                    None => Err(FilterError::InvalidType),
                }
            },
            _ => Err(FilterError::InvalidType),
        }
    }
}

/// Direction of one ordering column.
#[derive(Clone, Copy, Debug, PartialEq, Eq)]
pub enum OrderPrecedent {
    Ascending,
    Descending,
}

/// Ordering columns, e.g. `order=-col0,+col1,col2`.
#[derive(Clone, Debug, PartialEq)]
pub struct Order {
    pub columns: Vec<(String, OrderPrecedent)>,
}

/// At most this many columns may be given to order by or to expand.
pub const MAX_COLUMNS: usize = 5;

/// One `order` item: after trimming, a leading `-` sorts descending and a leading `+` or
/// none ascending; a sign is cut off the untrimmed item.
pub open spec fn order_item_of(v: Seq<char>) -> (Seq<char>, OrderPrecedent) {
    let t = trimmed(v);
    if t.len() > 0 && t[0] == '-' {
        (v.skip(1), OrderPrecedent::Descending)
    } else if t.len() > 0 && t[0] == '+' {
        (v.skip(1), OrderPrecedent::Ascending)
    } else {
        (t, OrderPrecedent::Ascending)
    }
}

/// Cutting the first byte off an item whose trimmed form starts with a sign stays on a
/// character boundary.
pub open spec fn order_item_sliceable(v: Seq<char>) -> bool {
    let t = trimmed(v);
    (t.len() > 0 && (t[0] == '-' || t[0] == '+')) ==> (v[0] as u32) < 128
}

/// The ordering columns of the items in order; the first bad column name wins.
pub open spec fn order_items_of(items: Seq<Seq<char>>) -> Result<
    Seq<(Seq<char>, OrderPrecedent)>,
    FilterErrorV,
>
    decreases items.len(),
{
    if items.len() == 0 {
        Ok(seq![])
    } else {
        match order_items_of(items.drop_last()) {
            Err(e) => Err(e),
            Ok(cs) => {
                let c = order_item_of(items.last());
                if is_column_name(c.0) {
                    Ok(cs.push(c))
                } else {
                    Err(FilterErrorV::InvalidColumnName(c.0))
                }
            },
        }
    }
}

/// An `order` parameter: comma separated items of at most five columns.
pub open spec fn order_of(v: QsValue) -> Result<Seq<(Seq<char>, OrderPrecedent)>, FilterErrorV> {
    match v {
        QsValue::String(s) => match order_items_of(split_on(s@, ',')) {
            Ok(cs) => if cs.len() > MAX_COLUMNS {
                Err(FilterErrorV::InvalidLength(MAX_COLUMNS))
            } else {
                Ok(cs)
            },
            Err(e) => Err(e),
        },
        _ => Err(FilterErrorV::InvalidType),
    }
}

pub open spec fn order_columns_view(cs: Seq<(String, OrderPrecedent)>) -> Seq<(Seq<char>, OrderPrecedent)> {
    cs.map_values(|c: (String, OrderPrecedent)| (c.0@, c.1))
}

proof fn lemma_order_items_error(items: Seq<Seq<char>>, k: int, e: FilterErrorV)
    requires
        0 <= k <= items.len(),
        order_items_of(items.take(k)) == Err::<Seq<(Seq<char>, OrderPrecedent)>, FilterErrorV>(e),
    ensures
        order_items_of(items) == Err::<Seq<(Seq<char>, OrderPrecedent)>, FilterErrorV>(e),
    decreases items.len() - k,
{
    if k == items.len() {
        assert(items.take(k) =~= items);
    } else {
        assert(items.take(k + 1).drop_last() =~= items.take(k));
        lemma_order_items_error(items, k + 1, e);
    }
}

fn order_item(v: &str) -> (r: (String, OrderPrecedent))
    requires
        order_item_sliceable(v@),
    ensures
        (r.0@, r.1) == order_item_of(v@),
{
    let t = trim(v);
    let tn = t.as_str().unicode_len();
    if tn > 0 && t.as_str().get_char(0) == '-' {
        (String::from_str(v.substring_char(1, v.unicode_len())), OrderPrecedent::Descending)
    } else if tn > 0 && t.as_str().get_char(0) == '+' {
        (String::from_str(v.substring_char(1, v.unicode_len())), OrderPrecedent::Ascending)
    } else {
        (t, OrderPrecedent::Ascending)
    }
}

impl Order {
    /// Reads an `order` parameter.
    #[verifier::loop_isolation(false)]
    pub fn parse(value: QsValue) -> (r: Result<Order, FilterError>)
        requires
            value matches QsValue::String(s) ==> forall|i: int|
                0 <= i < split_on(s@, ',').len() ==> order_item_sliceable(
                    #[trigger] split_on(s@, ',')[i],
                ),
        ensures
            match r {
                Ok(o) => order_of(value) == Ok::<Seq<(Seq<char>, OrderPrecedent)>, FilterErrorV>(
                    order_columns_view(o.columns@),
                ),
                Err(e) => order_of(value) == Err::<Seq<(Seq<char>, OrderPrecedent)>, FilterErrorV>(
                    e@,
                ),
            },
    {
        let s = match value {
            QsValue::String(s) => s,
            _ => {
                return Err(FilterError::InvalidType);
            },
        };
        let items = split(s.as_str(), ',');
        let ghost iv = views(items@);
        let mut columns: Vec<(String, OrderPrecedent)> = Vec::new();
        let mut i: usize = 0;
        proof {
            assert(iv.take(0) =~= Seq::<Seq<char>>::empty());
            assert(order_columns_view(columns@) =~= Seq::<(Seq<char>, OrderPrecedent)>::empty());
        }
        while i < items.len()
            invariant
                iv == views(items@),
                iv == split_on(s@, ','),
                i <= items.len(),
                forall|j: int| 0 <= j < iv.len() ==> order_item_sliceable(#[trigger] iv[j]),
                order_items_of(iv.take(i as int)) == Ok::<
                    Seq<(Seq<char>, OrderPrecedent)>,
                    FilterErrorV,
                >(order_columns_view(columns@)),
            decreases items.len() - i,
        {
            proof {
                assert(iv[i as int] == items@[i as int]@);
                assert(order_item_sliceable(iv[i as int]));
            }
            let c = order_item(items[i].as_str());
            proof {
                assert(iv.take(i + 1).drop_last() =~= iv.take(i as int));
                assert(iv.take(i + 1).last() == iv[i as int]);
            }
            if !sanitize_column_name(c.0.as_str()) {
                proof {
                    lemma_order_items_error(iv, i + 1, FilterErrorV::InvalidColumnName(c.0@));
                }
                return Err(FilterError::InvalidColumnName(c.0));
            }
            proof {
                assert(order_columns_view(columns@.push(c)) =~= order_columns_view(columns@).push(
                    (c.0@, c.1),
                ));
            }
            columns.push(c);
            i += 1;
        }
        proof {
            assert(iv.take(i as int) =~= iv);
        }
        if columns.len() > MAX_COLUMNS {
            return Err(FilterError::InvalidLength(MAX_COLUMNS));
        }
        Ok(Order { columns })
    }
}

/// Columns whose foreign records are to be expanded, e.g. `expand=fk0,fk1`.
#[derive(Clone, Debug, PartialEq)]
pub struct Expand {
    pub columns: Vec<String>,
}

/// The expanded columns of the items in order; the first bad column name wins.
pub open spec fn expand_items_of(items: Seq<Seq<char>>) -> Result<Seq<Seq<char>>, FilterErrorV>
    decreases items.len(),
{
    if items.len() == 0 {
        Ok(seq![])
    } else {
        match expand_items_of(items.drop_last()) {
            Err(e) => Err(e),
            Ok(cs) => if is_column_name(items.last()) {
                Ok(cs.push(items.last()))
            } else {
                Err(FilterErrorV::InvalidColumnName(items.last()))
            },
        }
    }
}

/// An `expand` parameter: comma separated names of at most five columns.
pub open spec fn expand_of(v: QsValue) -> Result<Seq<Seq<char>>, FilterErrorV> {
    match v {
        QsValue::String(s) => match expand_items_of(split_on(s@, ',')) {
            Ok(cs) => if cs.len() > MAX_COLUMNS {
                Err(FilterErrorV::InvalidLength(MAX_COLUMNS))
            } else {
                Ok(cs)
            },
            Err(e) => Err(e),
        },
        _ => Err(FilterErrorV::InvalidType),
    }
}

proof fn lemma_expand_items(items: Seq<Seq<char>>, k: int)
    requires
        0 <= k <= items.len(),
        forall|j: int| 0 <= j < k ==> is_column_name(#[trigger] items[j]),
    ensures
        expand_items_of(items.take(k)) == Ok::<Seq<Seq<char>>, FilterErrorV>(items.take(k)),
    decreases k,
{
    if k == 0 {
        assert(items.take(0) =~= Seq::<Seq<char>>::empty());
    } else {
        assert(items.take(k).drop_last() =~= items.take(k - 1));
        lemma_expand_items(items, k - 1);
        assert(items.take(k - 1).push(items[k - 1]) =~= items.take(k));
    }
}

proof fn lemma_expand_items_error(items: Seq<Seq<char>>, k: int, e: FilterErrorV)
    requires
        0 <= k <= items.len(),
        expand_items_of(items.take(k)) == Err::<Seq<Seq<char>>, FilterErrorV>(e),
    ensures
        expand_items_of(items) == Err::<Seq<Seq<char>>, FilterErrorV>(e),
    decreases items.len() - k,
{
    if k == items.len() {
        assert(items.take(k) =~= items);
    } else {
        assert(items.take(k + 1).drop_last() =~= items.take(k));
        lemma_expand_items_error(items, k + 1, e);
    }
}

impl Expand {
    /// Reads an `expand` parameter.
    #[verifier::loop_isolation(false)]
    pub fn parse(value: QsValue) -> (r: Result<Expand, FilterError>)
        ensures
            match r {
                Ok(x) => expand_of(value) == Ok::<Seq<Seq<char>>, FilterErrorV>(views(x.columns@)),
                Err(e) => expand_of(value) == Err::<Seq<Seq<char>>, FilterErrorV>(e@),
            },
    {
        let s = match value {
            QsValue::String(s) => s,
            _ => {
                return Err(FilterError::InvalidType);
            },
        };
        let columns = split(s.as_str(), ',');
        let ghost iv = views(columns@);
        let mut i: usize = 0;
        while i < columns.len()
            invariant
                iv == views(columns@),
                iv == split_on(s@, ','),
                i <= columns.len(),
                forall|j: int| 0 <= j < i ==> is_column_name(#[trigger] iv[j]),
            decreases columns.len() - i,
        {
            if !sanitize_column_name(columns[i].as_str()) {
                proof {
                    assert(iv[i as int] == columns@[i as int]@);
                    lemma_expand_items(iv, i as int);
                    assert(iv.take(i + 1).drop_last() =~= iv.take(i as int));
                    lemma_expand_items_error(iv, i + 1, FilterErrorV::InvalidColumnName(iv[i as int]));
                }
                let bad = columns[i].clone();
                return Err(FilterError::InvalidColumnName(bad));
            }
            proof {
                assert(iv[i as int] == columns@[i as int]@);
            }
            i += 1;
        }
        proof {
            lemma_expand_items(iv, i as int);
            assert(iv.take(i as int) =~= iv);
        }
        if columns.len() > MAX_COLUMNS {
            return Err(FilterError::InvalidLength(MAX_COLUMNS));
        }
        Ok(Expand { columns })
    }
}

} // verus!

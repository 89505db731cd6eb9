//! Listing records: the parts of the list query built from a parsed query string, and the
//! pagination cursor and count read back from the rows.
use vstd::prelude::*;

use crate::listing::{
    build_filter_where_clause, entries_view, limit_or_default, sql_params_view, where_clause_of,
    Cursor, Order, QueryParseResult, DEFAULT_LIMIT, MAX_LIMIT,
};
use crate::qs::{decimal, push_decimal};
use crate::record_requests::ExpandedTable;
use crate::records::{RecordError, SqlValue, SqlValueV};
use crate::schema::Column;
use crate::text::{join, lemma_views_push, push_char, seq_join, str_eq, views};
use crate::util::{base64_url_encode, base64_url_encoded};

verus! {

/// The clauses and parameters of a list query.
#[derive(Clone, Debug)]
pub struct ListQueryPlan {
    /// The read access rule, filtering the rows; `TRUE` without one.
    pub read_access_clause: String,
    pub filter_clause: String,
    /// Filter parameters, then `:__limit` and `:__user_id`, then `:cursor` if paging.
    pub params: Vec<(String, SqlValue)>,
    pub cursor_clause: String,
    pub order_clause: String,
    /// The foreign keys to expand, if asked for.
    pub expand: Option<Vec<String>>,
    pub count: bool,
}

/// One ordering term: the column of `_ROW_` and its direction.
pub open spec fn order_term(col: Seq<char>, o: Order) -> Seq<char> {
    "_ROW_.\""@ + col + "\" "@ + match o {
        Order::Descending => "DESC"@,
        Order::Ascending => "ASC"@,
    }
}

pub open spec fn order_terms(order: Seq<(Seq<char>, Order)>) -> Seq<Seq<char>> {
    order.map_values(|e: (Seq<char>, Order)| order_term(e.0, e.1))
}

/// The `ORDER BY` terms: the requested order, or the primary key descending.
pub open spec fn order_clause_of(order: Option<Seq<(Seq<char>, Order)>>, pk: Seq<char>) -> Seq<char> {
    seq_join(
        order_terms(
            match order {
                Some(o) => o,
                None => seq![(pk, Order::Descending)],
            },
        ),
        ", "@,
    )
}

/// How the cursor bounds the rows of the next page: after it in ascending order (when the
/// first ordering term ascends), before it otherwise (the default order is the primary key
/// descending).
pub open spec fn cursor_comparison(order: Option<Seq<(Seq<char>, Order)>>) -> Seq<char> {
    if order matches Some(o) && o.len() > 0 && o[0].1 is Ascending {
        "\" > :cursor"@
    } else {
        "\" < :cursor"@
    }
}

/// Paging follows the order: when the first order term ascends, the next page holds the
/// records whose key is greater than the cursor; otherwise (descending, or by default the
/// primary key descending) those whose key is smaller. An order term sorts its column
/// `ASC` or `DESC` as requested.
pub proof fn lemma_paging_follows_order(order: Option<Seq<(Seq<char>, Order)>>, col: Seq<char>)
    ensures
        (order matches Some(o) && o.len() > 0 && o[0].1 is Ascending) ==> cursor_comparison(order) == "\" > :cursor"@,
        !(order matches Some(o) && o.len() > 0 && o[0].1 is Ascending) ==> cursor_comparison(order) == "\" < :cursor"@,
        order_term(col, Order::Ascending) == "_ROW_.\""@ + col + "\" ASC"@,
        order_term(col, Order::Descending) == "_ROW_.\""@ + col + "\" DESC"@,
{
    reveal_strlit("\" ");
    reveal_strlit("ASC");
    reveal_strlit("DESC");
    reveal_strlit("\" ASC");
    reveal_strlit("\" DESC");
    assert("\" "@ + "ASC"@ =~= "\" ASC"@);
    assert("\" "@ + "DESC"@ =~= "\" DESC"@);
    assert("_ROW_.\""@ + col + "\" "@ + "ASC"@ =~= "_ROW_.\""@ + col + "\" ASC"@);
    assert("_ROW_.\""@ + col + "\" "@ + "DESC"@ =~= "_ROW_.\""@ + col + "\" DESC"@);
}

pub open spec fn cursor_sql_value(c: Cursor) -> SqlValueV {
    match c {
        Cursor::Blob(b) => SqlValueV::Blob(b@),
        Cursor::Integer(i) => SqlValueV::Integer(i),
    }
}

/// Whether every requested expansion is configured.
pub open spec fn expansion_allowed(requested: Seq<Seq<char>>, configured: Option<Seq<Seq<char>>>) -> bool {
    match configured {
        None => false,
        Some(cs) => forall|i: int| 0 <= i < requested.len() ==> cs.contains(#[trigger] requested[i]),
    }
}

fn order_text(order: &Vec<(String, Order)>) -> (r: String)
    ensures
        r@ == seq_join(order_terms(order@.map_values(|e: (String, Order)| (e.0@, e.1))), ", "@),
{
    let ghost ov = order@.map_values(|e: (String, Order)| (e.0@, e.1));
    let mut terms: Vec<String> = Vec::new();
    let mut i: usize = 0;
    while i < order.len()
        invariant
            ov == order@.map_values(|e: (String, Order)| (e.0@, e.1)),
            i <= order.len(),
            views(terms@) == order_terms(ov.take(i as int)),
        decreases order.len() - i,
    {
        let mut t = String::from_str("_ROW_.\"");
        t.append(order[i].0.as_str());
        t.append("\" ");
        match order[i].1 {
            Order::Descending => t.append("DESC"),
            Order::Ascending => t.append("ASC"),
        }
        proof {
            lemma_views_push(terms@, t);
            assert(order_terms(ov.take(i + 1)) =~= order_terms(ov.take(i as int)).push(
                order_term(ov[i as int].0, ov[i as int].1),
            ));
        }
        terms.push(t);
        i += 1;
    }
    proof {
        assert(ov.take(i as int) =~= ov);
    }
    join(&terms, ", ")
}

pub(crate) fn contains_name(names: &Vec<String>, name: &str) -> (r: bool)
    ensures
        r == views(names@).contains(name@),
{
    let mut i: usize = 0;
    while i < names.len()
        invariant
            i <= names.len(),
            forall|j: int| 0 <= j < i ==> names@[j]@ != name@,
        decreases names.len() - i,
    {
        if str_eq(names[i].as_str(), name) {
            proof {
                assert(views(names@)[i as int] == name@);
            }
            return true;
        }
        i += 1;
    }
    proof {
        if views(names@).contains(name@) {
            let j = choose|j: int| 0 <= j < views(names@).len() && views(names@)[j] == name@;
            assert(names@[j]@ == name@);
        }
    }
    false
}

/// Builds the parts of a list query over a table or view with the given columns and record
/// key: filters must name known, visible columns (else `Invalid filter params`), and every
/// requested expansion must be configured (else `Invalid expansion`).
#[verifier::loop_isolation(false)]
pub fn plan_list_query(
    columns: &Vec<Column>,
    pk_column_name: &str,
    read_access_rule: Option<&str>,
    user_id: Option<Vec<u8>>,
    config_expand: Option<&Vec<String>>,
    query: QueryParseResult,
) -> (r: Result<ListQueryPlan, RecordError>)
    ensures
        ({
            let filters = match query.params {
                Some(ps) => entries_view(ps@),
                None => seq![],
            };
            let requested = match query.expand {
                Some(e) => Some(views(e@)),
                None => None,
            };
            let configured = match config_expand {
                Some(c) => Some(views(c@)),
                None => None,
            };
            match where_clause_of(filters, columns@) {
                Err(_) => r == Err::<ListQueryPlan, RecordError>(RecordError::BadRequest("Invalid filter params")),
                Ok(w) => if requested matches Some(req) && !expansion_allowed(req, configured) {
                    r == Err::<ListQueryPlan, RecordError>(RecordError::BadRequest("Invalid expansion"))
                } else {
                    r matches Ok(p) && {
                        &&& p.read_access_clause@ == match read_access_rule {
                            Some(rule) => rule@,
                            None => "TRUE"@,
                        }
                        &&& p.filter_clause@ == w.0
                        &&& sql_params_view(p.params@) == w.1 + seq![
                            (":__limit"@, SqlValueV::Integer(limit_or_default_spec(query.limit) as i64)),
                            (":__user_id"@, match user_id {
                                Some(u) => SqlValueV::Blob(u@),
                                None => SqlValueV::Null,
                            }),
                        ] + match query.cursor {
                            Some(c) => seq![(":cursor"@, cursor_sql_value(c))],
                            None => seq![],
                        }
                        &&& p.cursor_clause@ == match query.cursor {
                            Some(_) => "_ROW_.\""@ + pk_column_name@ + cursor_comparison(
                                match query.order {
                                    Some(o) => Some(o@.map_values(|e: (String, Order)| (e.0@, e.1))),
                                    None => None,
                                },
                            ),
                            None => "TRUE"@,
                        }
                        &&& p.order_clause@ == order_clause_of(
                            match query.order {
                                Some(o) => Some(o@.map_values(|e: (String, Order)| (e.0@, e.1))),
                                None => None,
                            },
                            pk_column_name@,
                        )
                        &&& (match p.expand {
                            Some(e) => requested == Some(views(e@)),
                            None => requested is None,
                        })
                        &&& p.count == (query.count == Some(true))
                    }
                },
            }
        }),
{
    let QueryParseResult { limit, cursor, offset: _, count, expand, order, params: filter_params } = query;
    let where_clause = match build_filter_where_clause(columns, filter_params) {
        Ok(w) => w,
        Err(_) => {
            return Err(RecordError::BadRequest("Invalid filter params"));
        },
    };
    let mut params = where_clause.params;
    let limit_value = limit_or_default(limit);
    let ghost p0 = sql_params_view(params@);
    params.push((String::from_str(":__limit"), SqlValue::Integer(limit_value as i64)));
    let user_value = match user_id {
        Some(u) => SqlValue::Blob(u),
        None => SqlValue::Null,
    };
    let ghost uv = user_value@;
    params.push((String::from_str(":__user_id"), user_value));
    let ghost p1 = sql_params_view(params@);
    proof {
        assert(p1 =~= p0 + seq![
            (":__limit"@, SqlValueV::Integer(limit_value as i64)),
            (":__user_id"@, uv),
        ]);
    }
    let cursor_clause = match cursor {
        Some(c) => {
            let v = match c {
                Cursor::Blob(b) => SqlValue::Blob(b),
                Cursor::Integer(i) => SqlValue::Integer(i),
            };
            let ghost cv = v@;
            params.push((String::from_str(":cursor"), v));
            proof {
                assert(sql_params_view(params@) =~= p1 + seq![(":cursor"@, cv)]);
            }
            let ascending = match &order {
                Some(o) => o.len() > 0 && matches!(o[0].1, Order::Ascending),
                None => false,
            };
            let mut s = String::from_str("_ROW_.\"");
            s.append(pk_column_name);
            if ascending {
                s.append("\" > :cursor");
            } else {
                s.append("\" < :cursor");
            }
            s
        },
        None => {
            proof {
                assert(p1 + Seq::<(Seq<char>, SqlValueV)>::empty() =~= p1);
            }
            String::from_str("TRUE")
        },
    };
    let order_clause = match &order {
        Some(o) => order_text(o),
        None => {
            let mut d: Vec<(String, Order)> = Vec::new();
            d.push((String::from_str(pk_column_name), Order::Descending));
            proof {
                assert(d@.map_values(|e: (String, Order)| (e.0@, e.1)) =~= seq![
                    (pk_column_name@, Order::Descending),
                ]);
            }
            order_text(&d)
        },
    };
    match &expand {
        Some(req) => {
            let configured = match config_expand {
                Some(c) => c,
                None => {
                    return Err(RecordError::BadRequest("Invalid expansion"));
                },
            };
            let mut i: usize = 0;
            while i < req.len()
                invariant
                    i <= req.len(),
                    forall|j: int| 0 <= j < i ==> views(configured@).contains(#[trigger] views(req@)[j]),
                decreases req.len() - i,
            {
                if !contains_name(configured, req[i].as_str()) {
                    proof {
                        assert(views(req@)[i as int] == req@[i as int]@);
                    }
                    return Err(RecordError::BadRequest("Invalid expansion"));
                }
                i += 1;
            }
        },
        None => {},
    }
    let read_access_clause = match read_access_rule {
        Some(rule) => String::from_str(rule),
        None => String::from_str("TRUE"),
    };
    Ok(
        ListQueryPlan {
            read_access_clause,
            filter_clause: where_clause.clause,
            params,
            cursor_clause,
            order_clause,
            expand,
            count: match count {
                Some(b) => b,
                None => false,
            },
        },
    )
}


/// A selected column of the listed table: `_ROW_."name"`.
pub open spec fn row_column(c: Seq<char>) -> Seq<char> {
    "_ROW_.\""@ + c + "\""@
}

/// The alias of the `i`-th expanded table.
pub open spec fn expand_alias(i: nat) -> Seq<char> {
    "_EXPAND_"@ + decimal(i) + "_"@
}

/// The columns of the first `n` expanded tables, each list after a comma.
pub open spec fn expand_columns(n: nat) -> Seq<char>
    decreases n,
{
    if n == 0 {
        Seq::empty()
    } else {
        expand_columns((n - 1) as nat) + ", "@ + expand_alias((n - 1) as nat) + ".*"@
    }
}

/// The joins of the expanded tables: each foreign table joined on its key, so that a record
/// without a reference keeps its row.
pub open spec fn expand_joins(es: Seq<ExpandedTable>) -> Seq<char>
    decreases es.len(),
{
    if es.len() == 0 {
        Seq::empty()
    } else {
        let e = es.last();
        let a = expand_alias((es.len() - 1) as nat);
        expand_joins(es.drop_last()) + "\n  LEFT JOIN \""@ + e.foreign_table_name@ + "\" AS "@ + a
            + " ON _ROW_.\""@ + e.local_column_name@ + "\" = "@ + a + ".\""@ + e.foreign_column_name@
            + "\""@
    }
}

/// The rows of the table that pass the filters, as `_ROW_`.
pub open spec fn filtered_rows(table: Seq<char>, filter: Seq<char>) -> Seq<char> {
    "(SELECT * FROM \""@ + table + "\" WHERE "@ + filter + ") AS _ROW_"@
}

/// The list query: the table's columns (then each expanded table's, then the total count
/// if asked for) of the rows that pass the filters, the read rule and the cursor, in the
/// given order, at most `:__limit` of them. The total counts the rows that pass the
/// filters and the read rule, whatever the cursor.
pub open spec fn list_query_text(
    table: Seq<char>,
    cols: Seq<Seq<char>>,
    read: Seq<char>,
    filter: Seq<char>,
    cursor: Seq<char>,
    order: Seq<char>,
    es: Seq<ExpandedTable>,
    count: bool,
) -> Seq<char> {
    "SELECT\n  "@ + seq_join(cols.map_values(|c: Seq<char>| row_column(c)), ", "@) + expand_columns(es.len())
        + (if count {
        ", total_count._value_"@
    } else {
        Seq::empty()
    }) + "\nFROM\n  (SELECT :__user_id AS id) AS _USER_,\n  "@ + filtered_rows(table, filter)
        + expand_joins(es) + (if count {
        ",\n  (SELECT COUNT(*) AS _value_ FROM (SELECT :__user_id AS id) AS _USER_, "@ + filtered_rows(
            table,
            filter,
        ) + " WHERE "@ + read + ") AS total_count"@
    } else {
        Seq::empty()
    }) + "\nWHERE\n  ("@ + read + ") AND ("@ + cursor + ")\nORDER BY\n  "@ + order + "\nLIMIT :__limit"@
}

fn push_alias(s: &mut String, i: usize)
    ensures
        final(s)@ == old(s)@ + expand_alias(i as nat),
{
    s.append("_EXPAND_");
    push_decimal(s, i);
    s.append("_");
}

/// The SQL of a planned list query over `table_name` with the given column names and
/// expanded tables.
pub fn list_query(
    table_name: &str,
    column_names: &Vec<String>,
    plan: &ListQueryPlan,
    expanded: &Vec<ExpandedTable>,
) -> (r: String)
    ensures
        r@ == list_query_text(
            table_name@,
            views(column_names@),
            plan.read_access_clause@,
            plan.filter_clause@,
            plan.cursor_clause@,
            plan.order_clause@,
            expanded@,
            plan.count,
        ),
{
    let mut cols: Vec<String> = Vec::new();
    let mut i: usize = 0;
    while i < column_names.len()
        invariant
            i <= column_names@.len(),
            views(cols@) == views(column_names@.take(i as int)).map_values(|c: Seq<char>| row_column(c)),
        decreases column_names.len() - i,
    {
        let mut c = String::from_str("_ROW_.\"");
        c.append(column_names[i].as_str());
        c.append("\"");
        proof {
            lemma_views_push(cols@, c);
            lemma_views_push(column_names@.take(i as int), column_names@[i as int]);
            assert(column_names@.take(i + 1) =~= column_names@.take(i as int).push(column_names@[i as int]));
            assert(views(column_names@.take(i + 1)).map_values(|c: Seq<char>| row_column(c)) =~= views(
                column_names@.take(i as int),
            ).map_values(|c: Seq<char>| row_column(c)).push(row_column(column_names@[i as int]@)));
        }
        cols.push(c);
        i += 1;
    }
    proof {
        assert(column_names@.take(i as int) =~= column_names@);
    }
    let mut q = String::from_str("SELECT\n  ");
    q.append(join(&cols, ", ").as_str());
    let ghost head = q@;
    let mut k: usize = 0;
    while k < expanded.len()
        invariant
            k <= expanded@.len(),
            q@ == head + expand_columns(k as nat),
        decreases expanded.len() - k,
    {
        q.append(", ");
        push_alias(&mut q, k);
        q.append(".*");
        k += 1;
    }
    if plan.count {
        q.append(", total_count._value_");
    }
    q.append("\nFROM\n  (SELECT :__user_id AS id) AS _USER_,\n  ");
    let mut rows = String::from_str("(SELECT * FROM \"");
    rows.append(table_name);
    rows.append("\" WHERE ");
    rows.append(plan.filter_clause.as_str());
    rows.append(") AS _ROW_");
    q.append(rows.as_str());
    let ghost head2 = q@;
    let mut k: usize = 0;
    while k < expanded.len()
        invariant
            k <= expanded@.len(),
            q@ == head2 + expand_joins(expanded@.take(k as int)),
        decreases expanded.len() - k,
    {
        let e = &expanded[k];
        proof {
            assert(expanded@.take(k + 1).drop_last() =~= expanded@.take(k as int));
            assert(expanded@.take(k + 1).last() == expanded@[k as int]);
        }
        q.append("\n  LEFT JOIN \"");
        q.append(e.foreign_table_name.as_str());
        q.append("\" AS ");
        push_alias(&mut q, k);
        q.append(" ON _ROW_.\"");
        q.append(e.local_column_name.as_str());
        q.append("\" = ");
        push_alias(&mut q, k);
        q.append(".\"");
        q.append(e.foreign_column_name.as_str());
        q.append("\"");
        k += 1;
    }
    proof {
        assert(expanded@.take(k as int) =~= expanded@);
    }
    if plan.count {
        q.append(",\n  (SELECT COUNT(*) AS _value_ FROM (SELECT :__user_id AS id) AS _USER_, ");
        q.append(rows.as_str());
        q.append(" WHERE ");
        q.append(plan.read_access_clause.as_str());
        q.append(") AS total_count");
    }
    q.append("\nWHERE\n  (");
    q.append(plan.read_access_clause.as_str());
    q.append(") AND (");
    q.append(plan.cursor_clause.as_str());
    q.append(")\nORDER BY\n  ");
    q.append(plan.order_clause.as_str());
    q.append("\nLIMIT :__limit");
    q
}

pub open spec fn limit_or_default_spec(limit: Option<usize>) -> usize {
    match limit {
        Some(l) => if l < MAX_LIMIT {
            l
        } else {
            MAX_LIMIT
        },
        None => DEFAULT_LIMIT,
    }
}

/// Decimal notation of a signed integer.
pub open spec fn signed_decimal(i: i64) -> Seq<char> {
    if i < 0 {
        seq!['-'] + decimal((-(i as int)) as nat)
    } else {
        decimal(i as nat)
    }
}

/// The decimal text of an `i64`, as `i64::to_string` writes it.
pub fn i64_text(i: i64) -> (r: String)
    ensures
        r@ == signed_decimal(i),
{
    let mut s = String::new();
    if i < 0 {
        push_char(&mut s, '-');
        let magnitude: u64 = if i == i64::MIN {
            0x8000_0000_0000_0000u64
        } else {
            (0 - i) as u64
        };
        push_u64_decimal(&mut s, magnitude);
    } else {
        push_u64_decimal(&mut s, i as u64);
    }
    s
}

pub(crate) fn push_u64_decimal(s: &mut String, n: u64)
    ensures
        final(s)@ == old(s)@ + decimal(n as nat),
    decreases n,
{
    if n >= 10 {
        push_u64_decimal(s, n / 10);
    }
    let d = (n % 10) as usize;
    let mut t = String::new();
    push_decimal(&mut t, d);
    s.append(t.as_str());
    proof {
        assert(decimal(d as nat) =~= seq![crate::qs::digit_char(d as nat)]);
    }
}

/// The cursor for the next page, from the record key of the last listed row: a 16-byte key
/// in url-safe base64, an integer key in decimal.
pub open spec fn next_cursor(last_pk: SqlValueV) -> Option<Seq<char>> {
    match last_pk {
        SqlValueV::Blob(b) => if b.len() == 16 {
            Some(base64_url_encoded(b))
        } else {
            None
        },
        SqlValueV::Integer(i) => Some(signed_decimal(i)),
        _ => None,
    }
}

/// The cursor for the next page.
pub fn list_cursor(last_pk: &SqlValue) -> (r: Option<String>)
    ensures
        match r {
            Some(s) => next_cursor(last_pk@) == Some(s@),
            None => next_cursor(last_pk@) is None,
        },
{
    match last_pk {
        SqlValue::Blob(b) => if b.len() == 16 {
            Some(base64_url_encode(b.as_slice()))
        } else {
            None
        },
        SqlValue::Integer(i) => Some(i64_text(*i)),
        _ => None,
    }
}

/// The total count, when it was asked for: the integer in the last column of the first row.
pub fn total_count(count: Option<bool>, first_row_last: Option<&SqlValue>) -> (r: Result<
    Option<usize>,
    RecordError,
>)
    ensures
        count != Some(true) ==> r == Ok::<Option<usize>, RecordError>(None),
        count == Some(true) ==> match first_row_last {
            Some(SqlValue::Integer(c)) => r == Ok::<Option<usize>, RecordError>(Some(c as usize)),
            _ => r is Err && r matches Err(RecordError::Internal(_)),
        },
{
    match count {
        Some(true) => match first_row_last {
            Some(SqlValue::Integer(c)) => Ok(Some(*c as usize)),
            _ => Err(RecordError::Internal(String::from_str("expected count"))),
        },
        _ => Ok(None),
    }
}

} // verus!

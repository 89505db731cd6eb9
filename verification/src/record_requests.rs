//! The decisions of the record handlers around their queries: filling in the creator's
//! id, the id answered for a new record, which foreign keys a read expands and how the
//! expanded row is cut back into its tables.
use vstd::prelude::*;

use crate::listing::sql_params_view;
use crate::list_records::{contains_name, expansion_allowed, i64_text, signed_decimal};
use crate::record_api::RequestParams;
use crate::records::{prefix_colon, RecordError, SqlValue, SqlValueV};
use crate::schema::{Column, ColumnDataType, ColumnOption};
use crate::schema_view::{find_first_column, first_column};
use crate::text::{lemma_views_push, split, split_on, str_eq, views};
use crate::util::{base64_url_encode, base64_url_encoded};
use crate::validate::{find_foreign_key, find_target, foreign_key_position, target_index, TargetInfo};

verus! {

/// The names of the user-id columns (`user_id_columns` indexes `columns`) that the
/// request does not set, in order.
pub open spec fn missing_user_columns(columns: Seq<Column>, user_id_columns: Seq<usize>, present: Seq<Seq<char>>) -> Seq<Seq<char>>
    decreases user_id_columns.len(),
{
    if user_id_columns.len() == 0 {
        Seq::empty()
    } else {
        let init = missing_user_columns(columns, user_id_columns.drop_last(), present);
        let name = columns[user_id_columns.last() as int].name@;
        if present.contains(name) {
            init
        } else {
            init.push(name)
        }
    }
}

fn contains_text(v: &Vec<String>, s: &str) -> (r: bool)
    ensures
        r == views(v@).contains(s@),
{
    let mut i: usize = 0;
    while i < v.len()
        invariant
            i <= v@.len(),
            forall|j: int| 0 <= j < i ==> v@[j]@ != s@,
        decreases v.len() - i,
    {
        if str_eq(v[i].as_str(), s) {
            proof {
                assert(views(v@)[i as int] == s@);
            }
            return true;
        }
        i += 1;
    }
    proof {
        if views(v@).contains(s@) {
            let j = choose|j: int| 0 <= j < views(v@).len() && views(v@)[j] == s@;
            assert(v@[j]@ == s@);
        }
    }
    false
}

/// The user-id columns a create request leaves out.
pub fn missing_user_id_columns(columns: &Vec<Column>, user_id_columns: &Vec<usize>, present: &Vec<String>) -> (r: Vec<String>)
    requires
        forall|i: int| 0 <= i < user_id_columns@.len() ==> (#[trigger] user_id_columns@[i]) < columns@.len(),
    ensures
        views(r@) == missing_user_columns(columns@, user_id_columns@, views(present@)),
{
    let mut r: Vec<String> = Vec::new();
    let mut i: usize = 0;
    while i < user_id_columns.len()
        invariant
            i <= user_id_columns@.len(),
            forall|k: int| 0 <= k < user_id_columns@.len() ==> (#[trigger] user_id_columns@[k]) < columns@.len(),
            views(r@) == missing_user_columns(columns@, user_id_columns@.take(i as int), views(present@)),
        decreases user_id_columns.len() - i,
    {
        proof {
            let t = user_id_columns@.take(i + 1);
            assert(t.drop_last() =~= user_id_columns@.take(i as int));
            assert(t.last() == user_id_columns@[i as int]);
        }
        let idx = user_id_columns[i];
        let name = columns[idx].name.as_str();
        if !contains_text(present, name) {
            proof {
                lemma_views_push(r@, columns@[idx as int].name);
            }
            r.push(columns[idx].name.clone());
        }
        i += 1;
    }
    proof {
        assert(user_id_columns@.take(i as int) =~= user_id_columns@);
    }
    r
}

/// The placeholder and value of each missing user-id column, set to the user's id.
pub open spec fn user_id_params(missing: Seq<Seq<char>>, user_id: Seq<u8>) -> Seq<(Seq<char>, SqlValueV)> {
    missing.map_values(|n: Seq<char>| (seq![':'] + n, SqlValueV::Blob(user_id)))
}

/// Sets the user-id columns a create request leaves out to the signed-in user's id, when
/// the API fills them in and a user is signed in.
pub fn autofill_user_id_columns(
    params: &mut RequestParams,
    autofill: bool,
    columns: &Vec<Column>,
    user_id_columns: &Vec<usize>,
    user_id: Option<&Vec<u8>>,
)
    requires
        forall|i: int| 0 <= i < user_id_columns@.len() ==> (#[trigger] user_id_columns@[i]) < columns@.len(),
    ensures
        ({
            let missing = missing_user_columns(columns@, user_id_columns@, views(old(params).column_names@));
            if autofill && user_id is Some && missing.len() > 0 {
                &&& views(final(params).column_names@) == views(old(params).column_names@) + missing
                &&& sql_params_view(final(params).named_params@) == sql_params_view(old(params).named_params@)
                    + user_id_params(missing, user_id->0@)
            } else {
                *final(params) == *old(params)
            }
        }),
{
    if !autofill {
        return;
    }
    let uid = match user_id {
        Some(u) => u,
        None => {
            return;
        },
    };
    let missing = missing_user_id_columns(columns, user_id_columns, &params.column_names);
    if missing.len() == 0 {
        return;
    }
    let ghost names0 = views(params.column_names@);
    let ghost params0 = sql_params_view(params.named_params@);
    let ghost mv = views(missing@);
    let mut i: usize = 0;
    while i < missing.len()
        invariant
            i <= missing@.len(),
            mv == views(missing@),
            views(params.column_names@) == names0 + mv.take(i as int),
            sql_params_view(params.named_params@) == params0 + user_id_params(mv.take(i as int), uid@),
        decreases missing.len() - i,
    {
        let ghost before_names = params.column_names@;
        let ghost before_params = params.named_params@;
        let v = uid.clone();
        proof {
            assert(v@ =~= uid@);
        }
        params.named_params.push((prefix_colon(missing[i].as_str()), SqlValue::Blob(v)));
        params.column_names.push(missing[i].clone());
        proof {
            lemma_views_push(before_names, missing@[i as int]);
            assert(mv.take(i + 1) =~= mv.take(i as int).push(mv[i as int]));
            assert(user_id_params(mv.take(i + 1), uid@) =~= user_id_params(mv.take(i as int), uid@).push(
                (seq![':'] + mv[i as int], SqlValueV::Blob(uid@)),
            ));
            assert(sql_params_view(params.named_params@) =~= sql_params_view(before_params).push(
                (seq![':'] + mv[i as int], SqlValueV::Blob(uid@)),
            ));
        }
        i += 1;
    }
    proof {
        assert(mv.take(i as int) =~= mv);
    }
}

/// The id answered for a created record: a UUID key in url-safe base64, an integer key in
/// decimal.
pub open spec fn created_id_text(pk_type: ColumnDataType, value: SqlValueV) -> Option<Seq<char>> {
    match (pk_type, value) {
        (ColumnDataType::Blob, SqlValueV::Blob(b)) => if b.len() == 16 {
            Some(base64_url_encoded(b))
        } else {
            None
        },
        (ColumnDataType::Integer, SqlValueV::Integer(i)) => Some(signed_decimal(i)),
        _ => None,
    }
}

/// The id of a created record from the key value the insert returned; a key of another
/// type, or a value that does not fit it, is an internal error.
pub fn created_record_id(pk_type: ColumnDataType, value: &SqlValue) -> (r: Result<String, RecordError>)
    ensures
        match created_id_text(pk_type, value@) {
            Some(t) => r matches Ok(s) && s@ == t,
            None => r matches Err(RecordError::Internal(_)),
        },
{
    match (pk_type, value) {
        (ColumnDataType::Blob, SqlValue::Blob(b)) => if b.len() == 16 {
            Ok(base64_url_encode(b.as_slice()))
        } else {
            Err(RecordError::Internal(String::from_str("Expected 16 bytes")))
        },
        (ColumnDataType::Integer, SqlValue::Integer(i)) => Ok(i64_text(*i)),
        (ColumnDataType::Blob, _) | (ColumnDataType::Integer, _) => Err(
            RecordError::Internal(String::from_str("Invalid column type")),
        ),
        _ => Err(RecordError::Internal(String::from_str("Unexpected data type"))),
    }
}

/// The foreign keys a read expands: the comma-separated names of a non-empty `expand`,
/// which needs an API with expansion configured, and each name must be configured.
pub fn read_expansion(expand: Option<&str>, configured: Option<&Vec<String>>) -> (r: Result<
    Option<Vec<String>>,
    RecordError,
>)
    ensures
        match expand {
            Some(e) => if e@.len() > 0 {
                match configured {
                    None => r == Err::<Option<Vec<String>>, RecordError>(
                        RecordError::BadRequest("Invalid expansion"),
                    ),
                    Some(c) => if expansion_allowed(split_on(e@, ','), Some(views(c@))) {
                        r matches Ok(Some(v)) && views(v@) == split_on(e@, ',')
                    } else {
                        r == Err::<Option<Vec<String>>, RecordError>(
                            RecordError::BadRequest("Invalid expansion"),
                        )
                    },
                }
            } else {
                r == Ok::<Option<Vec<String>>, RecordError>(None)
            },
            None => r == Ok::<Option<Vec<String>>, RecordError>(None),
        },
{
    match expand {
        Some(e) => {
            if e.unicode_len() == 0 {
                return Ok(None);
            }
            let c = match configured {
                None => {
                    return Err(RecordError::BadRequest("Invalid expansion"));
                },
                Some(c) => c,
            };
            let names = split(e, ',');
            let mut i: usize = 0;
            while i < names.len()
                invariant
                    i <= names.len(),
                    expand == Some(e),
                    e@.len() > 0,
                    configured == Some(c),
                    views(names@) == split_on(e@, ','),
                    forall|j: int| 0 <= j < i ==> views(c@).contains(#[trigger] views(names@)[j]),
                decreases names.len() - i,
            {
                if !contains_name(c, names[i].as_str()) {
                    proof {
                        assert(views(names@)[i as int] == names@[i as int]@);
                        assert(!views(c@).contains(split_on(e@, ',')[i as int]));
                        assert(!expansion_allowed(split_on(e@, ','), Some(views(c@))));
                    }
                    return Err(RecordError::BadRequest("Invalid expansion"));
                }
                proof {
                    assert(views(names@)[i as int] == names@[i as int]@);
                }
                i += 1;
            }
            Ok(Some(names))
        },
        None => Ok(None),
    }
}

/// A foreign table joined into a read: the expanding column, the foreign table (its index
/// among the tables), how many columns it adds, and the column its key is.
#[derive(Clone, Debug, PartialEq, Eq)]
pub struct ExpandedTable {
    pub table_index: usize,
    pub local_column_name: String,
    pub num_columns: usize,
    pub foreign_table_name: String,
    pub foreign_column_name: String,
}

pub ghost struct ExpandedTableV {
    pub table_index: int,
    pub local_column_name: Seq<char>,
    pub num_columns: int,
    pub foreign_table_name: Seq<char>,
    pub foreign_column_name: Seq<char>,
}

pub open spec fn expanded_view(e: ExpandedTable) -> ExpandedTableV {
    ExpandedTableV {
        table_index: e.table_index as int,
        local_column_name: e.local_column_name@,
        num_columns: e.num_columns as int,
        foreign_table_name: e.foreign_table_name@,
        foreign_column_name: e.foreign_column_name@,
    }
}

/// Whether every table has its columns and a record key within them.
pub open spec fn tables_complete(tables: Seq<TargetInfo>) -> bool {
    forall|i: int|
        0 <= i < tables.len() ==> (#[trigger] tables[i]).columns is Some && (tables[i].record_pk matches Some(
            pk,
        ) ==> pk.0 < tables[i].columns->0@.len())
}

/// The table joined for expanding column `col` of table `root`, if the column is a foreign
/// key to a table with a record key.
pub open spec fn expansion_of(tables: Seq<TargetInfo>, root: int, col: Seq<char>) -> Option<ExpandedTableV> {
    let cols = tables[root].columns->0@;
    let ci = first_column(cols, col);
    if ci >= cols.len() {
        None
    } else {
        let os = cols[ci].options@;
        let fk = foreign_key_position(os);
        if fk >= os.len() {
            None
        } else {
            match os[fk] {
                ColumnOption::ForeignKey { foreign_table, .. } => {
                    let ti = target_index(tables, foreign_table@);
                    if ti >= tables.len() {
                        None
                    } else {
                        match tables[ti].record_pk {
                            None => None,
                            Some(pk) => Some(
                                ExpandedTableV {
                                    table_index: ti,
                                    local_column_name: col,
                                    num_columns: tables[ti].columns->0@.len() as int,
                                    foreign_table_name: foreign_table@,
                                    foreign_column_name: tables[ti].columns->0@[pk.0 as int].name@,
                                },
                            ),
                        }
                    }
                },
                _ => None,
            }
        }
    }
}

/// The joins of the first `n` requested columns, empty names skipped; `None` when one
/// cannot be expanded.
pub open spec fn expansions(tables: Seq<TargetInfo>, root: int, cols: Seq<Seq<char>>, n: int) -> Option<Seq<ExpandedTableV>>
    decreases n,
{
    if n <= 0 {
        Some(Seq::empty())
    } else {
        match expansions(tables, root, cols, n - 1) {
            None => None,
            Some(s) => if cols[n - 1].len() == 0 {
                Some(s)
            } else {
                match expansion_of(tables, root, cols[n - 1]) {
                    None => None,
                    Some(e) => Some(s.push(e)),
                }
            },
        }
    }
}

proof fn lemma_expansions_none(tables: Seq<TargetInfo>, root: int, cols: Seq<Seq<char>>, n: int, m: int)
    requires
        0 < n <= m,
        expansions(tables, root, cols, n) is None,
    ensures
        expansions(tables, root, cols, m) is None,
    decreases m - n,
{
    if n < m {
        lemma_expansions_none(tables, root, cols, n, m - 1);
    }
}

/// The foreign tables a read of `table_name` joins to expand the requested columns. A
/// table, a column, a foreign key or a foreign record key that is missing refuses the
/// expansion (`ApiRequiresTable`).
pub fn expand_tables(tables: &Vec<TargetInfo>, table_name: &str, expand: &Vec<String>) -> (r: Result<
    Vec<ExpandedTable>,
    RecordError,
>)
    requires
        tables_complete(tables@),
    ensures
        ({
            let root = target_index(tables@, table_name@);
            if root >= tables@.len() {
                r == Err::<Vec<ExpandedTable>, RecordError>(RecordError::ApiRequiresTable)
            } else {
                match expansions(tables@, root, views(expand@), expand@.len() as int) {
                    None => r == Err::<Vec<ExpandedTable>, RecordError>(RecordError::ApiRequiresTable),
                    Some(es) => r matches Ok(v) && v@.map_values(|e: ExpandedTable| expanded_view(e)) == es,
                }
            }
        }),
{
    let root = find_target(tables, table_name);
    if root == tables.len() {
        return Err(RecordError::ApiRequiresTable);
    }
    let ghost cv = views(expand@);
    let root_columns = match &tables[root].columns {
        Some(c) => c,
        None => {
            return Err(RecordError::ApiRequiresTable);
        },
    };
    let mut out: Vec<ExpandedTable> = Vec::new();
    let mut i: usize = 0;
    while i < expand.len()
        invariant
            i <= expand@.len(),
            cv == views(expand@),
            root < tables@.len(),
            root == target_index(tables@, table_name@),
            tables[root as int].columns == Some(*root_columns),
            tables_complete(tables@),
            expansions(tables@, root as int, cv, i as int) == Some(
                out@.map_values(|e: ExpandedTable| expanded_view(e)),
            ),
        decreases expand.len() - i,
    {
        let ghost before = out@.map_values(|e: ExpandedTable| expanded_view(e));
        let col = expand[i].as_str();
        proof {
            assert(cv[i as int] == col@);
        }
        if col.unicode_len() > 0 {
            let ci = find_first_column(root_columns, col);
            if ci == root_columns.len() {
                proof {
                    lemma_expansions_none(tables@, root as int, cv, i + 1, expand@.len() as int);
                }
                return Err(RecordError::ApiRequiresTable);
            }
            let os = &root_columns[ci].options;
            let fk = find_foreign_key(os);
            if fk == os.len() {
                proof {
                    lemma_expansions_none(tables@, root as int, cv, i + 1, expand@.len() as int);
                }
                return Err(RecordError::ApiRequiresTable);
            }
            let foreign_table = match &os[fk] {
                ColumnOption::ForeignKey { foreign_table, .. } => foreign_table,
                _ => {
                    proof {
                        lemma_expansions_none(tables@, root as int, cv, i + 1, expand@.len() as int);
                    }
                    return Err(RecordError::ApiRequiresTable);
                },
            };
            let ti = find_target(tables, foreign_table.as_str());
            if ti == tables.len() {
                proof {
                    lemma_expansions_none(tables@, root as int, cv, i + 1, expand@.len() as int);
                }
                return Err(RecordError::ApiRequiresTable);
            }
            let pk_index = match &tables[ti].record_pk {
                Some(pk) => pk.0,
                None => {
                    proof {
                        lemma_expansions_none(tables@, root as int, cv, i + 1, expand@.len() as int);
                    }
                    return Err(RecordError::ApiRequiresTable);
                },
            };
            let foreign_columns = match &tables[ti].columns {
                Some(c) => c,
                None => {
                    return Err(RecordError::ApiRequiresTable);
                },
            };
            proof {
                assert(tables@[ti as int] == tables[ti as int]);
            }
            let e = ExpandedTable {
                table_index: ti,
                local_column_name: String::from_str(col),
                num_columns: foreign_columns.len(),
                foreign_table_name: foreign_table.clone(),
                foreign_column_name: foreign_columns[pk_index].name.clone(),
            };
            out.push(e);
            proof {
                assert(out@.map_values(|e: ExpandedTable| expanded_view(e)) =~= before.push(expanded_view(e)));
            }
        }
        i += 1;
    }
    proof {
        assert(cv.len() == expand@.len());
    }
    Ok(out)
}

/// The segments of an expanded row: the main table's `main_len` values, then each joined
/// table's values in turn; what follows the last is dropped.
pub open spec fn row_segments<T>(row: Seq<T>, main_len: int, widths: Seq<usize>) -> Seq<Seq<T>>
    decreases widths.len(),
{
    if widths.len() == 0 {
        seq![row.take(main_len)]
    } else {
        let init = row_segments(row, main_len, widths.drop_last());
        let start = main_len + widths_total(widths.drop_last());
        init.push(row.subrange(start, start + widths.last()))
    }
}

/// The sum of the widths.
pub open spec fn widths_total(widths: Seq<usize>) -> int
    decreases widths.len(),
{
    if widths.len() == 0 {
        0
    } else {
        widths_total(widths.drop_last()) + widths.last()
    }
}

proof fn lemma_widths_total_prefix(widths: Seq<usize>, i: int)
    requires
        0 <= i <= widths.len(),
    ensures
        0 <= widths_total(widths.take(i)) <= widths_total(widths),
        i < widths.len() ==> widths_total(widths.take(i + 1)) == widths_total(widths.take(i)) + widths[i],
    decreases widths.len() - i,
{
    if i < widths.len() {
        let t = widths.take(i + 1);
        assert(t.drop_last() =~= widths.take(i));
        assert(t.last() == widths[i]);
        assert(widths_total(t) == widths_total(widths.take(i)) + widths[i]);
        lemma_widths_total_prefix(widths, i + 1);
        lemma_widths_total_nonneg(widths.take(i));
    } else {
        assert(widths.take(i) =~= widths);
        lemma_widths_total_nonneg(widths);
    }
}

proof fn lemma_widths_total_nonneg(widths: Seq<usize>)
    ensures
        widths_total(widths) >= 0,
    decreases widths.len(),
{
    if widths.len() > 0 {
        lemma_widths_total_nonneg(widths.drop_last());
    }
}

/// Cuts the row of an expanded read into the main table's values and each joined table's.
pub fn split_expanded_row<T>(row: Vec<T>, main_len: usize, widths: &Vec<usize>) -> (r: Vec<Vec<T>>)
    requires
        main_len + widths_total(widths@) <= row@.len(),
    ensures
        r@.map_values(|v: Vec<T>| v@) == row_segments(row@, main_len as int, widths@),
{
    let ghost orig = row@;
    proof {
        lemma_widths_total_nonneg(widths@);
    }
    let mut curr = row;
    let rest = curr.split_off(main_len);
    let mut out: Vec<Vec<T>> = Vec::new();
    out.push(curr);
    let mut curr = rest;
    let mut i: usize = 0;
    proof {
        assert(out@.map_values(|v: Vec<T>| v@) =~= seq![orig.take(main_len as int)]);
        assert(widths@.take(0) =~= Seq::<usize>::empty());
        assert(curr@ =~= orig.skip(main_len as int));
    }
    while i < widths.len()
        invariant
            i <= widths@.len(),
            main_len + widths_total(widths@) <= orig.len(),
            curr@ == orig.skip(main_len + widths_total(widths@.take(i as int))),
            out@.map_values(|v: Vec<T>| v@) == row_segments(orig, main_len as int, widths@.take(i as int)),
        decreases widths.len() - i,
    {
        proof {
            lemma_widths_total_prefix(widths@, i as int);
            lemma_widths_total_prefix(widths@, i + 1);
            let t = widths@.take(i + 1);
            assert(t.drop_last() =~= widths@.take(i as int));
            assert(t.last() == widths@[i as int]);
        }
        let ghost start = main_len + widths_total(widths@.take(i as int));
        let next = curr.split_off(widths[i]);
        let ghost seg = curr@;
        let ghost before = out@.map_values(|v: Vec<T>| v@);
        out.push(curr);
        curr = next;
        proof {
            assert(seg =~= orig.subrange(start, start + widths@[i as int]));
            assert(out@.map_values(|v: Vec<T>| v@) =~= before.push(seg));
            assert(curr@ =~= orig.skip(main_len + widths_total(widths@.take(i + 1))));
        }
        i += 1;
    }
    proof {
        assert(widths@.take(i as int) =~= widths@);
    }
    out
}

} // verus!

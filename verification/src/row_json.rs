//! Which fields a record's JSON object gets from a result row, and what each holds: null,
//! an expanded foreign record, the text of a JSON column, or the plain value.
use vstd::prelude::*;

use crate::records::{SqlValue, SqlValueV};
use crate::schema::{Column, ColumnOption};
use crate::text::str_eq;

verus! {

/// One column of a result row as the driver reports it: its name, if it has one, and its
/// value, if it can be read.
#[derive(Clone, Debug, PartialEq)]
pub struct RowCell {
    pub name: Option<String>,
    pub value: Option<SqlValue>,
}

/// What a field of the record's JSON object holds.
#[derive(Clone, Debug, PartialEq)]
pub enum FieldJson {
    /// JSON `null`, for SQL `NULL`.
    Null,
    /// An expanded foreign key: `{"id": id, "data": data}`, where `data` is the JSON text
    /// of the referenced record; just `{"id": id}` when that record is null (`None`).
    Expanded { id: SqlValue, data: Option<String> },
    /// The text of a JSON column, to be parsed into the field.
    JsonText(String),
    /// The value itself.
    Plain(SqlValue),
}

pub ghost enum FieldJsonV {
    Null,
    Expanded(SqlValueV, Option<Seq<char>>),
    JsonText(Seq<char>),
    Plain(SqlValueV),
}

impl View for FieldJson {
    type V = FieldJsonV;

    open spec fn view(&self) -> FieldJsonV {
        match self {
            FieldJson::Null => FieldJsonV::Null,
            FieldJson::Expanded { id, data } => FieldJsonV::Expanded(id@, opt_text(*data)),
            FieldJson::JsonText(s) => FieldJsonV::JsonText(s@),
            FieldJson::Plain(v) => FieldJsonV::Plain(v@),
        }
    }
}

/// Why a row could not be read.
#[derive(Clone, Copy, Debug, PartialEq, Eq)]
pub enum RowJsonError {
    MissingColumnName,
    ValueNotFound,
}

/// Whether a column is shown: names starting with `_` are not.
pub open spec fn shown(name: Seq<char>) -> bool {
    !(name.len() > 0 && name[0] == '_')
}

/// Whether a column references another table.
pub open spec fn is_foreign_key(options: Seq<ColumnOption>) -> bool {
    exists|k: int| 0 <= k < options.len() && (#[trigger] options[k]) is ForeignKey
}

/// The text of an optional string.
pub open spec fn opt_text(s: Option<String>) -> Option<Seq<char>> {
    match s {
        Some(t) => Some(t@),
        None => None,
    }
}

/// The expansion recorded for a column, the last one if several are: the JSON text of the
/// foreign record, `None` when it is null.
pub open spec fn expansion_of(e: Seq<(String, Option<String>)>, name: Seq<char>) -> Option<Option<Seq<char>>>
    decreases e.len(),
{
    if e.len() == 0 {
        None
    } else if e.last().0@ == name {
        Some(opt_text(e.last().1))
    } else {
        expansion_of(e.drop_last(), name)
    }
}

/// What the field of a non-`NULL` value `v` of column `col` holds.
pub open spec fn field_of(
    col: Column,
    is_json: bool,
    v: SqlValueV,
    expand: Option<Seq<(String, Option<String>)>>,
) -> FieldJsonV {
    if v is Null {
        FieldJsonV::Null
    } else if expand matches Some(e) && expansion_of(e, col.name@) is Some && is_foreign_key(col.options@) {
        FieldJsonV::Expanded(v, expansion_of(expand->0, col.name@)->0)
    } else if v is Text && is_json {
        FieldJsonV::JsonText(v->Text_0)
    } else {
        FieldJsonV::Plain(v)
    }
}

/// The fields of the record's object, one per kept column in row order, where `keep[i]`
/// is the column filter's answer for the `i`-th column; a column without a name, or a kept
/// column whose value cannot be read, is an error.
pub open spec fn row_plan(
    cols: Seq<Column>,
    json: Seq<bool>,
    row: Seq<RowCell>,
    expand: Option<Seq<(String, Option<String>)>>,
    keep: Seq<bool>,
) -> Result<Seq<(Seq<char>, FieldJsonV)>, RowJsonError>
    decreases row.len(),
{
    if row.len() == 0 {
        Ok(Seq::empty())
    } else {
        match row_plan(cols, json, row.drop_last(), expand, keep) {
            Err(e) => Err(e),
            Ok(prev) => {
                let i = row.len() - 1;
                match row.last().name {
                    None => Err(RowJsonError::MissingColumnName),
                    Some(n) => if !keep[i] {
                        Ok(prev)
                    } else {
                        match row.last().value {
                            None => Err(RowJsonError::ValueNotFound),
                            Some(v) => Ok(prev.push((n@, field_of(cols[i], json[i], v@, expand)))),
                        }
                    },
                }
            },
        }
    }
}

/// Whether each column of the row that the filter may keep is the table's column at the
/// same place.
pub open spec fn row_matches<F: Fn(&str) -> bool>(cols: Seq<Column>, json: Seq<bool>, row: Seq<RowCell>, filter: F) -> bool {
    forall|i: int, s: &str|
        #![trigger row[i], filter.ensures((s,), true)]
        0 <= i < row.len() && row[i].name is Some && s@ == row[i].name->0@ && filter.ensures((s,), true)
            ==> i < cols.len() && i < json.len() && s@ == cols[i].name@
}

/// Whether `keep[i]` is what the filter answered for the name of the `i`-th column, for
/// each named column among the first `keep.len()`.
pub open spec fn filter_answers<F: Fn(&str) -> bool>(row: Seq<RowCell>, filter: F, keep: Seq<bool>) -> bool {
    forall|i: int|
        0 <= i < keep.len() && (#[trigger] row[i]).name is Some ==> exists|s: &str|
            s@ == row[i].name->0@ && filter.ensures((s,), keep[i])
}

/// With a filter that keeps only names not starting with `_` (as `column_filter` does),
/// a record's object never shows such a column.
pub proof fn lemma_hidden_columns_stay_hidden(
    cols: Seq<Column>,
    json: Seq<bool>,
    row: Seq<RowCell>,
    expand: Option<Seq<(String, Option<String>)>>,
    keep: Seq<bool>,
)
    requires
        forall|i: int|
            0 <= i < row.len() && (#[trigger] row[i]).name is Some && keep[i] ==> shown(row[i].name->0@),
    ensures
        row_plan(cols, json, row, expand, keep) matches Ok(fs) ==> forall|k: int|
            0 <= k < fs.len() ==> shown(#[trigger] fs[k].0),
    decreases row.len(),
{
    if row.len() > 0 {
        let init = row.drop_last();
        assert forall|i: int| 0 <= i < init.len() && (#[trigger] init[i]).name is Some && keep[i] implies shown(
            init[i].name->0@,
        ) by {
            assert(init[i] == row[i]);
        }
        lemma_hidden_columns_stay_hidden(cols, json, init, expand, keep);
        assert(row[row.len() - 1] == row.last());
    }
}

/// The plan of a row reads only the answers for its own columns.
proof fn lemma_plan_keep(
    cols: Seq<Column>,
    json: Seq<bool>,
    row: Seq<RowCell>,
    expand: Option<Seq<(String, Option<String>)>>,
    k1: Seq<bool>,
    k2: Seq<bool>,
)
    requires
        forall|j: int| 0 <= j < row.len() ==> k1[j] == k2[j],
    ensures
        row_plan(cols, json, row, expand, k1) == row_plan(cols, json, row, expand, k2),
    decreases row.len(),
{
    if row.len() > 0 {
        lemma_plan_keep(cols, json, row.drop_last(), expand, k1, k2);
    }
}

pub open spec fn fields_view(f: Seq<(String, FieldJson)>) -> Seq<(Seq<char>, FieldJsonV)> {
    f.map_values(|e: (String, FieldJson)| (e.0@, e.1@))
}

proof fn lemma_row_error_stays(
    cols: Seq<Column>,
    json: Seq<bool>,
    row: Seq<RowCell>,
    expand: Option<Seq<(String, Option<String>)>>,
    keep: Seq<bool>,
    j: int,
    m: int,
)
    requires
        0 <= j <= m <= row.len(),
        row_plan(cols, json, row.take(j), expand, keep) is Err,
    ensures
        row_plan(cols, json, row.take(m), expand, keep) == row_plan(cols, json, row.take(j), expand, keep),
    decreases m - j,
{
    if m > j {
        lemma_row_error_stays(cols, json, row, expand, keep, j, m - 1);
        assert(row.take(m).drop_last() =~= row.take(m - 1));
    }
}

fn has_foreign_key(options: &Vec<ColumnOption>) -> (r: bool)
    ensures
        r == is_foreign_key(options@),
{
    let mut k: usize = 0;
    while k < options.len()
        invariant
            k <= options@.len(),
            forall|j: int| 0 <= j < k ==> !(options@[j] is ForeignKey),
        decreases options.len() - k,
    {
        if matches!(options[k], ColumnOption::ForeignKey { .. }) {
            return true;
        }
        k += 1;
    }
    false
}

fn find_expansion(e: &Vec<(String, Option<String>)>, name: &str) -> (r: Option<Option<String>>)
    ensures
        match r {
            Some(d) => expansion_of(e@, name@) == Some(opt_text(d)),
            None => expansion_of(e@, name@) is None,
        },
{
    let mut i: usize = e.len();
    proof {
        assert(e@.take(i as int) =~= e@);
    }
    while i > 0
        invariant
            i <= e@.len(),
            expansion_of(e@, name@) == expansion_of(e@.take(i as int), name@),
        decreases i,
    {
        proof {
            assert(e@.take(i as int).drop_last() =~= e@.take(i - 1));
        }
        if str_eq(e[i - 1].0.as_str(), name) {
            return match &e[i - 1].1 {
                Some(d) => Some(Some(d.clone())),
                None => Some(None),
            };
        }
        i -= 1;
    }
    None
}

fn field(col: &Column, is_json: bool, v: &SqlValue, expand: Option<&Vec<(String, Option<String>)>>) -> (r: FieldJson)
    ensures
        r@ == field_of(
            *col,
            is_json,
            v@,
            match expand {
                Some(e) => Some(e@),
                None => None,
            },
        ),
{
    if matches!(v, SqlValue::Null) {
        return FieldJson::Null;
    }
    if let Some(e) = expand {
        if let Some(data) = find_expansion(e, col.name.as_str()) {
            if has_foreign_key(&col.options) {
                return FieldJson::Expanded { id: v.duplicate(), data };
            }
        }
    }
    match v {
        SqlValue::Text(s) => if is_json {
            FieldJson::JsonText(s.clone())
        } else {
            FieldJson::Plain(v.duplicate())
        },
        _ => FieldJson::Plain(v.duplicate()),
    }
}

/// The fields of the JSON object for a row of `columns`, whose JSON columns are marked in
/// `is_json`, keeping the columns whose names `column_filter` accepts, with the foreign
/// records in `expand` put in place of their keys. The filter is asked about the columns in
/// order, up to the first error.
pub fn row_fields<F: Fn(&str) -> bool>(
    columns: &Vec<Column>,
    is_json: &Vec<bool>,
    row: &Vec<RowCell>,
    column_filter: F,
    expand: Option<&Vec<(String, Option<String>)>>,
) -> (r: Result<Vec<(String, FieldJson)>, RowJsonError>)
    requires
        forall|s: &str| column_filter.requires((s,)),
        row_matches(columns@, is_json@, row@, column_filter),
    ensures
        exists|keep: Seq<bool>|
            #![trigger filter_answers(row@, column_filter, keep)]
            {
                let ev = match expand {
                    Some(e) => Some(e@),
                    None => None,
                };
                &&& keep.len() <= row@.len()
                &&& filter_answers(row@, column_filter, keep)
                &&& match r {
                    Ok(f) => keep.len() == row@.len() && row_plan(columns@, is_json@, row@, ev, keep) == Ok::<
                        Seq<(Seq<char>, FieldJsonV)>,
                        RowJsonError,
                    >(fields_view(f@)),
                    Err(e) => row_plan(columns@, is_json@, row@.take(keep.len() as int), ev, keep) == Err::<
                        Seq<(Seq<char>, FieldJsonV)>,
                        RowJsonError,
                    >(e),
                }
            },
{
    let ghost ev = match expand {
        Some(e) => Some(e@),
        None => None,
    };
    let ghost mut keep: Seq<bool> = Seq::empty();
    let mut out: Vec<(String, FieldJson)> = Vec::new();
    let mut i: usize = 0;
    proof {
        assert(row@.take(0) =~= Seq::<RowCell>::empty());
        assert(fields_view(out@) =~= Seq::<(Seq<char>, FieldJsonV)>::empty());
    }
    while i < row.len()
        invariant
            i <= row@.len(),
            keep.len() == i,
            forall|s: &str| column_filter.requires((s,)),
            row_matches(columns@, is_json@, row@, column_filter),
            filter_answers(row@, column_filter, keep),
            ev == match expand {
                Some(e) => Some(e@),
                None => None,
            },
            row_plan(columns@, is_json@, row@.take(i as int), ev, keep) == Ok::<
                Seq<(Seq<char>, FieldJsonV)>,
                RowJsonError,
            >(fields_view(out@)),
        decreases row.len() - i,
    {
        proof {
            assert(row@.take(i + 1).drop_last() =~= row@.take(i as int));
            assert(row@.take(i + 1).last() == row@[i as int]);
        }
        let ghost old_keep = keep;
        let cell = &row[i];
        let err: Option<RowJsonError> = match &cell.name {
            None => {
                proof {
                    keep = keep.push(false);
                }
                Some(RowJsonError::MissingColumnName)
            },
            Some(n) => {
                let nm = n.as_str();
                let kept = column_filter(nm);
                proof {
                    keep = keep.push(kept);
                    assert(column_filter.ensures((nm,), kept));
                    assert forall|j: int| 0 <= j < keep.len() && (#[trigger] row@[j]).name is Some implies exists|
                        s: &str,
                    | s@ == row@[j].name->0@ && column_filter.ensures((s,), keep[j]) by {
                        if j < i {
                            assert(keep[j] == old_keep[j]);
                        } else {
                            assert(nm@ == row@[j].name->0@ && column_filter.ensures((nm,), keep[j]));
                        }
                    }
                }
                if !kept {
                    None
                } else {
                    match &cell.value {
                        None => Some(RowJsonError::ValueNotFound),
                        Some(v) => {
                            proof {
                                assert(row@[i as int].name->0@ == nm@);
                                assert(i < columns@.len() && i < is_json@.len());
                            }
                            let f = field(&columns[i], is_json[i], v, expand);
                            let ghost before = out@;
                            out.push((n.clone(), f));
                            proof {
                                assert(fields_view(out@) =~= fields_view(before).push((n@, f@)));
                            }
                            None
                        },
                    }
                }
            },
        };
        proof {
            lemma_plan_keep(columns@, is_json@, row@.take(i as int), ev, old_keep, keep);
            assert forall|j: int| 0 <= j < keep.len() && (#[trigger] row@[j]).name is Some implies exists|s: &str|
                s@ == row@[j].name->0@ && column_filter.ensures((s,), keep[j]) by {
                if j < i {
                    assert(keep[j] == old_keep[j]);
                    assert(filter_answers(row@, column_filter, old_keep));
                    assert(row@[j].name is Some);
                }
            }
        }
        if let Some(e) = err {
            proof {
                assert(row@.take(keep.len() as int) == row@.take(i + 1));
                assert(row_plan(columns@, is_json@, row@.take(keep.len() as int), ev, keep) == Err::<
                    Seq<(Seq<char>, FieldJsonV)>,
                    RowJsonError,
                >(e));
                assert(filter_answers(row@, column_filter, keep));
            }
            return Err(e);
        }
        i += 1;
    }
    proof {
        assert(row@.take(row@.len() as int) =~= row@);
        assert(filter_answers(row@, column_filter, keep));
    }
    Ok(out)
}

} // verus!

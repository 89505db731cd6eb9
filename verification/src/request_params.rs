//! Which column each field of a record request goes to, and how its JSON value is stored:
//! as a plain SQL value, as uploaded files, or as JSON text checked against the column's
//! schema.
use vstd::prelude::*;

use crate::json_params::{
    blob_bytes, blob_error, params_error_view, simple_json_value, simple_json_value_to_param,
    try_json_array_to_blob, JsonValue, ParamsErrorV,
};
use crate::record_api::{column_index_by_name, last_index_of};
use crate::records::{ParamsError, SqlValue, SqlValueV};
use crate::schema::{Column, ColumnDataType};
use crate::text::str_eq;

verus! {

/// The JSON schema a column's values must meet: a named schema, or one given inline.
#[derive(Clone, Debug, PartialEq)]
pub enum JsonColumnMeta {
    SchemaName(String),
    Pattern,
}

/// How one request value is stored.
#[derive(Clone, Debug, PartialEq)]
pub enum JsonParam {
    /// This SQL value.
    Value(SqlValue),
    /// One uploaded file given inline: its metadata is stored as JSON text.
    FileUpload,
    /// A list of uploaded files given inline: their metadata is stored as JSON text.
    FileUploads,
    /// The value's JSON text, once it meets the column's schema.
    SchemaText,
}

pub ghost enum JsonParamV {
    Value(SqlValueV),
    FileUpload,
    FileUploads,
    SchemaText,
}

impl View for JsonParam {
    type V = JsonParamV;

    open spec fn view(&self) -> JsonParamV {
        match self {
            JsonParam::Value(v) => JsonParamV::Value(v@),
            JsonParam::FileUpload => JsonParamV::FileUpload,
            JsonParam::FileUploads => JsonParamV::FileUploads,
            JsonParam::SchemaText => JsonParamV::SchemaText,
        }
    }
}

/// Whether the column's schema is the named schema `name`.
pub open spec fn is_schema_named(meta: Option<JsonColumnMeta>, name: Seq<char>) -> bool {
    meta matches Some(JsonColumnMeta::SchemaName(n)) && n@ == name
}

/// How a value for the column `col` of type `t` is stored. Objects go to text columns
/// with a schema only; arrays are bytes for blob columns and need a schema for text
/// columns; other values are converted directly.
pub open spec fn json_param_of(
    t: ColumnDataType,
    col: Seq<char>,
    meta: Option<JsonColumnMeta>,
    v: JsonValue,
) -> Result<JsonParamV, ParamsErrorV> {
    match v {
        JsonValue::Object => if !(t is Text) {
            Err(ParamsErrorV::NestedObject("Column data mismatch for: "@ + col))
        } else if meta is None {
            Err(ParamsErrorV::NestedObject("Plain text column w/o JSON: "@ + col))
        } else if is_schema_named(meta, "std.FileUpload"@) {
            Ok(JsonParamV::FileUpload)
        } else {
            Ok(JsonParamV::SchemaText)
        },
        JsonValue::Array(arr) => if t is Blob {
            match blob_error(arr@) {
                None => Ok(JsonParamV::Value(SqlValueV::Blob(blob_bytes(arr@)))),
                Some(e) => Err(e),
            }
        } else if t is Text && meta is Some {
            if is_schema_named(meta, "std.FileUploads"@) {
                Ok(JsonParamV::FileUploads)
            } else {
                Ok(JsonParamV::SchemaText)
            }
        } else {
            Err(ParamsErrorV::NestedArray("Received nested array for unsuitable column: "@ + col))
        },
        _ => match simple_json_value(t, v) {
            Ok(x) => Ok(JsonParamV::Value(x)),
            Err(e) => Err(e),
        },
    }
}

fn message(prefix: &str, col: &str) -> (r: String)
    ensures
        r@ == prefix@ + col@,
{
    let mut m = String::from_str(prefix);
    m.append(col);
    m
}

fn is_named(meta: &Option<JsonColumnMeta>, name: &str) -> (r: bool)
    ensures
        r == is_schema_named(*meta, name@),
{
    match meta {
        Some(JsonColumnMeta::SchemaName(n)) => str_eq(n.as_str(), name),
        _ => false,
    }
}

/// How the request value `value` for `col` is stored, given the column's schema `meta`.
pub fn json_param(col: &Column, meta: &Option<JsonColumnMeta>, value: JsonValue) -> (r: Result<
    JsonParam,
    ParamsError,
>)
    ensures
        match r {
            Ok(p) => json_param_of(col.data_type, col.name@, *meta, value) == Ok::<
                JsonParamV,
                ParamsErrorV,
            >(p@),
            Err(e) => json_param_of(col.data_type, col.name@, *meta, value) == Err::<
                JsonParamV,
                ParamsErrorV,
            >(params_error_view(e)),
        },
{
    let ghost v = value;
    match value {
        JsonValue::Object => {
            if !matches!(col.data_type, ColumnDataType::Text) {
                Err(ParamsError::NestedObject(message("Column data mismatch for: ", col.name.as_str())))
            } else if meta.is_none() {
                Err(ParamsError::NestedObject(message("Plain text column w/o JSON: ", col.name.as_str())))
            } else if is_named(meta, "std.FileUpload") {
                Ok(JsonParam::FileUpload)
            } else {
                Ok(JsonParam::SchemaText)
            }
        },
        JsonValue::Array(arr) => {
            if matches!(col.data_type, ColumnDataType::Blob) {
                match try_json_array_to_blob(&arr) {
                    Ok(x) => Ok(JsonParam::Value(x)),
                    Err(e) => Err(e),
                }
            } else if matches!(col.data_type, ColumnDataType::Text) && meta.is_some() {
                if is_named(meta, "std.FileUploads") {
                    Ok(JsonParam::FileUploads)
                } else {
                    Ok(JsonParam::SchemaText)
                }
            } else {
                Err(ParamsError::NestedArray(message("Received nested array for unsuitable column: ", col.name.as_str())))
            }
        },
        _ => {
            match simple_json_value_to_param(col.data_type, value) {
                Ok(x) => Ok(JsonParam::Value(x)),
                Err(e) => Err(e),
            }
        },
    }
}


/// A request field that goes to a column: the column's index and name, and how its value
/// is stored.
#[derive(Clone, Debug, PartialEq)]
pub struct PlannedParam {
    pub index: usize,
    pub name: String,
    pub param: JsonParam,
}

pub open spec fn planned_view(p: PlannedParam) -> (int, Seq<char>, JsonParamV) {
    (p.index as int, p.name@, p.param@)
}

/// The fields of `row` that name a column, in order, with how each is stored; fields for
/// unknown columns are skipped, and the first value that cannot be stored decides the
/// error.
pub open spec fn params_plan(
    cols: Seq<Column>,
    metas: Seq<Option<JsonColumnMeta>>,
    row: Seq<(String, JsonValue)>,
) -> Result<Seq<(int, Seq<char>, JsonParamV)>, ParamsErrorV>
    decreases row.len(),
{
    if row.len() == 0 {
        Ok(Seq::empty())
    } else {
        match params_plan(cols, metas, row.drop_last()) {
            Err(e) => Err(e),
            Ok(prev) => match last_index_of(cols, row.last().0@) {
                None => Ok(prev),
                Some(i) => match json_param_of(cols[i].data_type, cols[i].name@, metas[i], row.last().1) {
                    Err(e) => Err(e),
                    Ok(p) => Ok(prev.push((i, row.last().0@, p))),
                },
            },
        }
    }
}

proof fn lemma_plan_error_stays(
    cols: Seq<Column>,
    metas: Seq<Option<JsonColumnMeta>>,
    row: Seq<(String, JsonValue)>,
    j: int,
    m: int,
)
    requires
        0 <= j <= m <= row.len(),
        params_plan(cols, metas, row.take(j)) is Err,
    ensures
        params_plan(cols, metas, row.take(m)) == params_plan(cols, metas, row.take(j)),
    decreases m - j,
{
    if m > j {
        lemma_plan_error_stays(cols, metas, row, j, m - 1);
        assert(row.take(m).drop_last() =~= row.take(m - 1));
    }
}

/// The columns and stored forms of the fields of a request body, in order.
pub fn plan_params(
    columns: &Vec<Column>,
    metas: &Vec<Option<JsonColumnMeta>>,
    row: Vec<(String, JsonValue)>,
) -> (r: Result<Vec<PlannedParam>, ParamsError>)
    requires
        metas@.len() == columns@.len(),
    ensures
        match r {
            Ok(ps) => params_plan(columns@, metas@, row@) == Ok::<
                Seq<(int, Seq<char>, JsonParamV)>,
                ParamsErrorV,
            >(ps@.map_values(|p: PlannedParam| planned_view(p))),
            Err(e) => params_plan(columns@, metas@, row@) == Err::<
                Seq<(int, Seq<char>, JsonParamV)>,
                ParamsErrorV,
            >(params_error_view(e)),
        },
{
    let ghost all = row@;
    let n = row.len();
    let mut rest = row;
    let mut out: Vec<PlannedParam> = Vec::new();
    let mut k: usize = 0;
    proof {
        assert(all.skip(0) =~= all);
        assert(all.take(0) =~= Seq::<(String, JsonValue)>::empty());
        assert(out@.map_values(|p: PlannedParam| planned_view(p)) =~= Seq::<
            (int, Seq<char>, JsonParamV),
        >::empty());
    }
    while k < n
        invariant
            n == all.len(),
            all == row@,
            k <= n,
            metas@.len() == columns@.len(),
            rest@ == all.skip(k as int),
            params_plan(columns@, metas@, all.take(k as int)) == Ok::<
                Seq<(int, Seq<char>, JsonParamV)>,
                ParamsErrorV,
            >(out@.map_values(|p: PlannedParam| planned_view(p))),
        decreases n - k,
    {
        let (key, value) = rest.remove(0);
        proof {
            assert(all[k as int] == (key, value));
            assert(all.skip(k + 1) =~= all.skip(k as int).drop_first());
            assert(all.take(k + 1).drop_last() =~= all.take(k as int));
            assert(all.take(k + 1).last() == all[k as int]);
        }
        match column_index_by_name(columns, key.as_str()) {
            None => {},
            Some(i) => {
                proof {
                    lemma_index_in_range(columns@, key@);
                }
                match json_param(&columns[i], &metas[i], value) {
                    Ok(p) => {
                        let ghost before = out@;
                        out.push(PlannedParam { index: i, name: key, param: p });
                        proof {
                            assert(out@.map_values(|p: PlannedParam| planned_view(p)) =~= before.map_values(
                                |p: PlannedParam| planned_view(p),
                            ).push((i as int, key@, p@)));
                        }
                    },
                    Err(e) => {
                        proof {
                            assert(params_plan(columns@, metas@, all.take(k + 1)) == Err::<
                                Seq<(int, Seq<char>, JsonParamV)>,
                                ParamsErrorV,
                            >(params_error_view(e)));
                            lemma_plan_error_stays(columns@, metas@, all, k + 1, all.len() as int);
                            assert(all.take(all.len() as int) =~= all);
                        }
                        return Err(e);
                    },
                }
            },
        }
        k += 1;
    }
    proof {
        assert(all.take(n as int) =~= all);
    }
    Ok(out)
}

proof fn lemma_index_in_range(cols: Seq<Column>, name: Seq<char>)
    ensures
        last_index_of(cols, name) matches Some(i) ==> 0 <= i < cols.len() && cols[i].name@ == name,
    decreases cols.len(),
{
    if cols.len() > 0 {
        lemma_index_in_range(cols.drop_last(), name);
    }
}


/// Whether every uploaded file names the field it is for.
pub open spec fn all_named(names: Seq<Option<String>>) -> bool {
    forall|i: int| 0 <= i < names.len() ==> (#[trigger] names[i]) is Some
}

pub open spec fn field_names(names: Seq<Option<String>>) -> Seq<Seq<char>> {
    names.map_values(|o: Option<String>| o->0@)
}

/// The columns that uploaded files for the fields `names` go to, in order. Files for
/// unknown columns are skipped; a column must have the single-file or the file-list
/// schema, and takes one file when it has the single-file schema.
pub open spec fn uploads_plan(
    cols: Seq<Column>,
    metas: Seq<Option<JsonColumnMeta>>,
    names: Seq<Seq<char>>,
) -> Result<Seq<int>, ParamsErrorV>
    decreases names.len(),
{
    if names.len() == 0 {
        Ok(Seq::empty())
    } else {
        match uploads_plan(cols, metas, names.drop_last()) {
            Err(e) => Err(e),
            Ok(prev) => match last_index_of(cols, names.last()) {
                None => Ok(prev),
                Some(i) => if !(metas[i] matches Some(JsonColumnMeta::SchemaName(_))) {
                    Err(ParamsErrorV::Column("Expected json column"@))
                } else if is_schema_named(metas[i], "std.FileUpload"@) {
                    if prev.contains(i) {
                        Err(ParamsErrorV::Column("Collision: too many files for std.FileUpload"@))
                    } else {
                        Ok(prev.push(i))
                    }
                } else if is_schema_named(metas[i], "std.FileUploads"@) {
                    Ok(prev.push(i))
                } else {
                    Err(ParamsErrorV::Column("Mismatching JSON schema"@))
                },
            },
        }
    }
}

/// The columns that files uploaded with a multipart form go to: every file must name its
/// field.
pub open spec fn multipart_plan(
    cols: Seq<Column>,
    metas: Seq<Option<JsonColumnMeta>>,
    names: Seq<Option<String>>,
) -> Result<Seq<int>, ParamsErrorV> {
    if !all_named(names) {
        Err(ParamsErrorV::Column("Multipart form upload missing name property"@))
    } else {
        uploads_plan(cols, metas, field_names(names))
    }
}

proof fn lemma_uploads_error_stays(
    cols: Seq<Column>,
    metas: Seq<Option<JsonColumnMeta>>,
    names: Seq<Seq<char>>,
    j: int,
    m: int,
)
    requires
        0 <= j <= m <= names.len(),
        uploads_plan(cols, metas, names.take(j)) is Err,
    ensures
        uploads_plan(cols, metas, names.take(m)) == uploads_plan(cols, metas, names.take(j)),
    decreases m - j,
{
    if m > j {
        lemma_uploads_error_stays(cols, metas, names, j, m - 1);
        assert(names.take(m).drop_last() =~= names.take(m - 1));
    }
}

fn contains_index(v: &Vec<usize>, x: usize) -> (r: bool)
    ensures
        r == v@.map_values(|i: usize| i as int).contains(x as int),
{
    let ghost w = v@.map_values(|i: usize| i as int);
    let mut k: usize = 0;
    while k < v.len()
        invariant
            k <= v@.len(),
            w == v@.map_values(|i: usize| i as int),
            forall|j: int| 0 <= j < k ==> v@[j] != x,
        decreases v.len() - k,
    {
        if v[k] == x {
            proof {
                assert(w[k as int] == x as int);
            }
            return true;
        }
        k += 1;
    }
    proof {
        if w.contains(x as int) {
            let j = choose|j: int| 0 <= j < w.len() && w[j] == x as int;
            assert(v@[j] == x);
        }
    }
    false
}

/// The columns that the files of a multipart form go to, given the field each file names.
pub fn multipart_file_columns(
    columns: &Vec<Column>,
    metas: &Vec<Option<JsonColumnMeta>>,
    names: &Vec<Option<String>>,
) -> (r: Result<Vec<usize>, ParamsError>)
    requires
        metas@.len() == columns@.len(),
    ensures
        match r {
            Ok(cs) => multipart_plan(columns@, metas@, names@) == Ok::<Seq<int>, ParamsErrorV>(
                cs@.map_values(|i: usize| i as int),
            ),
            Err(e) => multipart_plan(columns@, metas@, names@) == Err::<Seq<int>, ParamsErrorV>(
                params_error_view(e),
            ),
        },
{
    let mut k: usize = 0;
    while k < names.len()
        invariant
            k <= names@.len(),
            forall|j: int| 0 <= j < k ==> (#[trigger] names@[j]) is Some,
        decreases names.len() - k,
    {
        if names[k].is_none() {
            return Err(ParamsError::Column("Multipart form upload missing name property"));
        }
        k += 1;
    }
    let ghost fs = field_names(names@);
    let mut out: Vec<usize> = Vec::new();
    let mut k: usize = 0;
    proof {
        assert(fs.take(0) =~= Seq::<Seq<char>>::empty());
        assert(out@.map_values(|i: usize| i as int) =~= Seq::<int>::empty());
    }
    while k < names.len()
        invariant
            k <= names@.len(),
            fs == field_names(names@),
            all_named(names@),
            metas@.len() == columns@.len(),
            uploads_plan(columns@, metas@, fs.take(k as int)) == Ok::<Seq<int>, ParamsErrorV>(
                out@.map_values(|i: usize| i as int),
            ),
        decreases names.len() - k,
    {
        let name: &str = match &names[k] {
            Some(n) => n.as_str(),
            None => "",
        };
        proof {
            assert(names@[k as int] is Some);
            assert(fs[k as int] == name@);
            assert(fs.take(k + 1).drop_last() =~= fs.take(k as int));
            assert(fs.take(k + 1).last() == fs[k as int]);
        }
        match column_index_by_name(columns, name) {
            None => {},
            Some(i) => {
                proof {
                    lemma_index_in_range(columns@, name@);
                }
                let err: Option<&'static str> = match &metas[i] {
                    Some(JsonColumnMeta::SchemaName(s)) => {
                        if str_eq(s.as_str(), "std.FileUpload") {
                            if contains_index(&out, i) {
                                Some("Collision: too many files for std.FileUpload")
                            } else {
                                None
                            }
                        } else if str_eq(s.as_str(), "std.FileUploads") {
                            None
                        } else {
                            Some("Mismatching JSON schema")
                        }
                    },
                    _ => Some("Expected json column"),
                };
                match err {
                    Some(m) => {
                        proof {
                            assert(uploads_plan(columns@, metas@, fs.take(k + 1)) == Err::<
                                Seq<int>,
                                ParamsErrorV,
                            >(ParamsErrorV::Column(m@)));
                            lemma_uploads_error_stays(columns@, metas@, fs, k + 1, fs.len() as int);
                            assert(fs.take(fs.len() as int) =~= fs);
                        }
                        return Err(ParamsError::Column(m));
                    },
                    None => {
                        let ghost before = out@;
                        out.push(i);
                        proof {
                            assert(out@.map_values(|i: usize| i as int) =~= before.map_values(
                                |i: usize| i as int,
                            ).push(i as int));
                        }
                    },
                }
            },
        }
        k += 1;
    }
    proof {
        assert(fs.take(names@.len() as int) =~= fs);
    }
    Ok(out)
}

} // verus!

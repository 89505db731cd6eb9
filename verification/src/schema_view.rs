//! SQL views and the inference of their columns from the tables they select from.
use vstd::prelude::*;
use vstd::view::View as _;

use crate::schema::{
    copy_options, data_type_from_upper, options_view, Column, ColumnDataType, ColumnOption,
    ColumnOptionV, ColumnV, SchemaError, Table,
};
use crate::statement::{ParsedResultColumn, ParsedSelect, ParsedSource, ParsedStatement};
use crate::text::{str_eq, uppercase};

verus! {

/// A view: its query and, where they can be inferred, its columns.
#[derive(Clone, Debug, PartialEq)]
pub struct View {
    pub name: String,
    /// Views may select from anything, so their columns are known only for simple views over
    /// strict tables.
    pub columns: Option<Vec<Column>>,
    pub query: String,
    pub temporary: bool,
    pub if_not_exists: bool,
}

/// The table column a view column stands for.
#[derive(Clone, Debug, PartialEq)]
pub struct ReferredColumn {
    pub table_name: String,
    pub column_name: String,
}

/// A view column and the table column it comes from, if any.
#[derive(Clone, Debug, PartialEq)]
pub struct ColumnMapping {
    pub column: Column,
    pub referred_column: Option<ReferredColumn>,
}

/// Abstract value of a column mapping: the column, and the table and column it refers to.
pub ghost struct MappingV {
    pub column: ColumnV,
    pub referred: Option<(Seq<char>, Seq<char>)>,
}

pub open spec fn mapping_view(m: ColumnMapping) -> MappingV {
    MappingV {
        column: m.column@,
        referred: match m.referred_column {
            Some(r) => Some((r.table_name@, r.column_name@)),
            None => None,
        },
    }
}

pub open spec fn mappings_view(ms: Seq<ColumnMapping>) -> Seq<MappingV> {
    ms.map_values(|m: ColumnMapping| mapping_view(m))
}

/// Outcome of inferring a view's columns: not inferable, refused with a message, or the
/// columns.
pub ghost enum ExtractV {
    Unmapped,
    Failed(Seq<char>),
    Mapped(Seq<MappingV>),
}

/// Index of the last table named `name`, or -1 when there is none: a later table of the
/// same name hides an earlier one.
pub open spec fn table_index(tables: Seq<Table>, name: Seq<char>) -> int
    decreases tables.len(),
{
    if tables.len() == 0 {
        -1
    } else if tables.last().name@ == name {
        tables.len() - 1
    } else {
        table_index(tables.drop_last(), name)
    }
}

/// Index of the entry with key `k`, or the number of entries when there is none.
pub open spec fn key_index(m: Seq<(Seq<char>, Seq<char>)>, k: Seq<char>) -> int
    decreases m.len(),
{
    if m.len() == 0 {
        0
    } else if m[0].0 == k {
        0
    } else {
        1 + key_index(m.drop_first(), k)
    }
}

/// Inserting into an insertion-ordered map: an existing key keeps its place and takes the
/// new value, a new key goes last.
pub open spec fn source_insert(m: Seq<(Seq<char>, Seq<char>)>, k: Seq<char>, v: Seq<char>) -> Seq<
    (Seq<char>, Seq<char>),
> {
    let i = key_index(m, k);
    if i < m.len() {
        m.update(i, (k, v))
    } else {
        m.push((k, v))
    }
}

/// The tables of a `FROM` clause by the names they are referred to by.
pub open spec fn source_map(srcs: Seq<ParsedSource>) -> Seq<(Seq<char>, Seq<char>)>
    decreases srcs.len(),
{
    if srcs.len() == 0 {
        seq![]
    } else {
        source_insert(source_map(srcs.drop_last()), srcs.last().key@, srcs.last().name@)
    }
}

pub open spec fn source_names(m: Seq<(Seq<char>, Seq<char>)>) -> Seq<Seq<char>> {
    m.map_values(|e: (Seq<char>, Seq<char>)| e.1)
}

/// The first referenced table, in order, that stops inference: a missing table refuses it,
/// a non-strict table leaves the columns unknown.
pub open spec fn sources_check(names: Seq<Seq<char>>, tables: Seq<Table>) -> Option<ExtractV>
    decreases names.len(),
{
    if names.len() == 0 {
        None
    } else {
        match sources_check(names.drop_last(), tables) {
            Some(x) => Some(x),
            None => {
                let i = table_index(tables, names.last());
                if i < 0 {
                    Some(ExtractV::Failed("View's SELECT references missing table: "@ + names.last()))
                } else if !tables[i].strict {
                    Some(ExtractV::Unmapped)
                } else {
                    None
                }
            },
        }
    }
}

/// All columns of a table, each referring to itself.
pub open spec fn table_mappings(t: Table) -> Seq<MappingV> {
    t.columns@.map_values(|c: Column| MappingV { column: c@, referred: Some((t.name@, c.name@)) })
}

/// All columns of the referenced tables, table by table in order.
pub open spec fn star_mappings(names: Seq<Seq<char>>, tables: Seq<Table>) -> Seq<MappingV>
    decreases names.len(),
{
    if names.len() == 0 {
        seq![]
    } else {
        star_mappings(names.drop_last(), tables) + table_mappings(
            tables[table_index(tables, names.last())],
        )
    }
}

/// Index of the last mapping whose column is named `name`, or -1: a bare column name
/// resolves to the last referenced table that has it.
pub open spec fn last_named(ms: Seq<MappingV>, name: Seq<char>) -> int
    decreases ms.len(),
{
    if ms.len() == 0 {
        -1
    } else if ms.last().column.name == name {
        ms.len() - 1
    } else {
        last_named(ms.drop_last(), name)
    }
}

/// Index of the first column named `name`, or the number of columns.
pub open spec fn first_column(cs: Seq<Column>, name: Seq<char>) -> int
    decreases cs.len(),
{
    if cs.len() == 0 {
        0
    } else if cs[0].name@ == name {
        0
    } else {
        1 + first_column(cs.drop_first(), name)
    }
}

/// A column under a new name, if one is given.
pub open spec fn renamed(c: ColumnV, alias: Option<String>) -> ColumnV {
    match alias {
        Some(a) => ColumnV { name: a@, ..c },
        None => c,
    }
}

/// The message for a `CAST` without a known type.
pub open spec fn missing_cast_type() -> Seq<char> {
    "Missing type"@ + "_name in cast"@
}

/// The view columns of one result column.
pub open spec fn map_one(c: ParsedResultColumn, m: Seq<(Seq<char>, Seq<char>)>, tables: Seq<Table>) -> ExtractV {
    match c {
        ParsedResultColumn::Star => ExtractV::Mapped(star_mappings(source_names(m), tables)),
        ParsedResultColumn::TableStar(name) => {
            let i = key_index(m, name@);
            if i >= m.len() {
                ExtractV::Failed("Missing alias: "@ + name@)
            } else {
                ExtractV::Mapped(table_mappings(tables[table_index(tables, m[i].1)]))
            }
        },
        ParsedResultColumn::Id { name, debug, alias } => {
            let all = star_mappings(source_names(m), tables);
            let j = last_named(all, name@);
            if j < 0 {
                ExtractV::Failed("Missing columns: "@ + debug@)
            } else {
                ExtractV::Mapped(seq![MappingV { column: renamed(all[j].column, alias), referred: all[j].referred }])
            }
        },
        ParsedResultColumn::Qualified { qualifier, name, alias } => {
            let i = key_index(m, qualifier@);
            if i >= m.len() {
                ExtractV::Failed("Missing table with qualifier: "@ + qualifier@)
            } else {
                let t = tables[table_index(tables, m[i].1)];
                let k = first_column(t.columns@, name@);
                if k >= t.columns@.len() {
                    ExtractV::Failed("Missing col: "@ + name@)
                } else {
                    let col = t.columns@[k];
                    ExtractV::Mapped(seq![MappingV { column: renamed(col@, alias), referred: Some((t.name@, col.name@)) }])
                }
            }
        },
        ParsedResultColumn::Cast { target, alias } => match target {
            None => ExtractV::Failed(missing_cast_type()),
            Some(t) => match data_type_from_upper(uppercase(t@)) {
                None => ExtractV::Failed(missing_cast_type()),
                Some(dt) => match alias {
                    None => ExtractV::Failed("Missing alias in cast"@),
                    Some(a) => ExtractV::Mapped(seq![MappingV {
                        column: ColumnV { name: a@, data_type: dt, options: seq![ColumnOptionV::Null] },
                        referred: None,
                    }]),
                },
            },
        },
        ParsedResultColumn::Other => ExtractV::Unmapped,
    }
}

/// The view columns of the result columns in order; the first refusal or unknown column
/// stops inference.
pub open spec fn map_columns(cs: Seq<ParsedResultColumn>, m: Seq<(Seq<char>, Seq<char>)>, tables: Seq<Table>) -> ExtractV
    decreases cs.len(),
{
    if cs.len() == 0 {
        ExtractV::Mapped(seq![])
    } else {
        match map_columns(cs.drop_last(), m, tables) {
            ExtractV::Mapped(acc) => match map_one(cs.last(), m, tables) {
                ExtractV::Mapped(x) => ExtractV::Mapped(acc + x),
                other => other,
            },
            other => other,
        }
    }
}

/// The columns of a view selecting with `sel` from `tables`: inferred only for a simple
/// select over strict tables, from `*`, `table.*`, column names, qualified column names and
/// `CAST`s with an alias.
pub open spec fn extract_columns(sel: ParsedSelect, tables: Seq<Table>) -> ExtractV {
    match sel.sources {
        None => ExtractV::Unmapped,
        Some(srcs) => {
            let m = source_map(srcs@);
            match sources_check(source_names(m), tables) {
                Some(x) => x,
                None => map_columns(sel.columns@, m, tables),
            }
        },
    }
}


pub open spec fn pairs_view(m: Seq<(String, String)>) -> Seq<(Seq<char>, Seq<char>)> {
    m.map_values(|e: (String, String)| (e.0@, e.1@))
}

proof fn lemma_key_index(m: Seq<(Seq<char>, Seq<char>)>, k: Seq<char>, i: int)
    requires
        0 <= i <= m.len(),
        forall|j: int| 0 <= j < i ==> (#[trigger] m[j]).0 != k,
        i == m.len() || m[i].0 == k,
    ensures
        key_index(m, k) == i,
    decreases i,
{
    if i > 0 {
        assert forall|j: int| 0 <= j < i - 1 implies (#[trigger] m.drop_first()[j]).0 != k by {
            assert(m.drop_first()[j] == m[j + 1]);
        }
        lemma_key_index(m.drop_first(), k, i - 1);
    }
}

fn find_key(m: &Vec<(String, String)>, k: &str) -> (r: usize)
    ensures
        r == key_index(pairs_view(m@), k@),
        r <= m@.len(),
{
    let mut i: usize = 0;
    while i < m.len() && !str_eq(m[i].0.as_str(), k)
        invariant
            i <= m.len(),
            forall|j: int| 0 <= j < i ==> (#[trigger] pairs_view(m@)[j]).0 != k@,
        decreases m.len() - i,
    {
        i += 1;
    }
    proof {
        lemma_key_index(pairs_view(m@), k@, i as int);
    }
    i
}

/// The insertion-ordered map `indexmap::IndexMap`.
#[verifier::external_type_specification]
#[verifier::external_body]
#[verifier::reject_recursive_types(K)]
#[verifier::reject_recursive_types(V)]
#[verifier::reject_recursive_types(S)]
pub struct ExIndexMap<K, V, S>(indexmap::IndexMap<K, V, S>);

/// The pairs of an `IndexMap` of strings, in insertion order.
pub uninterp spec fn index_map_pairs(m: indexmap::IndexMap<String, String>) -> Seq<(Seq<char>, Seq<char>)>;

/// `IndexMap::new`: an empty map.
#[verifier::external_body]
fn new_index_map() -> (r: indexmap::IndexMap<String, String>)
    ensures
        index_map_pairs(r) == Seq::<(Seq<char>, Seq<char>)>::empty(),
{
    indexmap::IndexMap::new()
}

/// `IndexMap::insert`: a key already present keeps its place and takes the new value; a
/// new key goes last.
#[verifier::external_body]
fn index_map_insert(m: &mut indexmap::IndexMap<String, String>, key: String, value: String)
    ensures
        index_map_pairs(*final(m)) == source_insert(index_map_pairs(*old(m)), key@, value@),
{
    m.insert(key, value);
}

/// `IndexMap::into_iter`: the pairs, in insertion order.
#[verifier::external_body]
fn index_map_into_pairs(m: indexmap::IndexMap<String, String>) -> (r: Vec<(String, String)>)
    ensures
        pairs_view(r@) == index_map_pairs(m),
{
    m.into_iter().collect()
}

fn build_source_map(srcs: &Vec<ParsedSource>) -> (r: Vec<(String, String)>)
    ensures
        pairs_view(r@) == source_map(srcs@),
{
    let mut m = new_index_map();
    let mut i: usize = 0;
    proof {
        assert(srcs@.take(0) =~= Seq::<ParsedSource>::empty());
    }
    while i < srcs.len()
        invariant
            i <= srcs.len(),
            index_map_pairs(m) == source_map(srcs@.take(i as int)),
        decreases srcs.len() - i,
    {
        proof {
            assert(srcs@.take(i + 1).drop_last() =~= srcs@.take(i as int));
            assert(srcs@.take(i + 1).last() == srcs@[i as int]);
        }
        index_map_insert(&mut m, srcs[i].key.clone(), srcs[i].name.clone());
        i += 1;
    }
    proof {
        assert(srcs@.take(i as int) =~= srcs@);
    }
    index_map_into_pairs(m)
}

proof fn lemma_table_index(tables: Seq<Table>, name: Seq<char>)
    ensures
        -1 <= table_index(tables, name) < tables.len(),
        table_index(tables, name) >= 0 ==> tables[table_index(tables, name)].name@ == name,
    decreases tables.len(),
{
    if tables.len() > 0 && tables.last().name@ != name {
        lemma_table_index(tables.drop_last(), name);
    }
}

proof fn lemma_table_index_last(tables: Seq<Table>, name: Seq<char>, i: int)
    requires
        -1 <= i < tables.len(),
        forall|j: int| i < j < tables.len() ==> (#[trigger] tables[j]).name@ != name,
        i >= 0 ==> tables[i].name@ == name,
    ensures
        table_index(tables, name) == i,
    decreases tables.len(),
{
    if tables.len() > 0 && i < tables.len() - 1 {
        lemma_table_index_last(tables.drop_last(), name, i);
    }
}

fn find_table(tables: &[Table], name: &str) -> (r: Option<usize>)
    ensures
        match r {
            Some(i) => i == table_index(tables@, name@) && i < tables@.len(),
            None => table_index(tables@, name@) == -1,
        },
{
    let mut i: usize = tables.len();
    while i > 0 && !str_eq(tables[i - 1].name.as_str(), name)
        invariant
            i <= tables@.len(),
            forall|j: int| i <= j < tables@.len() ==> (#[trigger] tables@[j]).name@ != name@,
        decreases i,
    {
        i -= 1;
    }
    proof {
        lemma_table_index_last(tables@, name@, i - 1);
    }
    if i == 0 {
        None
    } else {
        Some(i - 1)
    }
}

proof fn lemma_sources_check_stop(names: Seq<Seq<char>>, tables: Seq<Table>, k: int, x: ExtractV)
    requires
        0 <= k <= names.len(),
        sources_check(names.take(k), tables) == Some(x),
    ensures
        sources_check(names, tables) == Some(x),
    decreases names.len() - k,
{
    if k == names.len() {
        assert(names.take(k) =~= names);
    } else {
        assert(names.take(k + 1).drop_last() =~= names.take(k));
        lemma_sources_check_stop(names, tables, k + 1, x);
    }
}

/// All referenced tables exist and are strict.
pub open spec fn sources_ok(names: Seq<Seq<char>>, tables: Seq<Table>) -> bool {
    forall|j: int|
        0 <= j < names.len() ==> table_index(tables, #[trigger] names[j]) >= 0 && tables[table_index(
            tables,
            names[j],
        )].strict
}

proof fn lemma_sources_ok(names: Seq<Seq<char>>, tables: Seq<Table>)
    requires
        sources_check(names, tables) is None,
    ensures
        sources_ok(names, tables),
    decreases names.len(),
{
    if names.len() > 0 {
        lemma_sources_check_prefix(names, tables);
        lemma_sources_ok(names.drop_last(), tables);
        assert forall|j: int| 0 <= j < names.len() implies table_index(tables, #[trigger] names[j])
            >= 0 && tables[table_index(tables, names[j])].strict by {
            if j < names.len() - 1 {
                assert(names[j] == names.drop_last()[j]);
            }
        }
    }
}

proof fn lemma_sources_check_prefix(names: Seq<Seq<char>>, tables: Seq<Table>)
    requires
        names.len() > 0,
        sources_check(names, tables) is None,
    ensures
        sources_check(names.drop_last(), tables) is None,
{
}

fn copy_mapping(m: &ColumnMapping) -> (r: ColumnMapping)
    ensures
        mapping_view(r) == mapping_view(*m),
{
    ColumnMapping {
        column: m.column.duplicate(),
        referred_column: match &m.referred_column {
            Some(rc) => Some(ReferredColumn { table_name: rc.table_name.clone(), column_name: rc.column_name.clone() }),
            None => None,
        },
    }
}

fn push_table_mappings(out: &mut Vec<ColumnMapping>, t: &Table)
    ensures
        mappings_view(final(out)@) == mappings_view(old(out)@) + table_mappings(*t),
{
    let ghost start = mappings_view(out@);
    let mut i: usize = 0;
    proof {
        assert(t.columns@.take(0) =~= Seq::<Column>::empty());
        assert(start + Seq::<Column>::empty().map_values(
            |c: Column| MappingV { column: c@, referred: Some((t.name@, c.name@)) },
        ) =~= start);
    }
    while i < t.columns.len()
        invariant
            i <= t.columns@.len(),
            mappings_view(out@) == start + t.columns@.take(i as int).map_values(
                |c: Column| MappingV { column: c@, referred: Some((t.name@, c.name@)) },
            ),
        decreases t.columns.len() - i,
    {
        let c = &t.columns[i];
        let m = ColumnMapping {
            column: c.duplicate(),
            referred_column: Some(ReferredColumn { table_name: t.name.clone(), column_name: c.name.clone() }),
        };
        proof {
            assert(mappings_view(out@.push(m)) =~= mappings_view(out@).push(mapping_view(m)));
            assert(t.columns@.take(i + 1).map_values(
                |c: Column| MappingV { column: c@, referred: Some((t.name@, c.name@)) },
            ) =~= t.columns@.take(i as int).map_values(
                |c: Column| MappingV { column: c@, referred: Some((t.name@, c.name@)) },
            ).push(mapping_view(m)));
        }
        out.push(m);
        i += 1;
    }
    proof {
        assert(t.columns@.take(i as int) =~= t.columns@);
    }
}

fn star_list(m: &Vec<(String, String)>, tables: &[Table]) -> (r: Vec<ColumnMapping>)
    requires
        sources_ok(source_names(pairs_view(m@)), tables@),
    ensures
        mappings_view(r@) == star_mappings(source_names(pairs_view(m@)), tables@),
{
    let ghost names = source_names(pairs_view(m@));
    let mut out: Vec<ColumnMapping> = Vec::new();
    let mut j: usize = 0;
    proof {
        assert(names.take(0) =~= Seq::<Seq<char>>::empty());
        assert(mappings_view(out@) =~= Seq::<MappingV>::empty());
    }
    while j < m.len()
        invariant
            names == source_names(pairs_view(m@)),
            names.len() == m@.len(),
            sources_ok(names, tables@),
            j <= m.len(),
            mappings_view(out@) == star_mappings(names.take(j as int), tables@),
        decreases m.len() - j,
    {
        let ti = find_table(tables, m[j].1.as_str());
        proof {
            assert(names[j as int] == m@[j as int].1@);
            assert(table_index(tables@, names[j as int]) >= 0);
            assert(names.take(j + 1).drop_last() =~= names.take(j as int));
            assert(names.take(j + 1).last() == names[j as int]);
        }
        let ti = ti.unwrap();
        push_table_mappings(&mut out, &tables[ti]);
        j += 1;
    }
    proof {
        assert(names.take(j as int) =~= names);
    }
    out
}

/// One step of inference in executable form.
enum Step {
    Unmapped,
    Failed(String),
    Mapped(Vec<ColumnMapping>),
}

spec fn step_view(s: Step) -> ExtractV {
    match s {
        Step::Unmapped => ExtractV::Unmapped,
        Step::Failed(m) => ExtractV::Failed(m@),
        Step::Mapped(v) => ExtractV::Mapped(mappings_view(v@)),
    }
}

proof fn lemma_last_named(ms: Seq<MappingV>, name: Seq<char>, i: int)
    requires
        -1 <= i < ms.len(),
        forall|j: int| i < j < ms.len() ==> (#[trigger] ms[j]).column.name != name,
        i >= 0 ==> ms[i].column.name == name,
    ensures
        last_named(ms, name) == i,
    decreases ms.len(),
{
    if ms.len() > 0 && i < ms.len() - 1 {
        lemma_last_named(ms.drop_last(), name, i);
    }
}

fn find_last_named(all: &Vec<ColumnMapping>, name: &str) -> (r: Option<usize>)
    ensures
        match r {
            Some(i) => i == last_named(mappings_view(all@), name@) && i < all@.len(),
            None => last_named(mappings_view(all@), name@) == -1,
        },
{
    let ghost ms = mappings_view(all@);
    let mut i: usize = all.len();
    while i > 0 && !str_eq(all[i - 1].column.name.as_str(), name)
        invariant
            ms == mappings_view(all@),
            i <= all@.len(),
            forall|j: int| i <= j < all@.len() ==> (#[trigger] ms[j]).column.name != name@,
        decreases i,
    {
        i -= 1;
    }
    proof {
        lemma_last_named(ms, name@, i - 1);
    }
    if i == 0 {
        None
    } else {
        Some(i - 1)
    }
}

proof fn lemma_first_column(cs: Seq<Column>, name: Seq<char>, i: int)
    requires
        0 <= i <= cs.len(),
        forall|j: int| 0 <= j < i ==> (#[trigger] cs[j]).name@ != name,
        i == cs.len() || cs[i].name@ == name,
    ensures
        first_column(cs, name) == i,
    decreases i,
{
    if i > 0 {
        assert forall|j: int| 0 <= j < i - 1 implies (#[trigger] cs.drop_first()[j]).name@ != name by {
            assert(cs.drop_first()[j] == cs[j + 1]);
        }
        lemma_first_column(cs.drop_first(), name, i - 1);
    }
}

pub(crate) fn find_first_column(cs: &Vec<Column>, name: &str) -> (r: usize)
    ensures
        r == first_column(cs@, name@),
        r <= cs@.len(),
{
    let mut i: usize = 0;
    while i < cs.len() && !str_eq(cs[i].name.as_str(), name)
        invariant
            i <= cs.len(),
            forall|j: int| 0 <= j < i ==> (#[trigger] cs@[j]).name@ != name@,
        decreases cs.len() - i,
    {
        i += 1;
    }
    proof {
        lemma_first_column(cs@, name@, i as int);
    }
    i
}

fn concat(a: &str, b: &str) -> (r: String)
    ensures
        r@ == a@ + b@,
{
    let mut s = String::from_str(a);
    s.append(b);
    s
}

fn renamed_column(c: &Column, alias: &Option<String>) -> (r: Column)
    ensures
        r@ == renamed(c@, *alias),
{
    let name = match alias {
        Some(a) => a.clone(),
        None => c.name.clone(),
    };
    Column { name, data_type: c.data_type, options: copy_options(&c.options) }
}

fn map_one_column(
    c: &ParsedResultColumn,
    m: &Vec<(String, String)>,
    tables: &[Table],
    all: &Vec<ColumnMapping>,
) -> (r: Step)
    requires
        sources_ok(source_names(pairs_view(m@)), tables@),
        mappings_view(all@) == star_mappings(source_names(pairs_view(m@)), tables@),
    ensures
        step_view(r) == map_one(*c, pairs_view(m@), tables@),
{
    let ghost mv = pairs_view(m@);
    let ghost names = source_names(mv);
    match c {
        ParsedResultColumn::Star => {
            let mut out: Vec<ColumnMapping> = Vec::new();
            let mut i: usize = 0;
            while i < all.len()
                invariant
                    i <= all@.len(),
                    mappings_view(out@) == mappings_view(all@).take(i as int),
                decreases all.len() - i,
            {
                let x = copy_mapping(&all[i]);
                proof {
                    assert(mappings_view(out@.push(x)) =~= mappings_view(out@).push(mapping_view(x)));
                    assert(mappings_view(all@)[i as int] == mapping_view(all@[i as int]));
                    assert(mappings_view(all@).take(i + 1) =~= mappings_view(all@).take(i as int).push(
                        mappings_view(all@)[i as int],
                    ));
                }
                out.push(x);
                i += 1;
            }
            proof {
                assert(mappings_view(all@).take(i as int) =~= mappings_view(all@));
            }
            Step::Mapped(out)
        },
        ParsedResultColumn::TableStar(name) => {
            let k = find_key(m, name.as_str());
            if k >= m.len() {
                return Step::Failed(concat("Missing alias: ", name.as_str()));
            }
            proof {
                assert(names[k as int] == mv[k as int].1);
            }
            let ti = find_table(tables, m[k].1.as_str()).unwrap();
            let mut out: Vec<ColumnMapping> = Vec::new();
            proof {
                assert(mappings_view(out@) =~= Seq::<MappingV>::empty());
                assert(Seq::<MappingV>::empty() + table_mappings(tables@[ti as int]) =~= table_mappings(
                    tables@[ti as int],
                ));
            }
            push_table_mappings(&mut out, &tables[ti]);
            Step::Mapped(out)
        },
        ParsedResultColumn::Id { name, debug, alias } => {
            match find_last_named(all, name.as_str()) {
                None => Step::Failed(concat("Missing columns: ", debug.as_str())),
                Some(j) => {
                    let src = &all[j];
                    let x = ColumnMapping {
                        column: renamed_column(&src.column, alias),
                        referred_column: match &src.referred_column {
                            Some(rc) => Some(ReferredColumn { table_name: rc.table_name.clone(), column_name: rc.column_name.clone() }),
                            None => None,
                        },
                    };
                    let mut out: Vec<ColumnMapping> = Vec::new();
                    out.push(x);
                    proof {
                        assert(mappings_view(all@)[j as int] == mapping_view(all@[j as int]));
                        assert(mappings_view(out@) =~= seq![mapping_view(x)]);
                    }
                    Step::Mapped(out)
                },
            }
        },
        ParsedResultColumn::Qualified { qualifier, name, alias } => {
            let k = find_key(m, qualifier.as_str());
            if k >= m.len() {
                return Step::Failed(concat("Missing table with qualifier: ", qualifier.as_str()));
            }
            proof {
                assert(names[k as int] == mv[k as int].1);
            }
            let ti = find_table(tables, m[k].1.as_str()).unwrap();
            let t = &tables[ti];
            let kk = find_first_column(&t.columns, name.as_str());
            if kk >= t.columns.len() {
                return Step::Failed(concat("Missing col: ", name.as_str()));
            }
            let col = &t.columns[kk];
            let x = ColumnMapping {
                column: renamed_column(col, alias),
                referred_column: Some(ReferredColumn { table_name: t.name.clone(), column_name: col.name.clone() }),
            };
            let mut out: Vec<ColumnMapping> = Vec::new();
            out.push(x);
            proof {
                assert(mappings_view(out@) =~= seq![mapping_view(x)]);
            }
            Step::Mapped(out)
        },
        ParsedResultColumn::Cast { target, alias } => {
            let t = match target {
                Some(t) => t,
                None => {
                    return Step::Failed(concat("Missing type", "_name in cast"));
                },
            };
            let dt = match ColumnDataType::from_type_name(t.as_str()) {
                Some(dt) => dt,
                None => {
                    return Step::Failed(concat("Missing type", "_name in cast"));
                },
            };
            let a = match alias {
                Some(a) => a,
                None => {
                    return Step::Failed(String::from_str("Missing alias in cast"));
                },
            };
            let mut options: Vec<ColumnOption> = Vec::new();
            options.push(ColumnOption::Null);
            let x = ColumnMapping {
                column: Column { name: a.clone(), data_type: dt, options },
                referred_column: None,
            };
            let mut out: Vec<ColumnMapping> = Vec::new();
            out.push(x);
            proof {
                assert(options_view(x.column.options@) =~= seq![ColumnOptionV::Null]);
                assert(mappings_view(out@) =~= seq![mapping_view(x)]);
            }
            Step::Mapped(out)
        },
        ParsedResultColumn::Other => Step::Unmapped,
    }
}

proof fn lemma_map_columns_stop(cs: Seq<ParsedResultColumn>, m: Seq<(Seq<char>, Seq<char>)>, tables: Seq<Table>, k: int)
    requires
        0 <= k <= cs.len(),
        !(map_columns(cs.take(k), m, tables) is Mapped),
    ensures
        map_columns(cs, m, tables) == map_columns(cs.take(k), m, tables),
    decreases cs.len() - k,
{
    if k < cs.len() {
        assert(cs.take(k + 1).drop_last() =~= cs.take(k));
        lemma_map_columns_stop(cs, m, tables, k + 1);
    } else {
        assert(cs.take(k) =~= cs);
    }
}

/// Infers the columns of a view from its parsed `SELECT` and the tables of the schema:
/// `None` when they cannot be inferred, an error when the select refers to a table,
/// alias or column that does not exist.
#[verifier::loop_isolation(false)]
pub fn column_mapping_of(sel: &ParsedSelect, tables: &[Table]) -> (r: Result<Option<Vec<ColumnMapping>>, SchemaError>)
    ensures
        match extract_columns(*sel, tables@) {
            ExtractV::Unmapped => r matches Ok(None),
            ExtractV::Failed(msg) => r matches Err(SchemaError::Precondition(m)) && m@ == msg,
            ExtractV::Mapped(ms) => r matches Ok(Some(v)) && mappings_view(v@) == ms,
        },
{
    let srcs = match &sel.sources {
        Some(s) => s,
        None => {
            return Ok(None);
        },
    };
    let m = build_source_map(srcs);
    let ghost names = source_names(pairs_view(m@));
    let mut j: usize = 0;
    proof {
        assert(names.take(0) =~= Seq::<Seq<char>>::empty());
    }
    while j < m.len()
        invariant
            names == source_names(pairs_view(m@)),
            names.len() == m@.len(),
            j <= m.len(),
            sources_check(names.take(j as int), tables@) is None,
        decreases m.len() - j,
    {
        proof {
            assert(names[j as int] == m@[j as int].1@);
            assert(names.take(j + 1).drop_last() =~= names.take(j as int));
            assert(names.take(j + 1).last() == names[j as int]);
        }
        match find_table(tables, m[j].1.as_str()) {
            None => {
                let msg = concat("View's SELECT references missing table: ", m[j].1.as_str());
                proof {
                    lemma_sources_check_stop(names, tables@, j + 1, ExtractV::Failed(msg@));
                }
                return Err(SchemaError::Precondition(msg));
            },
            Some(ti) => {
                if !tables[ti].strict {
                    proof {
                        lemma_sources_check_stop(names, tables@, j + 1, ExtractV::Unmapped);
                    }
                    return Ok(None);
                }
            },
        }
        j += 1;
    }
    proof {
        assert(names.take(j as int) =~= names);
        lemma_sources_ok(names, tables@);
    }
    let all = star_list(&m, tables);
    let mut out: Vec<ColumnMapping> = Vec::new();
    let mut c: usize = 0;
    let ghost cs = sel.columns@;
    proof {
        assert(cs.take(0) =~= Seq::<ParsedResultColumn>::empty());
        assert(mappings_view(out@) =~= Seq::<MappingV>::empty());
    }
    while c < sel.columns.len()
        invariant
            cs == sel.columns@,
            c <= cs.len(),
            map_columns(cs.take(c as int), pairs_view(m@), tables@) == ExtractV::Mapped(
                mappings_view(out@),
            ),
        decreases sel.columns.len() - c,
    {
        let step = map_one_column(&sel.columns[c], &m, tables, &all);
        proof {
            assert(cs.take(c + 1).drop_last() =~= cs.take(c as int));
            assert(cs.take(c + 1).last() == cs[c as int]);
        }
        match step {
            Step::Mapped(x) => {
                let mut x = x;
                proof {
                    assert(mappings_view(out@ + x@) =~= mappings_view(out@) + mappings_view(x@));
                }
                out.append(&mut x);
            },
            Step::Failed(msg) => {
                proof {
                    lemma_map_columns_stop(cs, pairs_view(m@), tables@, c + 1);
                }
                return Err(SchemaError::Precondition(msg));
            },
            Step::Unmapped => {
                proof {
                    lemma_map_columns_stop(cs, pairs_view(m@), tables@, c + 1);
                }
                return Ok(None);
            },
        }
        c += 1;
    }
    proof {
        assert(cs.take(c as int) =~= cs);
    }
    Ok(Some(out))
}

/// Infers the columns of a view selecting with `select` from `tables` (see
/// `column_mapping_of`).
pub fn try_extract_column_mapping(select: ParsedSelect, tables: &[Table]) -> (r: Result<
    Option<Vec<ColumnMapping>>,
    SchemaError,
>)
    ensures
        match extract_columns(select, tables@) {
            ExtractV::Unmapped => r matches Ok(None),
            ExtractV::Failed(msg) => r matches Err(SchemaError::Precondition(m)) && m@ == msg,
            ExtractV::Mapped(ms) => r matches Ok(Some(v)) && mappings_view(v@) == ms,
        },
{
    column_mapping_of(&select, tables)
}

/// The printed form of a parsed statement.
pub open spec fn description_of(p: ParsedStatement) -> Seq<char> {
    match p {
        ParsedStatement::CreateTable { description, .. } => description@,
        ParsedStatement::CreateVirtualTable { description, .. } => description@,
        ParsedStatement::CreateIndex { description, .. } => description@,
        ParsedStatement::CreateView { description, .. } => description@,
        ParsedStatement::Select { description, .. } => description@,
        ParsedStatement::Other { description } => description@,
    }
}

fn description(p: &ParsedStatement) -> (r: &String)
    ensures
        r@ == description_of(*p),
{
    match p {
        ParsedStatement::CreateTable { description, .. } => description,
        ParsedStatement::CreateVirtualTable { description, .. } => description,
        ParsedStatement::CreateIndex { description, .. } => description,
        ParsedStatement::CreateView { description, .. } => description,
        ParsedStatement::Select { description, .. } => description,
        ParsedStatement::Other { description } => description,
    }
}

/// Abstract value of a view.
pub ghost struct ViewV {
    pub name: Seq<char>,
    pub columns: Option<Seq<ColumnV>>,
    pub query: Seq<char>,
    pub temporary: bool,
    pub if_not_exists: bool,
}

pub open spec fn view_view(v: View) -> ViewV {
    ViewV {
        name: v.name@,
        columns: match v.columns {
            Some(cs) => Some(cs@.map_values(|c: Column| c@)),
            None => None,
        },
        query: v.query@,
        temporary: v.temporary,
        if_not_exists: v.if_not_exists,
    }
}

pub open spec fn mapped_columns(ms: Seq<MappingV>) -> Seq<ColumnV> {
    ms.map_values(|m: MappingV| m.column)
}

/// The view that a parsed statement creates, or the error message; `description` is the
/// printed statement. Columns are inferred unless the statement lists them.
pub open spec fn view_of_parsed(p: ParsedStatement, description: Seq<char>, tables: Seq<Table>) -> Result<ViewV, Seq<char>> {
    match p {
        ParsedStatement::CreateView { temporary, if_not_exists, name_text, columns_given, select, query, .. } => {
            let v = ViewV { name: name_text@, columns: None, query: query@, temporary, if_not_exists };
            if columns_given {
                Ok(v)
            } else {
                match extract_columns(select, tables) {
                    ExtractV::Unmapped => Ok(v),
                    ExtractV::Failed(m) => Err(m),
                    ExtractV::Mapped(ms) => Ok(ViewV { columns: Some(mapped_columns(ms)), ..v }),
                }
            }
        },
        _ => Err("expected 'CREATE VIEW', got: "@ + description),
    }
}

impl View {
    /// The view that a parsed statement creates; `description` is the printed statement,
    /// for the error on other statements.
    pub fn from_parsed(p: &ParsedStatement, description: &str, tables: &[Table]) -> (r: Result<View, SchemaError>)
        ensures
            match view_of_parsed(*p, description@, tables@) {
                Ok(v) => r matches Ok(x) && view_view(x) == v,
                Err(m) => r matches Err(SchemaError::Precondition(e)) && e@ == m,
            },
    {
        match p {
            ParsedStatement::CreateView { temporary, if_not_exists, name_text, columns_given, select, query, .. } => {
                let columns = if *columns_given {
                    None
                } else {
                    match column_mapping_of(select, tables) {
                        Ok(Some(ms)) => {
                            let mut cols: Vec<Column> = Vec::new();
                            let mut i: usize = 0;
                            while i < ms.len()
                                invariant
                                    i <= ms@.len(),
                                    cols@.map_values(|c: Column| c@) == mapped_columns(
                                        mappings_view(ms@),
                                    ).take(i as int),
                                decreases ms.len() - i,
                            {
                                let c = ms[i].column.duplicate();
                                proof {
                                    assert(cols@.push(c).map_values(|c: Column| c@) =~= cols@.map_values(
                                        |c: Column| c@,
                                    ).push(c@));
                                    assert(mapped_columns(mappings_view(ms@)).take(i + 1) =~= mapped_columns(
                                        mappings_view(ms@),
                                    ).take(i as int).push(ms@[i as int].column@));
                                }
                                cols.push(c);
                                i += 1;
                            }
                            proof {
                                assert(mapped_columns(mappings_view(ms@)).take(i as int) =~= mapped_columns(
                                    mappings_view(ms@),
                                ));
                            }
                            Some(cols)
                        },
                        Ok(None) => None,
                        Err(e) => {
                            return Err(e);
                        },
                    }
                };
                Ok(
                    View {
                        name: name_text.clone(),
                        columns,
                        query: query.clone(),
                        temporary: *temporary,
                        if_not_exists: *if_not_exists,
                    },
                )
            },
            _ => {
                let mut msg = String::from_str("expected 'CREATE VIEW', got: ");
                msg.append(description);
                Err(SchemaError::Precondition(msg))
            },
        }
    }

    /// The view that a parsed `CREATE VIEW` statement creates, with its columns inferred
    /// from `tables` where possible; other statements are refused with their description.
    pub fn from(p: ParsedStatement, tables: &[Table]) -> (r: Result<View, SchemaError>)
        ensures
            match view_of_parsed(p, description_of(p), tables@) {
                Ok(v) => r matches Ok(x) && view_view(x) == v,
                Err(m) => r matches Err(SchemaError::Precondition(e)) && e@ == m,
            },
    {
        let d = description(&p);
        View::from_parsed(&p, d.as_str(), tables)
    }
}

} // verus!

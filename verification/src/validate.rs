//! Checks of a record API's configuration against the schema.
use vstd::prelude::*;

use crate::records::{rule_check_of, api_name_error, valid_api_name, validate_record_api_name, validate_rule, ConfigError};
use crate::schema::{Column, ColumnOption};
use crate::schema_view::{find_first_column, first_column};
use crate::text::{str_eq, views};

verus! {

/// The parts of a record API's configuration that are checked.
#[derive(Clone, Debug, Default, PartialEq, Eq)]
pub struct RecordApiConfig {
    pub name: Option<String>,
    pub table_name: Option<String>,
    pub excluded_columns: Vec<String>,
    pub expand: Vec<String>,
    pub create_access_rule: Option<String>,
    pub read_access_rule: Option<String>,
    pub update_access_rule: Option<String>,
    pub delete_access_rule: Option<String>,
    pub schema_access_rule: Option<String>,
    /// Permission flags granted to anyone.
    pub acl_world: Vec<i32>,
    /// Permission flags granted to signed-in users.
    pub acl_authenticated: Vec<i32>,
    pub autofill_missing_user_id_columns: Option<bool>,
    pub enable_subscriptions: Option<bool>,
    /// What an insert does when it conflicts with an existing record.
    pub conflict_resolution: Option<ConflictResolutionStrategy>,
}

/// What an insert does on a conflict with an existing record.
#[derive(Clone, Copy, Debug, PartialEq, Eq)]
pub enum ConflictResolutionStrategy {
    Undefined,
    Abort,
    Rollback,
    Fail,
    Ignore,
    Replace,
}

/// What the schema says of a table or view.
#[derive(Clone, Debug, PartialEq)]
pub struct TargetInfo {
    pub name: String,
    pub temporary: bool,
    /// The index and name of the column that identifies records: an integer or UUID
    /// primary key.
    pub record_pk: Option<(usize, String)>,
    /// The columns; `None` for a view whose columns cannot be inferred.
    pub columns: Option<Vec<Column>>,
}

/// Whether a column is declared `NOT NULL`.
pub open spec fn column_not_null(c: Column) -> bool {
    exists|i: int| 0 <= i < c.options@.len() && (#[trigger] c.options@[i]) is NotNull
}

/// Whether a column has a `DEFAULT`.
pub open spec fn column_has_default(c: Column) -> bool {
    exists|i: int| 0 <= i < c.options@.len() && (#[trigger] c.options@[i]) is Default
}

impl Column {
    /// Whether the column is declared `NOT NULL`.
    pub fn is_not_null(&self) -> (r: bool)
        ensures
            r == column_not_null(*self),
    {
        let mut i: usize = 0;
        while i < self.options.len()
            invariant
                i <= self.options@.len(),
                forall|j: int| 0 <= j < i ==> !((#[trigger] self.options@[j]) is NotNull),
            decreases self.options.len() - i,
        {
            if let ColumnOption::NotNull = &self.options[i] {
                return true;
            }
            i += 1;
        }
        false
    }

    /// Whether the column has a `DEFAULT`.
    pub fn has_default(&self) -> (r: bool)
        ensures
            r == column_has_default(*self),
    {
        let mut i: usize = 0;
        while i < self.options.len()
            invariant
                i <= self.options@.len(),
                forall|j: int| 0 <= j < i ==> !((#[trigger] self.options@[j]) is Default),
            decreases self.options.len() - i,
        {
            if let ColumnOption::Default(_) = &self.options[i] {
                return true;
            }
            i += 1;
        }
        false
    }
}

/// Index of the first target named `name`, or the number of targets.
pub open spec fn target_index(ts: Seq<TargetInfo>, name: Seq<char>) -> int
    decreases ts.len(),
{
    if ts.len() == 0 {
        0
    } else if ts[0].name@ == name {
        0
    } else {
        1 + target_index(ts.drop_first(), name)
    }
}

/// Index of the first foreign-key option, or the number of options.
pub open spec fn foreign_key_position(os: Seq<ColumnOption>) -> int
    decreases os.len(),
{
    if os.len() == 0 {
        0
    } else if os[0] is ForeignKey {
        0
    } else {
        1 + foreign_key_position(os.drop_first())
    }
}

/// The error for an excluded column, if it may not be excluded.
pub open spec fn excluded_error(api: Seq<char>, cs: Seq<Column>, pk: usize, ex: Seq<char>) -> Option<Seq<char>> {
    let i = first_column(cs, ex);
    if i >= cs.len() {
        Some("Excluded column '"@ + ex + "' in API '"@ + api + "' not found."@)
    } else if i == pk {
        Some("PK column '"@ + ex + "' cannot be excluded from API '"@ + api + "'."@)
    } else if column_not_null(cs[i]) && !column_has_default(cs[i]) {
        Some("Cannot exclude column '"@ + ex + "' from API '"@ + api
            + "', which is NOT NULL and w/o DEFAULT"@)
    } else {
        None
    }
}

/// The first error among the excluded columns, in order.
pub open spec fn excluded_errors(api: Seq<char>, cs: Seq<Column>, pk: usize, exs: Seq<Seq<char>>) -> Option<Seq<char>>
    decreases exs.len(),
{
    if exs.len() == 0 {
        None
    } else {
        match excluded_errors(api, cs, pk, exs.drop_last()) {
            Some(e) => Some(e),
            None => excluded_error(api, cs, pk, exs.last()),
        }
    }
}

/// The error for an expanded column, if it cannot be expanded: it must be a visible column
/// whose first foreign key refers to the primary key of a visible table with one.
pub open spec fn expand_error(api: Seq<char>, cs: Seq<Column>, tables: Seq<TargetInfo>, ex: Seq<char>) -> Option<Seq<char>> {
    if ex.len() > 0 && ex[0] == '_' {
        Some(api + " expands hidden column: "@ + ex)
    } else {
        let i = first_column(cs, ex);
        if i >= cs.len() {
            Some(api + " expands missing column: "@ + ex)
        } else {
            let os = cs[i].options@;
            let k = foreign_key_position(os);
            if k >= os.len() {
                Some(api + " expands non-foreign-key column: "@ + ex)
            } else {
                match os[k] {
                    ColumnOption::ForeignKey { foreign_table, referred_columns, .. } => {
                        let ft = foreign_table@;
                        if ft.len() > 0 && ft[0] == '_' {
                            Some(api + " expands reference '"@ + ex + "' to hidden table: "@ + ft)
                        } else {
                            let t = target_index(tables, ft);
                            if t >= tables.len() {
                                Some(api + " reference missing table: "@ + ft)
                            } else {
                                match tables[t].record_pk {
                                    None => Some(api + " references pk-less table: "@ + ft),
                                    Some(pk) => {
                                        let refs = views(referred_columns@);
                                        if refs.len() == 0 {
                                            None
                                        } else if refs.len() == 1 {
                                            if refs[0] != pk.1@ {
                                                Some(api + seq!['.'] + ex
                                                    + " expands non-primary-key reference"@)
                                            } else {
                                                None
                                            }
                                        } else {
                                            Some("Composite keys cannot be expanded for "@ + api
                                                + seq!['.'] + ex)
                                        }
                                    },
                                }
                            }
                        }
                    },
                    _ => None,
                }
            }
        }
    }
}

/// The first error among the expanded columns, in order.
pub open spec fn expand_errors(api: Seq<char>, cs: Seq<Column>, tables: Seq<TargetInfo>, exs: Seq<Seq<char>>) -> Option<Seq<char>>
    decreases exs.len(),
{
    if exs.len() == 0 {
        None
    } else {
        match expand_errors(api, cs, tables, exs.drop_last()) {
            Some(e) => Some(e),
            None => expand_error(api, cs, tables, exs.last()),
        }
    }
}

/// The checks of a record API's configuration against the tables and views of the schema,
/// except for its access rules: the API's name, or the first error found.
pub open spec fn api_schema_check(c: RecordApiConfig, tables: Seq<TargetInfo>, views_: Seq<TargetInfo>) -> Result<Seq<char>, Seq<char>> {
    match c.name {
        None => Err("RecordApi config misses name."@),
        Some(n) => {
            let api = n@;
            if !valid_api_name(api) {
                Err(api_name_error(api))
            } else {
                match c.table_name {
                    None => Err("RecordApi config misses table name."@),
                    Some(tn) => {
                        let ti = target_index(tables, tn@);
                        let vi = target_index(views_, tn@);
                        if ti < tables.len() && tables[ti].temporary {
                            Err("Record APIs must not reference TEMPORARY tables"@)
                        } else if ti >= tables.len() && vi < views_.len() && views_[vi].temporary {
                            Err("Record APIs must not reference TEMPORARY views"@)
                        } else if ti >= tables.len() && vi >= views_.len() {
                            Err("Missing table or view for API: "@ + api)
                        } else {
                            let target = if ti < tables.len() {
                                tables[ti]
                            } else {
                                views_[vi]
                            };
                            match target.record_pk {
                                None => Err("Table for api '"@ + api
                                    + "' is missing valid integer/UUID primary key column."@),
                                Some(pk) => match target.columns {
                                    None => Err("View for api '"@ + api
                                        + "' is not a \"simple\" view, i.e unable to infer types for strong type-safety"@),
                                    Some(cs) => match excluded_errors(api, cs@, pk.0, views(c.excluded_columns@)) {
                                        Some(e) => Err(e),
                                        None => match expand_errors(api, cs@, tables, views(c.expand@)) {
                                            Some(e) => Err(e),
                                            None => Ok(api),
                                        },
                                    },
                                },
                            }
                        }
                    },
                }
            }
        },
    }
}


proof fn lemma_target_index(ts: Seq<TargetInfo>, name: Seq<char>, i: int)
    requires
        0 <= i <= ts.len(),
        forall|j: int| 0 <= j < i ==> (#[trigger] ts[j]).name@ != name,
        i == ts.len() || ts[i].name@ == name,
    ensures
        target_index(ts, name) == i,
    decreases i,
{
    if i > 0 {
        assert forall|j: int| 0 <= j < i - 1 implies (#[trigger] ts.drop_first()[j]).name@ != name by {
            assert(ts.drop_first()[j] == ts[j + 1]);
        }
        lemma_target_index(ts.drop_first(), name, i - 1);
    }
}

pub(crate) fn find_target(ts: &Vec<TargetInfo>, name: &str) -> (r: usize)
    ensures
        r == target_index(ts@, name@),
        r <= ts@.len(),
{
    let mut i: usize = 0;
    while i < ts.len() && !str_eq(ts[i].name.as_str(), name)
        invariant
            i <= ts.len(),
            forall|j: int| 0 <= j < i ==> (#[trigger] ts@[j]).name@ != name@,
        decreases ts.len() - i,
    {
        i += 1;
    }
    proof {
        lemma_target_index(ts@, name@, i as int);
    }
    i
}

proof fn lemma_foreign_key_position(os: Seq<ColumnOption>, i: int)
    requires
        0 <= i <= os.len(),
        forall|j: int| 0 <= j < i ==> !((#[trigger] os[j]) is ForeignKey),
        i == os.len() || os[i] is ForeignKey,
    ensures
        foreign_key_position(os) == i,
    decreases i,
{
    if i > 0 {
        assert forall|j: int| 0 <= j < i - 1 implies !((#[trigger] os.drop_first()[j]) is ForeignKey) by {
            assert(os.drop_first()[j] == os[j + 1]);
        }
        lemma_foreign_key_position(os.drop_first(), i - 1);
    }
}

pub(crate) fn find_foreign_key(os: &Vec<ColumnOption>) -> (r: usize)
    ensures
        r == foreign_key_position(os@),
        r <= os@.len(),
{
    let mut i: usize = 0;
    while i < os.len() && !matches!(os[i], ColumnOption::ForeignKey { .. })
        invariant
            i <= os.len(),
            forall|j: int| 0 <= j < i ==> !((#[trigger] os@[j]) is ForeignKey),
        decreases os.len() - i,
    {
        i += 1;
    }
    proof {
        lemma_foreign_key_position(os@, i as int);
    }
    i
}

fn text3(a: &str, b: &str, c: &str) -> (r: String)
    ensures
        r@ == a@ + b@ + c@,
{
    let mut s = String::from_str(a);
    s.append(b);
    s.append(c);
    s
}

fn text5(a: &str, b: &str, c: &str, d: &str, e: &str) -> (r: String)
    ensures
        r@ == a@ + b@ + c@ + d@ + e@,
{
    let mut s = String::from_str(a);
    s.append(b);
    s.append(c);
    s.append(d);
    s.append(e);
    s
}

fn check_excluded(api: &str, cs: &Vec<Column>, pk: usize, ex: &str) -> (r: Option<String>)
    ensures
        match r {
            Some(m) => excluded_error(api@, cs@, pk, ex@) == Some(m@),
            None => excluded_error(api@, cs@, pk, ex@) is None,
        },
{
    let i = find_first_column(cs, ex);
    if i >= cs.len() {
        return Some(text5("Excluded column '", ex, "' in API '", api, "' not found."));
    }
    if i == pk {
        return Some(text5("PK column '", ex, "' cannot be excluded from API '", api, "'."));
    }
    if cs[i].is_not_null() && !cs[i].has_default() {
        return Some(
            text5(
                "Cannot exclude column '",
                ex,
                "' from API '",
                api,
                "', which is NOT NULL and w/o DEFAULT",
            ),
        );
    }
    None
}

fn check_expand(api: &str, cs: &Vec<Column>, tables: &Vec<TargetInfo>, ex: &str) -> (r: Option<String>)
    ensures
        match r {
            Some(m) => expand_error(api@, cs@, tables@, ex@) == Some(m@),
            None => expand_error(api@, cs@, tables@, ex@) is None,
        },
{
    if ex.unicode_len() > 0 && ex.get_char(0) == '_' {
        return Some(text3(api, " expands hidden column: ", ex));
    }
    let i = find_first_column(cs, ex);
    if i >= cs.len() {
        return Some(text3(api, " expands missing column: ", ex));
    }
    let os = &cs[i].options;
    let k = find_foreign_key(os);
    if k >= os.len() {
        return Some(text3(api, " expands non-foreign-key column: ", ex));
    }
    match &os[k] {
        ColumnOption::ForeignKey { foreign_table, referred_columns, .. } => {
            let ft = foreign_table.as_str();
            if ft.unicode_len() > 0 && ft.get_char(0) == '_' {
                return Some(text5(api, " expands reference '", ex, "' to hidden table: ", ft));
            }
            let t = find_target(tables, ft);
            if t >= tables.len() {
                return Some(text3(api, " reference missing table: ", ft));
            }
            match &tables[t].record_pk {
                None => Some(text3(api, " references pk-less table: ", ft)),
                Some(pk) => {
                    if referred_columns.len() == 0 {
                        None
                    } else if referred_columns.len() == 1 {
                        proof {
                            assert(views(referred_columns@)[0] == referred_columns@[0]@);
                        }
                        if !str_eq(referred_columns[0].as_str(), pk.1.as_str()) {
                            let mut m = String::from_str(api);
                            crate::text::push_char(&mut m, '.');
                            m.append(ex);
                            m.append(" expands non-primary-key reference");
                            Some(m)
                        } else {
                            None
                        }
                    } else {
                        let mut m = String::from_str("Composite keys cannot be expanded for ");
                        m.append(api);
                        crate::text::push_char(&mut m, '.');
                        m.append(ex);
                        Some(m)
                    }
                },
            }
        },
        _ => None,
    }
}

/// Checks a record API's configuration against the schema's tables and views, except for
/// its access rules; gives the API's name.
#[verifier::loop_isolation(false)]
pub fn check_api_schema(c: &RecordApiConfig, tables: &Vec<TargetInfo>, views_: &Vec<TargetInfo>) -> (r: Result<String, ConfigError>)
    ensures
        match api_schema_check(*c, tables@, views_@) {
            Ok(n) => r matches Ok(x) && x@ == n,
            Err(m) => r matches Err(ConfigError::Invalid(e)) && e@ == m,
        },
{
    let api_name = match &c.name {
        Some(n) => n,
        None => {
            return Err(ConfigError::Invalid(String::from_str("RecordApi config misses name.")));
        },
    };
    let api = api_name.as_str();
    match validate_record_api_name(api) {
        Ok(()) => {},
        Err(e) => {
            return Err(e);
        },
    }
    let table_name = match &c.table_name {
        Some(t) => t,
        None => {
            return Err(ConfigError::Invalid(String::from_str("RecordApi config misses table name.")));
        },
    };
    let ti = find_target(tables, table_name.as_str());
    let target = if ti < tables.len() {
        if tables[ti].temporary {
            return Err(ConfigError::Invalid(String::from_str("Record APIs must not reference TEMPORARY tables")));
        }
        &tables[ti]
    } else {
        let vi = find_target(views_, table_name.as_str());
        if vi < views_.len() {
            if views_[vi].temporary {
                return Err(ConfigError::Invalid(String::from_str("Record APIs must not reference TEMPORARY views")));
            }
            &views_[vi]
        } else {
            let mut m = String::from_str("Missing table or view for API: ");
            m.append(api);
            return Err(ConfigError::Invalid(m));
        }
    };
    let pk = match &target.record_pk {
        Some(pk) => pk.0,
        None => {
            return Err(ConfigError::Invalid(text3("Table for api '", api, "' is missing valid integer/UUID primary key column.")));
        },
    };
    let cs = match &target.columns {
        Some(cs) => cs,
        None => {
            return Err(ConfigError::Invalid(text3("View for api '", api, "' is not a \"simple\" view, i.e unable to infer types for strong type-safety")));
        },
    };
    let ghost exs = views(c.excluded_columns@);
    let mut i: usize = 0;
    proof {
        assert(exs.take(0) =~= Seq::<Seq<char>>::empty());
    }
    while i < c.excluded_columns.len()
        invariant
            i <= c.excluded_columns@.len(),
            exs == views(c.excluded_columns@),
            excluded_errors(api@, cs@, pk, exs.take(i as int)) is None,
        decreases c.excluded_columns.len() - i,
    {
        proof {
            assert(exs.take(i + 1).drop_last() =~= exs.take(i as int));
            assert(exs.take(i + 1).last() == c.excluded_columns@[i as int]@);
        }
        match check_excluded(api, cs, pk, c.excluded_columns[i].as_str()) {
            Some(m) => {
                proof {
                    lemma_excluded_stop(api@, cs@, pk, exs, i + 1, m@);
                }
                return Err(ConfigError::Invalid(m));
            },
            None => {},
        }
        i += 1;
    }
    proof {
        assert(exs.take(i as int) =~= exs);
    }
    let ghost xs = views(c.expand@);
    let mut j: usize = 0;
    proof {
        assert(xs.take(0) =~= Seq::<Seq<char>>::empty());
    }
    while j < c.expand.len()
        invariant
            j <= c.expand@.len(),
            xs == views(c.expand@),
            expand_errors(api@, cs@, tables@, xs.take(j as int)) is None,
        decreases c.expand.len() - j,
    {
        proof {
            assert(xs.take(j + 1).drop_last() =~= xs.take(j as int));
            assert(xs.take(j + 1).last() == c.expand@[j as int]@);
        }
        match check_expand(api, cs, tables, c.expand[j].as_str()) {
            Some(m) => {
                proof {
                    lemma_expand_stop(api@, cs@, tables@, xs, j + 1, m@);
                }
                return Err(ConfigError::Invalid(m));
            },
            None => {},
        }
        j += 1;
    }
    proof {
        assert(xs.take(j as int) =~= xs);
    }
    Ok(api_name.clone())
}

proof fn lemma_excluded_stop(api: Seq<char>, cs: Seq<Column>, pk: usize, exs: Seq<Seq<char>>, k: int, m: Seq<char>)
    requires
        0 <= k <= exs.len(),
        excluded_errors(api, cs, pk, exs.take(k)) == Some(m),
    ensures
        excluded_errors(api, cs, pk, exs) == Some(m),
    decreases exs.len() - k,
{
    if k == exs.len() {
        assert(exs.take(k) =~= exs);
    } else {
        assert(exs.take(k + 1).drop_last() =~= exs.take(k));
        lemma_excluded_stop(api, cs, pk, exs, k + 1, m);
    }
}

proof fn lemma_expand_stop(api: Seq<char>, cs: Seq<Column>, tables: Seq<TargetInfo>, xs: Seq<Seq<char>>, k: int, m: Seq<char>)
    requires
        0 <= k <= xs.len(),
        expand_errors(api, cs, tables, xs.take(k)) == Some(m),
    ensures
        expand_errors(api, cs, tables, xs) == Some(m),
    decreases xs.len() - k,
{
    if k == xs.len() {
        assert(xs.take(k) =~= xs);
    } else {
        assert(xs.take(k + 1).drop_last() =~= xs.take(k));
        lemma_expand_stop(api, cs, tables, xs, k + 1, m);
    }
}

/// The access rules of a configuration, in the order they are checked: create, read,
/// update, delete, schema.
pub open spec fn access_rules(c: RecordApiConfig) -> Seq<Option<String>> {
    seq![c.create_access_rule, c.read_access_rule, c.update_access_rule, c.delete_access_rule, c.schema_access_rule]
}

/// The first configured rule, from position `k` on, that checking refuses, with its
/// message; `None` when every one passes.
pub open spec fn first_rule_error(rules: Seq<Option<String>>, k: int) -> Option<Seq<char>>
    decreases rules.len() - k,
{
    if k >= rules.len() || k < 0 {
        None
    } else {
        match rules[k] {
            Some(t) => match rule_check_of(t@) {
                Err(m) => Some(m),
                Ok(()) => first_rule_error(rules, k + 1),
            },
            None => first_rule_error(rules, k + 1),
        }
    }
}

/// What validating a configuration gives: the schema checks' answer, then the first access
/// rule (create, read, update, delete, schema) that is not a single SQL expression.
pub open spec fn config_check(c: RecordApiConfig, tables: Seq<TargetInfo>, views: Seq<TargetInfo>) -> Result<Seq<char>, Seq<char>> {
    match api_schema_check(c, tables, views) {
        Err(m) => Err(m),
        Ok(name) => match first_rule_error(access_rules(c), 0) {
            Some(m) => Err(m),
            None => Ok(name),
        },
    }
}

fn check_rule(rule: &Option<String>) -> (r: Result<(), ConfigError>)
    ensures
        match *rule {
            None => r is Ok,
            Some(t) => match rule_check_of(t@) {
                Ok(()) => r is Ok,
                Err(m) => r matches Err(ConfigError::Invalid(e)) && e@ == m,
            },
        },
{
    match rule {
        Some(t) => match validate_rule(t.as_str()) {
            Ok(()) => Ok(()),
            Err(m) => Err(ConfigError::Invalid(m)),
        },
        None => Ok(()),
    }
}

/// Checks a record API's configuration: the schema checks of `check_api_schema`, then each
/// access rule (create, read, update, delete, schema) must be a single SQL expression. A
/// configuration that passes names its API; every refusal is `Invalid`, with the message of
/// the first failed check.
pub fn validate_record_api_config(c: &RecordApiConfig, tables: &Vec<TargetInfo>, views_: &Vec<TargetInfo>) -> (r: Result<String, ConfigError>)
    ensures
        match config_check(*c, tables@, views_@) {
            Ok(name) => r matches Ok(x) && x@ == name,
            Err(m) => r matches Err(ConfigError::Invalid(e)) && e@ == m,
        },
{
    let name = match check_api_schema(c, tables, views_) {
        Ok(n) => n,
        Err(e) => {
            return Err(e);
        },
    };
    let ghost rs = access_rules(*c);
    proof {
        assert(rs[0] == c.create_access_rule);
        assert(rs[1] == c.read_access_rule);
        assert(rs[2] == c.update_access_rule);
        assert(rs[3] == c.delete_access_rule);
        assert(rs[4] == c.schema_access_rule);
        assert(first_rule_error(rs, 5) is None);
    }
    match check_rule(&c.create_access_rule) {
        Err(e) => {
            proof {
                assert(first_rule_error(rs, 0) is Some);
                assert(first_rule_error(rs, 0) == first_rule_error(rs, 0));
            }
            return Err(e);
        },
        Ok(()) => {
            proof {
                assert(first_rule_error(rs, 0) == first_rule_error(rs, 1));
            }
        },
    }
    match check_rule(&c.read_access_rule) {
        Err(e) => {
            proof {
                assert(first_rule_error(rs, 1) is Some);
                assert(first_rule_error(rs, 0) == first_rule_error(rs, 1));
            }
            return Err(e);
        },
        Ok(()) => {
            proof {
                assert(first_rule_error(rs, 1) == first_rule_error(rs, 2));
            }
        },
    }
    match check_rule(&c.update_access_rule) {
        Err(e) => {
            proof {
                assert(first_rule_error(rs, 2) is Some);
                assert(first_rule_error(rs, 0) == first_rule_error(rs, 2));
            }
            return Err(e);
        },
        Ok(()) => {
            proof {
                assert(first_rule_error(rs, 2) == first_rule_error(rs, 3));
            }
        },
    }
    match check_rule(&c.delete_access_rule) {
        Err(e) => {
            proof {
                assert(first_rule_error(rs, 3) is Some);
                assert(first_rule_error(rs, 0) == first_rule_error(rs, 3));
            }
            return Err(e);
        },
        Ok(()) => {
            proof {
                assert(first_rule_error(rs, 3) == first_rule_error(rs, 4));
            }
        },
    }
    match check_rule(&c.schema_access_rule) {
        Err(e) => {
            proof {
                assert(first_rule_error(rs, 4) is Some);
                assert(first_rule_error(rs, 0) == first_rule_error(rs, 4));
            }
            return Err(e);
        },
        Ok(()) => {
            proof {
                assert(first_rule_error(rs, 4) == first_rule_error(rs, 5));
            }
        },
    }
    Ok(name)
}

} // verus!

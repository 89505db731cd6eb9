//! The access-control state of a record API, derived from its configuration.
use vstd::prelude::*;

use crate::listing::sql_params_view;
use crate::records::{
    acl_bits, build_read_delete_schema_query, check_table_level_access, convert_acl, grants,
    prefix_colon, read_delete_schema_query, Permission, RecordError, SqlValue, SqlValueV,
};
use crate::schema::Column;
use crate::text::{seq_join, str_eq, views};
use crate::validate::{ConflictResolutionStrategy, RecordApiConfig};

verus! {

/// What a record API checks requests against: its name, access-control bytes (anyone,
/// signed-in users), options, expandable columns and the access queries built from its
/// read, delete and schema rules.
#[derive(Clone, Debug, PartialEq, Eq)]
pub struct RecordApiState {
    pub api_name: String,
    pub acl: [u8; 2],
    pub insert_conflict_resolution_strategy: Option<ConflictResolutionStrategy>,
    pub insert_autofill_missing_user_id_columns: bool,
    pub enable_subscriptions: bool,
    pub expand: Option<Vec<String>>,
    pub read_access_rule: Option<String>,
    pub read_access_query: Option<String>,
    pub subscription_read_access_query: Option<String>,
    pub create_access_query: Option<String>,
    pub update_access_query: Option<String>,
    pub delete_access_query: Option<String>,
    pub schema_access_query: Option<String>,
}

pub open spec fn opt_view(o: Option<String>) -> Option<Seq<char>> {
    match o {
        Some(s) => Some(s@),
        None => None,
    }
}

/// The access query of a rule, if there is one.
pub open spec fn rule_query(table: Seq<char>, pk: Seq<char>, rule: Option<String>) -> Option<Seq<char>> {
    match rule {
        Some(r) => Some(read_delete_schema_query(table, pk, r@)),
        None => None,
    }
}

fn build_rule_query(table: &str, pk: &str, rule: &Option<String>) -> (r: Option<String>)
    ensures
        opt_view(r) == rule_query(table@, pk@, *rule),
{
    match rule {
        Some(rule) => Some(build_read_delete_schema_query(table, pk, rule.as_str())),
        None => None,
    }
}

/// One field of a request (or of a changed record) as a column of a derived table:
/// `:name AS "name"`.
pub open spec fn field_column(c: Column) -> Seq<char> {
    seq![':'] + c.name@ + " AS \""@ + c.name@ + "\""@
}

/// The derived table of a record's fields, one column per field: `SELECT :a AS "a", ...`,
/// or `SELECT NULL` without columns.
pub open spec fn fields_select(cols: Seq<Column>) -> Seq<char> {
    if cols.len() == 0 {
        "SELECT NULL"@
    } else {
        "SELECT "@ + seq_join(cols.map_values(|c: Column| field_column(c)), ", "@)
    }
}

/// The access query of a create rule: the rule over the user (`_USER_`) and the request's
/// fields (`_REQ_`).
pub open spec fn create_query(rule: Seq<char>, cols: Seq<Column>) -> Seq<char> {
    "SELECT\n  CAST(("@ + rule + ") AS INTEGER)\nFROM\n  (SELECT :__user_id AS id) AS _USER_,\n  ("@
        + fields_select(cols) + ") AS _REQ_\n"@
}

/// The access query of an update rule: the rule over the user (`_USER_`), the stored
/// record (`_ROW_`) and the request's fields (`_REQ_`).
pub open spec fn update_query(table: Seq<char>, pk: Seq<char>, rule: Seq<char>, cols: Seq<Column>) -> Seq<char> {
    "SELECT\n  CAST(("@ + rule + ") AS INTEGER)\nFROM\n  (SELECT :__user_id AS id) AS _USER_,\n  (SELECT * FROM \""@
        + table + "\" WHERE \""@ + pk + "\" = :__record_id) AS _ROW_,\n  ("@ + fields_select(cols)
        + ") AS _REQ_\n"@
}

/// The read check of a change sent to subscribers: the read rule over the user (`_USER_`)
/// and the changed record's fields (`_ROW_`), which may be gone from the table.
pub open spec fn subscription_query(rule: Seq<char>, cols: Seq<Column>) -> Seq<char> {
    "SELECT\n  CAST(("@ + rule + ") AS INTEGER)\nFROM\n  (SELECT :__user_id AS id) AS _USER_,\n  ("@
        + fields_select(cols) + ") AS _ROW_\n"@
}

fn build_fields_select(columns: &Vec<Column>) -> (r: String)
    ensures
        r@ == fields_select(columns@),
{
    if columns.len() == 0 {
        return String::from_str("SELECT NULL");
    }
    let mut parts: Vec<String> = Vec::new();
    let mut i: usize = 0;
    while i < columns.len()
        invariant
            i <= columns@.len(),
            views(parts@) == columns@.take(i as int).map_values(|c: Column| field_column(c)),
        decreases columns.len() - i,
    {
        let mut f = String::from_str(":");
        f.append(columns[i].name.as_str());
        f.append(" AS \"");
        f.append(columns[i].name.as_str());
        f.append("\"");
        proof {
            reveal_strlit(":");
            assert(f@ =~= field_column(columns@[i as int]));
            crate::text::lemma_views_push(parts@, f);
            assert(columns@.take(i + 1).map_values(|c: Column| field_column(c)) =~= columns@.take(
                i as int,
            ).map_values(|c: Column| field_column(c)).push(field_column(columns@[i as int])));
        }
        parts.push(f);
        i += 1;
    }
    proof {
        assert(columns@.take(i as int) =~= columns@);
    }
    let mut r = String::from_str("SELECT ");
    r.append(crate::text::join(&parts, ", ").as_str());
    r
}

fn build_create_query(rule: &str, columns: &Vec<Column>) -> (r: String)
    ensures
        r@ == create_query(rule@, columns@),
{
    let mut q = String::from_str("SELECT\n  CAST((");
    q.append(rule);
    q.append(") AS INTEGER)\nFROM\n  (SELECT :__user_id AS id) AS _USER_,\n  (");
    q.append(build_fields_select(columns).as_str());
    q.append(") AS _REQ_\n");
    q
}

fn build_update_query(table: &str, pk: &str, rule: &str, columns: &Vec<Column>) -> (r: String)
    ensures
        r@ == update_query(table@, pk@, rule@, columns@),
{
    let mut q = String::from_str("SELECT\n  CAST((");
    q.append(rule);
    q.append(") AS INTEGER)\nFROM\n  (SELECT :__user_id AS id) AS _USER_,\n  (SELECT * FROM \"");
    q.append(table);
    q.append("\" WHERE \"");
    q.append(pk);
    q.append("\" = :__record_id) AS _ROW_,\n  (");
    q.append(build_fields_select(columns).as_str());
    q.append(") AS _REQ_\n");
    q
}

fn build_subscription_query(rule: &str, columns: &Vec<Column>) -> (r: String)
    ensures
        r@ == subscription_query(rule@, columns@),
{
    let mut q = String::from_str("SELECT\n  CAST((");
    q.append(rule);
    q.append(") AS INTEGER)\nFROM\n  (SELECT :__user_id AS id) AS _USER_,\n  (");
    q.append(build_fields_select(columns).as_str());
    q.append(") AS _ROW_\n");
    q
}

pub open spec fn opt_query(rule: Option<String>, q: spec_fn(Seq<char>) -> Seq<char>) -> Option<Seq<char>> {
    match rule {
        Some(r) => Some(q(r@)),
        None => None,
    }
}

impl RecordApiState {
    /// The state of the API configured by `config` on the table (or view) `table_name`
    /// whose records are identified by `pk_column_name`; a configuration without a name is
    /// refused.
    pub fn from_config(
        config: &RecordApiConfig,
        table_name: &str,
        pk_column_name: &str,
        columns: &Vec<Column>,
        is_table: bool,
    ) -> (r: Result<
        RecordApiState,
        String,
    >)
        ensures
            config.name is None <==> r is Err,
            r matches Err(m) ==> m@ == "RecordApi misses name: table "@ + table_name@,
            r matches Ok(s) ==> {
                &&& config.name matches Some(n) && s.api_name@ == n@
                &&& s.acl@ == seq![acl_bits(config.acl_world@), acl_bits(config.acl_authenticated@)]
                &&& s.insert_autofill_missing_user_id_columns == (config.autofill_missing_user_id_columns
                    == Some(true))
                &&& s.enable_subscriptions == (config.enable_subscriptions == Some(true))
                &&& s.insert_conflict_resolution_strategy == config.conflict_resolution
                &&& (config.expand@.len() == 0 ==> s.expand is None)
                &&& (config.expand@.len() > 0 ==> (s.expand matches Some(e) && views(e@) == views(
                    config.expand@,
                )))
                &&& opt_view(s.read_access_rule) == opt_view(config.read_access_rule)
                &&& opt_view(s.read_access_query) == rule_query(
                    table_name@,
                    pk_column_name@,
                    config.read_access_rule,
                )
                &&& opt_view(s.create_access_query) == opt_query(
                    config.create_access_rule,
                    |q: Seq<char>| create_query(q, columns@),
                )
                &&& opt_view(s.update_access_query) == opt_query(
                    config.update_access_rule,
                    |q: Seq<char>| update_query(table_name@, pk_column_name@, q, columns@),
                )
                &&& opt_view(s.subscription_read_access_query) == if is_table {
                    opt_query(config.read_access_rule, |q: Seq<char>| subscription_query(q, columns@))
                } else {
                    None
                }
                &&& opt_view(s.delete_access_query) == rule_query(
                    table_name@,
                    pk_column_name@,
                    config.delete_access_rule,
                )
                &&& opt_view(s.schema_access_query) == rule_query(
                    table_name@,
                    pk_column_name@,
                    config.schema_access_rule,
                )
            },
    {
        let api_name = match &config.name {
            Some(n) => n.clone(),
            None => {
                let mut msg = String::from_str("RecordApi misses name: table ");
                msg.append(table_name);
                return Err(msg);
            },
        };
        let read_access_query = build_rule_query(table_name, pk_column_name, &config.read_access_rule);
        let delete_access_query = build_rule_query(table_name, pk_column_name, &config.delete_access_rule);
        let create_access_query = match &config.create_access_rule {
            Some(rule) => Some(build_create_query(rule.as_str(), columns)),
            None => None,
        };
        let update_access_query = match &config.update_access_rule {
            Some(rule) => Some(build_update_query(table_name, pk_column_name, rule.as_str(), columns)),
            None => None,
        };
        let subscription_read_access_query = match &config.read_access_rule {
            Some(rule) => if is_table {
                Some(build_subscription_query(rule.as_str(), columns))
            } else {
                None
            },
            None => None,
        };
        let schema_access_query = build_rule_query(table_name, pk_column_name, &config.schema_access_rule);
        let expand = if config.expand.len() == 0 {
            None
        } else {
            Some(copy_names(&config.expand))
        };
        let acl = [convert_acl(&config.acl_world), convert_acl(&config.acl_authenticated)];
        Ok(
            RecordApiState {
                api_name,
                acl,
                insert_conflict_resolution_strategy: config.conflict_resolution,
                insert_autofill_missing_user_id_columns: match config.autofill_missing_user_id_columns {
                    Some(b) => b,
                    None => false,
                },
                enable_subscriptions: match config.enable_subscriptions {
                    Some(b) => b,
                    None => false,
                },
                expand,
                read_access_rule: match &config.read_access_rule {
                    Some(r) => Some(r.clone()),
                    None => None,
                },
                read_access_query,
                subscription_read_access_query,
                create_access_query,
                update_access_query,
                delete_access_query,
                schema_access_query,
            },
        )
    }

    /// The access query checked for a permission, if one was built: reads, deletes and
    /// schema lookups have one when their rule is configured.
    pub fn cached_access_query(&self, p: Permission) -> (r: Option<&str>)
        ensures
            match p {
                Permission::Read => opt_view(self.read_access_query) == (match r {
                    Some(q) => Some(q@),
                    None => None,
                }),
                Permission::Delete => opt_view(self.delete_access_query) == (match r {
                    Some(q) => Some(q@),
                    None => None,
                }),
                Permission::Schema => opt_view(self.schema_access_query) == (match r {
                    Some(q) => Some(q@),
                    None => None,
                }),
                Permission::Create => opt_view(self.create_access_query) == (match r {
                    Some(q) => Some(q@),
                    None => None,
                }),
                Permission::Update => opt_view(self.update_access_query) == (match r {
                    Some(q) => Some(q@),
                    None => None,
                }),
            },
    {
        let q = match p {
            Permission::Create => &self.create_access_query,
            Permission::Read => &self.read_access_query,
            Permission::Update => &self.update_access_query,
            Permission::Delete => &self.delete_access_query,
            Permission::Schema => &self.schema_access_query,
        };
        match q {
            Some(q) => Some(q.as_str()),
            None => None,
        }
    }
}

fn copy_names(v: &Vec<String>) -> (r: Vec<String>)
    ensures
        views(r@) == views(v@),
{
    let mut r: Vec<String> = Vec::new();
    let mut i: usize = 0;
    while i < v.len()
        invariant
            i <= v.len(),
            views(r@) == views(v@.take(i as int)),
        decreases v.len() - i,
    {
        proof {
            crate::text::lemma_views_push(r@, v@[i as int]);
            assert(v@.take(i + 1) =~= v@.take(i as int).push(v@[i as int]));
            crate::text::lemma_views_push(v@.take(i as int), v@[i as int]);
        }
        r.push(v[i].clone());
        i += 1;
    }
    proof {
        assert(v@.take(i as int) =~= v@);
    }
    r
}

/// A request's parameters as parsed: the column each value is for, and the placeholder and
/// value of each, in the same order.
#[derive(Clone, Debug, PartialEq)]
pub struct RequestParams {
    pub column_names: Vec<String>,
    pub named_params: Vec<(String, SqlValue)>,
}

/// The index of the last column named `name`: the one a lookup by name finds.
pub open spec fn last_index_of(cols: Seq<Column>, name: Seq<char>) -> Option<int>
    decreases cols.len(),
{
    if cols.len() == 0 {
        None
    } else if cols.last().name@ == name {
        Some(cols.len() - 1)
    } else {
        last_index_of(cols.drop_last(), name)
    }
}

proof fn lemma_last_index_of(cols: Seq<Column>, name: Seq<char>)
    ensures
        last_index_of(cols, name) matches Some(i) ==> 0 <= i < cols.len() && cols[i].name@ == name,
    decreases cols.len(),
{
    if cols.len() > 0 {
        lemma_last_index_of(cols.drop_last(), name);
    }
}

/// The index of the column named `name`, the last one if several are.
pub fn column_index_by_name(columns: &Vec<Column>, name: &str) -> (r: Option<usize>)
    ensures
        match r {
            Some(i) => last_index_of(columns@, name@) == Some(i as int),
            None => last_index_of(columns@, name@) is None,
        },
{
    let mut i: usize = columns.len();
    proof {
        assert(columns@.take(i as int) =~= columns@);
    }
    while i > 0
        invariant
            i <= columns@.len(),
            last_index_of(columns@, name@) == last_index_of(columns@.take(i as int), name@),
        decreases i,
    {
        proof {
            let t = columns@.take(i as int);
            assert(t.drop_last() =~= columns@.take(i - 1));
            assert(t.last() == columns@[i - 1]);
        }
        if str_eq(columns[i - 1].name.as_str(), name) {
            return Some(i - 1);
        }
        i -= 1;
    }
    None
}

/// One `NULL` placeholder per column, so that an access rule can read any field of the
/// request.
pub open spec fn params_template(cols: Seq<Column>) -> Seq<(Seq<char>, SqlValueV)> {
    Seq::new(cols.len(), |i: int| (seq![':'] + cols[i].name@, SqlValueV::Null))
}

/// The template with the first `n` request values put in place of their columns' `NULL`;
/// values for unknown columns are skipped.
pub open spec fn with_request(
    cols: Seq<Column>,
    names: Seq<Seq<char>>,
    values: Seq<SqlValueV>,
    n: int,
) -> Seq<(Seq<char>, SqlValueV)>
    decreases n,
{
    if n <= 0 {
        params_template(cols)
    } else {
        let prev = with_request(cols, names, values, n - 1);
        match last_index_of(cols, names[n - 1]) {
            Some(ci) => prev.update(ci, (prev[ci].0, values[n - 1])),
            None => prev,
        }
    }
}

pub open spec fn opt_value(v: Option<&SqlValue>) -> SqlValueV {
    match v {
        Some(x) => x@,
        None => SqlValueV::Null,
    }
}

pub open spec fn user_param(user_id: Option<Seq<u8>>) -> SqlValueV {
    match user_id {
        Some(u) => SqlValueV::Blob(u),
        None => SqlValueV::Null,
    }
}

pub open spec fn opt_bytes(o: Option<Vec<u8>>) -> Option<Seq<u8>> {
    match o {
        Some(b) => Some(b@),
        None => None,
    }
}

/// The user and record placeholders every access query gets.
pub open spec fn context_params(user_id: Option<Seq<u8>>, record_id: SqlValueV) -> Seq<(Seq<char>, SqlValueV)> {
    seq![(":__user_id"@, user_param(user_id)), (":__record_id"@, record_id)]
}

fn template(columns: &Vec<Column>) -> (r: Vec<(String, SqlValue)>)
    ensures
        sql_params_view(r@) == params_template(columns@),
        r@.len() == columns@.len(),
{
    let mut r: Vec<(String, SqlValue)> = Vec::new();
    let mut i: usize = 0;
    while i < columns.len()
        invariant
            i <= columns@.len(),
            r@.len() == i,
            sql_params_view(r@) == params_template(columns@.take(i as int)),
        decreases columns.len() - i,
    {
        let ghost before = r@;
        r.push((prefix_colon(columns[i].name.as_str()), SqlValue::Null));
        proof {
            let c = columns@[i as int];
            assert(sql_params_view(r@) =~= sql_params_view(before).push((seq![':'] + c.name@, SqlValueV::Null)));
            assert forall|j: int| 0 <= j < i implies #[trigger] columns@.take(i + 1)[j] == columns@.take(i as int)[j] by {}
            assert(params_template(columns@.take(i + 1)) =~= params_template(columns@.take(i as int)).push(
                (seq![':'] + c.name@, SqlValueV::Null),
            ));
        }
        i += 1;
    }
    proof {
        assert(columns@.take(i as int) =~= columns@);
    }
    r
}

/// The parameters of the access query checked for `p`. Creation and update check the
/// request, so they need a table and the request's parameters; every check gets the user
/// (`:__user_id`) and the record id (`:__record_id`), `NULL` when absent.
pub fn build_named_params(
    p: Permission,
    is_table: bool,
    columns: &Vec<Column>,
    request: Option<&RequestParams>,
    user_id: Option<Vec<u8>>,
    record_id: Option<&SqlValue>,
) -> (r: Result<Vec<(String, SqlValue)>, RecordError>)
    requires
        request matches Some(req) ==> req.column_names@.len() == req.named_params@.len(),
    ensures
        match p {
            Permission::Create | Permission::Update => if !is_table {
                r == Err::<Vec<(String, SqlValue)>, RecordError>(RecordError::ApiRequiresTable)
            } else {
                match request {
                    None => r matches Err(RecordError::Internal(m)) && m@ == "missing req params"@,
                    Some(req) => r matches Ok(v) && sql_params_view(v@) == with_request(
                        columns@,
                        views(req.column_names@),
                        sql_params_view(req.named_params@).map_values(|e: (Seq<char>, SqlValueV)| e.1),
                        req.column_names@.len() as int,
                    ) + context_params(opt_bytes(user_id), opt_value(record_id)),
                }
            },
            _ => r matches Ok(v) && sql_params_view(v@) == context_params(opt_bytes(user_id), opt_value(record_id)),
        },
{
    let mut params: Vec<(String, SqlValue)> = match p {
        Permission::Create | Permission::Update => {
            if !is_table {
                return Err(RecordError::ApiRequiresTable);
            }
            let req = match request {
                Some(req) => req,
                None => {
                    return Err(RecordError::Internal(String::from_str("missing req params")));
                },
            };
            let ghost cols = columns@;
            let ghost names = views(req.column_names@);
            let ghost values = sql_params_view(req.named_params@).map_values(|e: (Seq<char>, SqlValueV)| e.1);
            let mut named = template(columns);
            let mut k: usize = 0;
            while k < req.column_names.len()
                invariant
                    k <= req.column_names@.len() == req.named_params@.len(),
                    cols == columns@,
                    names == views(req.column_names@),
                    values == sql_params_view(req.named_params@).map_values(|e: (Seq<char>, SqlValueV)| e.1),
                    sql_params_view(named@) == with_request(cols, names, values, k as int),
                    named@.len() == cols.len(),
                decreases req.column_names.len() - k,
            {
                match column_index_by_name(columns, req.column_names[k].as_str()) {
                    Some(ci) => {
                        proof {
                            lemma_last_index_of(cols, names[k as int]);
                            assert(names[k as int] == req.column_names@[k as int]@);
                        }
                        let placeholder = named[ci].0.clone();
                        let v = req.named_params[k].1.duplicate();
                        let ghost before = named@;
                        named.set(ci, (placeholder, v));
                        proof {
                            assert(values[k as int] == req.named_params@[k as int].1@);
                            assert(sql_params_view(named@) =~= sql_params_view(before).update(
                                ci as int,
                                (sql_params_view(before)[ci as int].0, values[k as int]),
                            ));
                        }
                    },
                    None => {
                        proof {
                            assert(names[k as int] == req.column_names@[k as int]@);
                        }
                    },
                }
                k += 1;
            }
            named
        },
        _ => Vec::new(),
    };
    let ghost before = sql_params_view(params@);
    let uv = match user_id {
        Some(u) => SqlValue::Blob(u),
        None => SqlValue::Null,
    };
    let ghost uvv = uv@;
    params.push((String::from_str(":__user_id"), uv));
    let rv = match record_id {
        Some(id) => id.duplicate(),
        None => SqlValue::Null,
    };
    let ghost rvv = rv@;
    params.push((String::from_str(":__record_id"), rv));
    proof {
        assert(sql_params_view(params@) =~= before + seq![(":__user_id"@, uvv), (":__record_id"@, rvv)]);
    }
    Ok(params)
}

impl RecordApiState {
    /// What a record-level access check asks for: refusal when the ACL grants `p` to
    /// nobody the caller is, nothing more when `p` has no access query, else the query and
    /// its parameters to run.
    pub fn access_plan(
        &self,
        p: Permission,
        is_table: bool,
        columns: &Vec<Column>,
        record_id: Option<&SqlValue>,
        request: Option<&RequestParams>,
        user_id: Option<Vec<u8>>,
    ) -> (r: Result<Option<(String, Vec<(String, SqlValue)>)>, RecordError>)
        requires
            request matches Some(req) ==> req.column_names@.len() == req.named_params@.len(),
        ensures
            !((user_id is Some && grants(self.acl@[1], p)) || grants(self.acl@[0], p)) ==> r == Err::<
                Option<(String, Vec<(String, SqlValue)>)>,
                RecordError,
            >(RecordError::Forbidden),
            ((user_id is Some && grants(self.acl@[1], p)) || grants(self.acl@[0], p)) ==> match self.cached_access_query_of(p) {
                None => r == Ok::<Option<(String, Vec<(String, SqlValue)>)>, RecordError>(None),
                Some(q) => if p is Create || p is Update {
                    if !is_table {
                        r == Err::<Option<(String, Vec<(String, SqlValue)>)>, RecordError>(
                            RecordError::ApiRequiresTable,
                        )
                    } else {
                        match request {
                            None => r matches Err(RecordError::Internal(m)) && m@ == "missing req params"@,
                            Some(req) => r matches Ok(Some((text, ps))) && text@ == q && sql_params_view(ps@)
                                == with_request(
                                columns@,
                                views(req.column_names@),
                                sql_params_view(req.named_params@).map_values(
                                    |e: (Seq<char>, SqlValueV)| e.1,
                                ),
                                req.column_names@.len() as int,
                            ) + context_params(opt_bytes(user_id), opt_value(record_id)),
                        }
                    }
                } else {
                    r matches Ok(Some((text, ps))) && text@ == q && sql_params_view(ps@) == context_params(
                        opt_bytes(user_id),
                        opt_value(record_id),
                    )
                },
            },
    {
        let signed_in = user_id.is_some();
        match check_table_level_access(&self.acl, p, signed_in) {
            Ok(()) => {},
            Err(e) => {
                return Err(e);
            },
        }
        let q = match self.cached_access_query(p) {
            None => {
                return Ok(None);
            },
            Some(q) => String::from_str(q),
        };
        match build_named_params(p, is_table, columns, request, user_id, record_id) {
            Ok(params) => Ok(Some((q, params))),
            Err(e) => Err(e),
        }
    }

    /// The access query checked for `p`, if one was built.
    pub open spec fn cached_access_query_of(&self, p: Permission) -> Option<Seq<char>> {
        match p {
            Permission::Create => opt_view(self.create_access_query),
            Permission::Read => opt_view(self.read_access_query),
            Permission::Update => opt_view(self.update_access_query),
            Permission::Delete => opt_view(self.delete_access_query),
            Permission::Schema => opt_view(self.schema_access_query),
        }
    }
}


/// Configured create and update rules are enforced: the state built from a configuration
/// (as `from_config` states it) has their access queries, which `access_plan` then runs.
pub proof fn lemma_write_rules_checked(
    config: RecordApiConfig,
    table: Seq<char>,
    pk: Seq<char>,
    columns: Seq<Column>,
    s: RecordApiState,
)
    requires
        opt_view(s.create_access_query) == opt_query(config.create_access_rule, |q: Seq<char>| create_query(q, columns)),
        opt_view(s.update_access_query) == opt_query(
            config.update_access_rule,
            |q: Seq<char>| update_query(table, pk, q, columns),
        ),
    ensures
        config.create_access_rule matches Some(r) ==> s.cached_access_query_of(Permission::Create) == Some(
            create_query(r@, columns),
        ),
        config.update_access_rule matches Some(r) ==> s.cached_access_query_of(Permission::Update) == Some(
            update_query(table, pk, r@, columns),
        ),
{
}

/// The answer of a record-level access query: allowed only when it returned true; a
/// failed query or a missing row fails closed.
pub fn record_access_answer(allowed: Option<bool>) -> (r: Result<(), RecordError>)
    ensures
        r == if allowed == Some(true) {
            Ok::<(), RecordError>(())
        } else {
            Err::<(), RecordError>(RecordError::Forbidden)
        },
{
    match allowed {
        Some(true) => Ok(()),
        _ => Err(RecordError::Forbidden),
    }
}

/// The parameters of the read check of a change sent to subscribers: the user, then each
/// field of the changed record under its column's placeholder.
pub fn subscription_read_params(user_id: Option<Vec<u8>>, record: &Vec<(String, SqlValue)>) -> (r: Vec<(String, SqlValue)>)
    ensures
        sql_params_view(r@) == seq![(":__user_id"@, user_param(opt_bytes(user_id)))] + record@.map_values(
            |e: (String, SqlValue)| (seq![':'] + e.0@, e.1@),
        ),
{
    let mut r: Vec<(String, SqlValue)> = Vec::new();
    let uv = match user_id {
        Some(u) => SqlValue::Blob(u),
        None => SqlValue::Null,
    };
    r.push((String::from_str(":__user_id"), uv));
    let ghost head = sql_params_view(r@);
    let mut i: usize = 0;
    while i < record.len()
        invariant
            i <= record@.len(),
            head == seq![(":__user_id"@, user_param(opt_bytes(user_id)))],
            sql_params_view(r@) == head + record@.take(i as int).map_values(
                |e: (String, SqlValue)| (seq![':'] + e.0@, e.1@),
            ),
        decreases record.len() - i,
    {
        let ghost before = r@;
        r.push((prefix_colon(record[i].0.as_str()), record[i].1.duplicate()));
        proof {
            assert(record@.take(i + 1).map_values(|e: (String, SqlValue)| (seq![':'] + e.0@, e.1@))
                =~= record@.take(i as int).map_values(|e: (String, SqlValue)| (seq![':'] + e.0@, e.1@)).push(
                (seq![':'] + record@[i as int].0@, record@[i as int].1@),
            ));
            assert(sql_params_view(r@) =~= sql_params_view(before).push(
                (seq![':'] + record@[i as int].0@, record@[i as int].1@),
            ));
        }
        i += 1;
    }
    proof {
        assert(record@.take(i as int) =~= record@);
    }
    r
}

} // verus!

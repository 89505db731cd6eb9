//! Query APIs: read-only endpoints over a virtual table, whose typed parameters come from
//! the query string and whose access is checked against an ACL and an optional rule.
use vstd::prelude::*;

use crate::listing::{form_pairs, parse_form, sql_params_view};
use crate::num::{is_float, is_float_literal, parse_i64, parsed_i64};
use crate::records::{SqlValue, SqlValueV};
use crate::text::{join, lemma_views_push, seq_join, str_eq, views};
use crate::util::{base64_url_decode, base64_url_decoded};

verus! {

/// The type of a query API parameter.
#[derive(Clone, Copy, Debug, PartialEq, Eq)]
pub enum QueryApiParameterType {
    Text,
    Blob,
    Real,
    Integer,
}

/// Who may call a query API.
#[derive(Clone, Copy, Debug, PartialEq, Eq)]
pub enum QueryApiAcl {
    Undefined,
    World,
    Authenticated,
}

/// A configured parameter: its name and type, when given and known.
#[derive(Clone, Debug, Default, PartialEq, Eq)]
pub struct QueryApiParameter {
    pub name: Option<String>,
    pub param_type: Option<QueryApiParameterType>,
}

/// The configuration of a query API.
#[derive(Clone, Debug, Default, PartialEq, Eq)]
pub struct QueryApiConfig {
    pub name: Option<String>,
    pub virtual_table_name: Option<String>,
    pub params: Vec<QueryApiParameter>,
    pub acl: Option<QueryApiAcl>,
    pub access_rule: Option<String>,
}

/// Why a query request failed.
#[derive(Clone, Debug, PartialEq, Eq)]
pub enum QueryError {
    ApiNotFound,
    BadRequest(&'static str),
    Forbidden,
    Internal(String),
}

/// A query API: its name, the virtual table it reads, its typed parameters and its access
/// control.
#[derive(Clone, Debug, PartialEq, Eq)]
pub struct QueryApi {
    pub api_name: String,
    pub virtual_table_name: String,
    pub params: Vec<(String, QueryApiParameterType)>,
    pub acl: Option<QueryApiAcl>,
    pub access_rule: Option<String>,
}

/// The parameters of the configuration that have both a name and a known type, in order.
pub open spec fn typed_params(ps: Seq<QueryApiParameter>) -> Seq<(Seq<char>, QueryApiParameterType)>
    decreases ps.len(),
{
    if ps.len() == 0 {
        Seq::empty()
    } else {
        let init = typed_params(ps.drop_last());
        match (ps.last().name, ps.last().param_type) {
            (Some(n), Some(t)) => init.push((n@, t)),
            _ => init,
        }
    }
}

pub open spec fn params_view(ps: Seq<(String, QueryApiParameterType)>) -> Seq<(Seq<char>, QueryApiParameterType)> {
    ps.map_values(|p: (String, QueryApiParameterType)| (p.0@, p.1))
}

pub open spec fn opt_text(o: Option<String>) -> Option<Seq<char>> {
    match o {
        Some(s) => Some(s@),
        None => None,
    }
}

impl QueryApi {
    /// The query API of a configuration; it needs a name and a virtual table.
    pub fn from(config: &QueryApiConfig) -> (r: Result<QueryApi, String>)
        ensures
            config.name is None ==> (r matches Err(e) && e@ == "Missing name"@),
            config.name is Some && config.virtual_table_name is None ==> (r matches Err(e) && e@
                == "Missing vtable name"@),
            r matches Ok(api) ==> {
                &&& config.name matches Some(n) && api.api_name@ == n@
                &&& config.virtual_table_name matches Some(v) && api.virtual_table_name@ == v@
                &&& params_view(api.params@) == typed_params(config.params@)
                &&& api.acl == config.acl
                &&& opt_text(api.access_rule) == opt_text(config.access_rule)
            },
            config.name is Some && config.virtual_table_name is Some ==> r is Ok,
    {
        let api_name = match &config.name {
            Some(n) => n.clone(),
            None => {
                return Err(String::from_str("Missing name"));
            },
        };
        let virtual_table_name = match &config.virtual_table_name {
            Some(v) => v.clone(),
            None => {
                return Err(String::from_str("Missing vtable name"));
            },
        };
        let mut params: Vec<(String, QueryApiParameterType)> = Vec::new();
        let mut i: usize = 0;
        while i < config.params.len()
            invariant
                i <= config.params@.len(),
                params_view(params@) == typed_params(config.params@.take(i as int)),
            decreases config.params.len() - i,
        {
            proof {
                let t = config.params@.take(i + 1);
                assert(t.drop_last() =~= config.params@.take(i as int));
                assert(t.last() == config.params@[i as int]);
            }
            match (&config.params[i].name, config.params[i].param_type) {
                (Some(n), Some(t)) => {
                    let ghost before = params@;
                    params.push((n.clone(), t));
                    proof {
                        assert(params_view(params@) =~= params_view(before).push((n@, t)));
                    }
                },
                _ => {},
            }
            i += 1;
        }
        proof {
            assert(config.params@.take(i as int) =~= config.params@);
        }
        Ok(
            QueryApi {
                api_name,
                virtual_table_name,
                params,
                acl: config.acl,
                access_rule: match &config.access_rule {
                    Some(r) => Some(r.clone()),
                    None => None,
                },
            },
        )
    }

    pub fn api_name(&self) -> (r: &str)
        ensures
            r@ == self.api_name@,
    {
        self.api_name.as_str()
    }

    pub fn virtual_table_name(&self) -> (r: &str)
        ensures
            r@ == self.virtual_table_name@,
    {
        self.virtual_table_name.as_str()
    }

    pub fn params(&self) -> (r: &Vec<(String, QueryApiParameterType)>)
        ensures
            r == &self.params,
    {
        &self.params
    }
}

/// The value of the last pair named `name`.
pub open spec fn last_value(pairs: Seq<(Seq<char>, Seq<char>)>, name: Seq<char>) -> Option<Seq<char>>
    decreases pairs.len(),
{
    if pairs.len() == 0 {
        None
    } else if pairs.last().0 == name {
        Some(pairs.last().1)
    } else {
        last_value(pairs.drop_last(), name)
    }
}

/// Whether parameter `i` has the name of an earlier one.
pub open spec fn named_earlier(params: Seq<(Seq<char>, QueryApiParameterType)>, i: int) -> bool {
    exists|j: int| 0 <= j < i && (#[trigger] params[j]).0 == params[i].0
}

/// The text given for parameter `i`: the last value under its name, which only the first
/// parameter of that name receives.
pub open spec fn param_text(
    params: Seq<(Seq<char>, QueryApiParameterType)>,
    pairs: Seq<(Seq<char>, Seq<char>)>,
    i: int,
) -> Option<Seq<char>> {
    if named_earlier(params, i) {
        None
    } else {
        last_value(pairs, params[i].0)
    }
}

/// The SQL value of a parameter of type `t` given `v`, or the complaint: a missing value
/// is `NULL`, blobs are url-safe base64, reals and integers must parse.
pub open spec fn typed_value(t: QueryApiParameterType, v: Option<Seq<char>>) -> Result<SqlValueV, &'static str> {
    match v {
        None => Ok(SqlValueV::Null),
        Some(v) => match t {
            QueryApiParameterType::Text => Ok(SqlValueV::Text(v)),
            QueryApiParameterType::Blob => match base64_url_decoded(v) {
                Some(b) => Ok(SqlValueV::Blob(b)),
                None => Err("not b64"),
            },
            QueryApiParameterType::Real => if is_float_literal(v) {
                Ok(SqlValueV::Real(v))
            } else {
                Err("expected f64")
            },
            QueryApiParameterType::Integer => match parsed_i64(v) {
                Some(i) => Ok(SqlValueV::Integer(i)),
                None => Err("expected i64"),
            },
        },
    }
}

/// The bound placeholders of the first `n` parameters, or the first complaint.
pub open spec fn bound_prefix(
    params: Seq<(Seq<char>, QueryApiParameterType)>,
    pairs: Seq<(Seq<char>, Seq<char>)>,
    n: int,
) -> Result<Seq<(Seq<char>, SqlValueV)>, &'static str>
    decreases n,
{
    if n <= 0 {
        Ok(Seq::empty())
    } else {
        match bound_prefix(params, pairs, n - 1) {
            Err(e) => Err(e),
            Ok(s) => match typed_value(params[n - 1].1, param_text(params, pairs, n - 1)) {
                Err(e) => Err(e),
                Ok(v) => Ok(s.push((seq![':'] + params[n - 1].0, v))),
            },
        }
    }
}

/// Whether the query names something that is no parameter.
pub open spec fn unknown_param(params: Seq<(Seq<char>, QueryApiParameterType)>, pairs: Seq<(Seq<char>, Seq<char>)>) -> bool {
    exists|k: int|
        0 <= k < pairs.len() && forall|j: int| 0 <= j < params.len() ==> (#[trigger] params[j]).0 != (
        #[trigger] pairs[k]).0
}

/// Every parameter bound, in order, as `:name`; or the complaint.
pub open spec fn bound_query_params(
    params: Seq<(Seq<char>, QueryApiParameterType)>,
    pairs: Seq<(Seq<char>, Seq<char>)>,
) -> Result<Seq<(Seq<char>, SqlValueV)>, &'static str> {
    match bound_prefix(params, pairs, params.len() as int) {
        Err(e) => Err(e),
        Ok(s) => if unknown_param(params, pairs) {
            Err("invalid query param")
        } else {
            Ok(s)
        },
    }
}

/// The name/value pairs of an optional query string.
pub open spec fn query_pairs(query: Option<&str>) -> Seq<(Seq<char>, Seq<char>)> {
    match query {
        Some(q) => form_pairs(q@),
        None => Seq::empty(),
    }
}

fn last_value_of<'a>(pairs: &'a Vec<(String, String)>, name: &str) -> (r: Option<&'a String>)
    ensures
        match r {
            Some(v) => last_value(views_of_pairs(pairs@), name@) == Some(v@),
            None => last_value(views_of_pairs(pairs@), name@) is None,
        },
{
    let ghost pv = views_of_pairs(pairs@);
    let mut i: usize = pairs.len();
    proof {
        assert(pv.take(i as int) =~= pv);
    }
    while i > 0
        invariant
            i <= pairs@.len(),
            pv == views_of_pairs(pairs@),
            last_value(pv, name@) == last_value(pv.take(i as int), name@),
        decreases i,
    {
        proof {
            let t = pv.take(i as int);
            assert(t.drop_last() =~= pv.take(i - 1));
            assert(t.last() == pv[i - 1]);
        }
        if str_eq(pairs[i - 1].0.as_str(), name) {
            return Some(&pairs[i - 1].1);
        }
        i -= 1;
    }
    None
}

pub open spec fn views_of_pairs(p: Seq<(String, String)>) -> Seq<(Seq<char>, Seq<char>)> {
    p.map_values(|e: (String, String)| (e.0@, e.1@))
}

fn is_named_earlier(params: &Vec<(String, QueryApiParameterType)>, i: usize) -> (r: bool)
    requires
        i < params@.len(),
    ensures
        r == named_earlier(params_view(params@), i as int),
{
    let ghost pv = params_view(params@);
    let mut j: usize = 0;
    while j < i
        invariant
            j <= i < params@.len(),
            pv == params_view(params@),
            forall|k: int| 0 <= k < j ==> (#[trigger] pv[k]).0 != pv[i as int].0,
        decreases i - j,
    {
        if str_eq(params[j].0.as_str(), params[i].0.as_str()) {
            proof {
                assert(pv[j as int].0 == pv[i as int].0);
            }
            return true;
        }
        j += 1;
    }
    false
}

fn is_parameter(params: &Vec<(String, QueryApiParameterType)>, name: &str) -> (r: bool)
    ensures
        r == exists|j: int| 0 <= j < params@.len() && (#[trigger] params_view(params@)[j]).0 == name@,
{
    let ghost pv = params_view(params@);
    let mut j: usize = 0;
    while j < params.len()
        invariant
            j <= params@.len(),
            pv == params_view(params@),
            forall|k: int| 0 <= k < j ==> (#[trigger] pv[k]).0 != name@,
        decreases params.len() - j,
    {
        if str_eq(params[j].0.as_str(), name) {
            proof {
                assert(pv[j as int].0 == name@);
            }
            return true;
        }
        j += 1;
    }
    false
}

fn typed(t: QueryApiParameterType, v: Option<&String>) -> (r: Result<SqlValue, &'static str>)
    ensures
        match r {
            Ok(x) => typed_value(t, opt_text_ref(v)) == Ok::<SqlValueV, &'static str>(x@),
            Err(e) => typed_value(t, opt_text_ref(v)) == Err::<SqlValueV, &'static str>(e),
        },
{
    match v {
        None => Ok(SqlValue::Null),
        Some(v) => match t {
            QueryApiParameterType::Text => Ok(SqlValue::Text(v.clone())),
            QueryApiParameterType::Blob => match base64_url_decode(v.as_str()) {
                Some(b) => Ok(SqlValue::Blob(b)),
                None => Err("not b64"),
            },
            QueryApiParameterType::Real => if is_float(v.as_str()) {
                Ok(SqlValue::Real(v.clone()))
            } else {
                Err("expected f64")
            },
            QueryApiParameterType::Integer => match parse_i64(v.as_str()) {
                Some(i) => Ok(SqlValue::Integer(i)),
                None => Err("expected i64"),
            },
        },
    }
}

pub open spec fn opt_text_ref(o: Option<&String>) -> Option<Seq<char>> {
    match o {
        Some(s) => Some(s@),
        None => None,
    }
}

/// Binds the query string's values to the API's parameters, in the parameters' order, as
/// named placeholders `:name`; a parameter without a value is `NULL`.
pub fn bind_query_params(params: &Vec<(String, QueryApiParameterType)>, query: Option<&str>) -> (r: Result<
    Vec<(String, SqlValue)>,
    QueryError,
>)
    ensures
        match bound_query_params(params_view(params@), query_pairs(query)) {
            Ok(s) => r matches Ok(v) && sql_params_view(v@) == s,
            Err(e) => r == Err::<Vec<(String, SqlValue)>, QueryError>(QueryError::BadRequest(e)),
        },
{
    let pairs: Vec<(String, String)> = match query {
        Some(q) => parse_form(q),
        None => Vec::new(),
    };
    let ghost pv = params_view(params@);
    let ghost qp = query_pairs(query);
    proof {
        assert(views_of_pairs(pairs@) =~= qp);
    }
    let mut out: Vec<(String, SqlValue)> = Vec::new();
    let mut i: usize = 0;
    proof {
        assert(sql_params_view(out@) =~= Seq::<(Seq<char>, SqlValueV)>::empty());
    }
    while i < params.len()
        invariant
            i <= params@.len(),
            pv == params_view(params@),
            qp == views_of_pairs(pairs@),
            qp == query_pairs(query),
            bound_prefix(pv, qp, i as int) == Ok::<Seq<(Seq<char>, SqlValueV)>, &'static str>(
                sql_params_view(out@),
            ),
        decreases params.len() - i,
    {
        let earlier = is_named_earlier(params, i);
        let text = if earlier {
            None
        } else {
            last_value_of(&pairs, params[i].0.as_str())
        };
        proof {
            assert(opt_text_ref(text) == param_text(pv, qp, i as int));
        }
        match typed(params[i].1, text) {
            Ok(v) => {
                let mut name = String::new();
                crate::text::push_char(&mut name, ':');
                name.append(params[i].0.as_str());
                let ghost before = out@;
                out.push((name, v));
                proof {
                    assert(sql_params_view(out@) =~= sql_params_view(before).push(
                        (seq![':'] + pv[i as int].0, v@),
                    ));
                }
            },
            Err(e) => {
                proof {
                    assert(bound_prefix(pv, qp, i as int + 1) == Err::<Seq<(Seq<char>, SqlValueV)>, &'static str>(e));
                    lemma_bound_prefix_error(pv, qp, i as int + 1, params@.len() as int);
                }
                return Err(QueryError::BadRequest(e));
            },
        }
        i += 1;
    }
    let mut k: usize = 0;
    while k < pairs.len()
        invariant
            k <= pairs@.len(),
            pv == params_view(params@),
            qp == views_of_pairs(pairs@),
            qp == query_pairs(query),
            forall|m: int|
                0 <= m < k ==> exists|j: int| 0 <= j < pv.len() && (#[trigger] pv[j]).0 == (#[trigger] qp[m]).0,
            bound_prefix(pv, qp, params@.len() as int) == Ok::<Seq<(Seq<char>, SqlValueV)>, &'static str>(
                sql_params_view(out@),
            ),
        decreases pairs.len() - k,
    {
        if !is_parameter(params, pairs[k].0.as_str()) {
            proof {
                assert(qp[k as int].0 == pairs@[k as int].0@);
                assert forall|j: int| 0 <= j < pv.len() implies (#[trigger] pv[j]).0 != qp[k as int].0 by {}
                assert(unknown_param(pv, qp));
            }
            return Err(QueryError::BadRequest("invalid query param"));
        }
        k += 1;
    }
    proof {
        assert(!unknown_param(pv, qp)) by {
            if unknown_param(pv, qp) {
                let m = choose|m: int|
                    0 <= m < qp.len() && forall|j: int| 0 <= j < pv.len() ==> (#[trigger] pv[j]).0 != (
                    #[trigger] qp[m]).0;
                let j = choose|j: int| 0 <= j < pv.len() && (#[trigger] pv[j]).0 == (#[trigger] qp[m]).0;
            }
        }
    }
    Ok(out)
}

proof fn lemma_bound_prefix_error(
    params: Seq<(Seq<char>, QueryApiParameterType)>,
    pairs: Seq<(Seq<char>, Seq<char>)>,
    n: int,
    m: int,
)
    requires
        0 < n <= m,
        bound_prefix(params, pairs, n) is Err,
    ensures
        bound_prefix(params, pairs, m) == bound_prefix(params, pairs, n),
    decreases m - n,
{
    if n < m {
        lemma_bound_prefix_error(params, pairs, n, m - 1);
    }
}

/// The number of rows a query API answers with at most.
pub const QUERY_LIMIT: usize = 128;

/// The query over the virtual table, its placeholders passed as arguments.
pub open spec fn select_query_text(virtual_table_name: Seq<char>, placeholders: Seq<Seq<char>>) -> Seq<char> {
    "SELECT * FROM "@ + virtual_table_name + "("@ + seq_join(placeholders, ", "@)
        + ") WHERE TRUE LIMIT 128"@
}

pub open spec fn param_names(p: Seq<(String, SqlValue)>) -> Seq<Seq<char>> {
    p.map_values(|e: (String, SqlValue)| e.0@)
}

fn names_of(params: &Vec<(String, SqlValue)>) -> (r: Vec<String>)
    ensures
        views(r@) == param_names(params@),
{
    let mut r: Vec<String> = Vec::new();
    let mut i: usize = 0;
    while i < params.len()
        invariant
            i <= params@.len(),
            views(r@) == param_names(params@.take(i as int)),
        decreases params.len() - i,
    {
        proof {
            lemma_views_push(r@, params@[i as int].0);
            assert(param_names(params@.take(i + 1)) =~= param_names(params@.take(i as int)).push(
                params@[i as int].0@,
            ));
        }
        r.push(params[i].0.clone());
        i += 1;
    }
    proof {
        assert(params@.take(i as int) =~= params@);
    }
    r
}

/// The query a query API runs with its bound parameters.
pub fn select_query(virtual_table_name: &str, params: &Vec<(String, SqlValue)>) -> (r: String)
    ensures
        r@ == select_query_text(virtual_table_name@, param_names(params@)),
{
    let names = names_of(params);
    let mut q = String::from_str("SELECT * FROM ");
    q.append(virtual_table_name);
    q.append("(");
    q.append(join(&names, ", ").as_str());
    q.append(") WHERE TRUE LIMIT 128");
    q
}

/// The placeholder's name without its leading `:`, if it has one.
pub open spec fn strip_colon(p: Seq<char>) -> Option<Seq<char>> {
    if p.len() > 0 && p[0] == ':' {
        Some(p.skip(1))
    } else {
        None
    }
}

/// `:name AS name` for each placeholder with a leading `:`.
pub open spec fn alias_terms(ps: Seq<Seq<char>>) -> Seq<Seq<char>>
    decreases ps.len(),
{
    if ps.len() == 0 {
        Seq::empty()
    } else {
        match strip_colon(ps.last()) {
            Some(n) => alias_terms(ps.drop_last()).push(ps.last() + " AS "@ + n),
            None => alias_terms(ps.drop_last()),
        }
    }
}

/// The access query of a rule: the rule evaluated with the user as `_USER_` and the
/// parameters as `_PARAMS_`.
pub open spec fn access_query_text(rule: Seq<char>, placeholders: Seq<Seq<char>>) -> Seq<char> {
    "\n              SELECT\n                ("@ + rule
        + ")\n              FROM\n                (SELECT :__user_id AS id) AS _USER_,\n                (SELECT "@
        + seq_join(alias_terms(placeholders), ", "@) + ") AS _PARAMS_\n            "@
}

fn alias_list(params: &Vec<(String, SqlValue)>) -> (r: Vec<String>)
    ensures
        views(r@) == alias_terms(param_names(params@)),
{
    let ghost names = param_names(params@);
    let mut r: Vec<String> = Vec::new();
    let mut i: usize = 0;
    while i < params.len()
        invariant
            i <= params@.len(),
            names == param_names(params@),
            views(r@) == alias_terms(names.take(i as int)),
        decreases params.len() - i,
    {
        proof {
            let t = names.take(i + 1);
            assert(t.drop_last() =~= names.take(i as int));
            assert(t.last() == params@[i as int].0@);
        }
        let p = params[i].0.as_str();
        let n = p.unicode_len();
        if n > 0 && p.get_char(0) == ':' {
            let mut term = String::from_str(p);
            term.append(" AS ");
            term.append(p.substring_char(1, n));
            proof {
                assert(p@.subrange(1, n as int) =~= p@.skip(1));
                lemma_views_push(r@, term);
            }
            r.push(term);
        }
        i += 1;
    }
    proof {
        assert(names.take(i as int) =~= names);
    }
    r
}

/// Whether a caller gets past the ACL: anyone for `World`, signed-in users for
/// `Authenticated`, nobody otherwise.
pub open spec fn acl_admits(acl: Option<QueryApiAcl>, signed_in: bool) -> bool {
    match acl {
        Some(QueryApiAcl::World) => true,
        Some(QueryApiAcl::Authenticated) => signed_in,
        _ => false,
    }
}

pub open spec fn user_value(user_id: Option<Seq<u8>>) -> SqlValueV {
    match user_id {
        Some(u) => SqlValueV::Blob(u),
        None => SqlValueV::Null,
    }
}

pub open spec fn opt_bytes(o: Option<Vec<u8>>) -> Option<Seq<u8>> {
    match o {
        Some(b) => Some(b@),
        None => None,
    }
}

fn copy_params(params: &Vec<(String, SqlValue)>) -> (r: Vec<(String, SqlValue)>)
    ensures
        sql_params_view(r@) == sql_params_view(params@),
{
    let mut r: Vec<(String, SqlValue)> = Vec::new();
    let mut i: usize = 0;
    while i < params.len()
        invariant
            i <= params@.len(),
            sql_params_view(r@) == sql_params_view(params@.take(i as int)),
        decreases params.len() - i,
    {
        let ghost before = r@;
        r.push((params[i].0.clone(), params[i].1.duplicate()));
        proof {
            assert(sql_params_view(r@) =~= sql_params_view(before).push((params@[i as int].0@, params@[i as int].1@)));
            assert(sql_params_view(params@.take(i + 1)) =~= sql_params_view(params@.take(i as int)).push(
                (params@[i as int].0@, params@[i as int].1@),
            ));
        }
        i += 1;
    }
    proof {
        assert(params@.take(i as int) =~= params@);
    }
    r
}

impl QueryApi {
    /// What access to the API asks for: refusal when the ACL does not admit the caller,
    /// nothing more without an access rule, else the access query and its parameters (the
    /// bound ones, then the user's id) to run.
    pub fn access_plan(&self, query_params: &Vec<(String, SqlValue)>, user_id: Option<Vec<u8>>) -> (r: Result<
        Option<(String, Vec<(String, SqlValue)>)>,
        QueryError,
    >)
        ensures
            !acl_admits(self.acl, user_id is Some) ==> r == Err::<
                Option<(String, Vec<(String, SqlValue)>)>,
                QueryError,
            >(QueryError::Forbidden),
            acl_admits(self.acl, user_id is Some) && self.access_rule is None ==> r == Ok::<
                Option<(String, Vec<(String, SqlValue)>)>,
                QueryError,
            >(None),
            acl_admits(self.acl, user_id is Some) && self.access_rule is Some ==> (r matches Ok(Some((q, ps))) && {
                &&& self.access_rule matches Some(rule) && q@ == access_query_text(
                    rule@,
                    param_names(query_params@),
                )
                &&& sql_params_view(ps@) == sql_params_view(query_params@).push(
                    (":__user_id"@, user_value(opt_bytes(user_id))),
                )
            }),
    {
        let admitted = match self.acl {
            Some(QueryApiAcl::World) => true,
            Some(QueryApiAcl::Authenticated) => user_id.is_some(),
            _ => false,
        };
        if !admitted {
            return Err(QueryError::Forbidden);
        }
        match &self.access_rule {
            None => Ok(None),
            Some(rule) => {
                let aliases = alias_list(query_params);
                let mut q = String::from_str("\n              SELECT\n                (");
                q.append(rule.as_str());
                q.append(")\n              FROM\n                (SELECT :__user_id AS id) AS _USER_,\n                (SELECT ");
                q.append(join(&aliases, ", ").as_str());
                q.append(") AS _PARAMS_\n            ");
                let mut ps = copy_params(query_params);
                let ghost before = ps@;
                let v = match user_id {
                    Some(u) => SqlValue::Blob(u),
                    None => SqlValue::Null,
                };
                let ghost vv = v@;
                ps.push((String::from_str(":__user_id"), v));
                proof {
                    assert(sql_params_view(ps@) =~= sql_params_view(before).push((":__user_id"@, vv)));
                }
                Ok(Some((q, ps)))
            },
        }
    }
}

/// The answer to an access query: allowed only when it returned true; a failed query or a
/// `NULL` fails closed.
pub fn access_answer(allowed: Option<bool>) -> (r: Result<(), QueryError>)
    ensures
        r == if allowed == Some(true) {
            Ok::<(), QueryError>(())
        } else {
            Err::<(), QueryError>(QueryError::Forbidden)
        },
{
    match allowed {
        Some(true) => Ok(()),
        _ => Err(QueryError::Forbidden),
    }
}

} // verus!

//! The decisions of the JavaScript runtime's host side: which HTTP method a route is
//! registered for, which modules may be imported, how query arguments from scripts become
//! SQL values, and how pending completions are drained.
use vstd::prelude::*;

use crate::json_params::{number_i64, JsonNumber, JsonValue};
use crate::records::{SqlValue, SqlValueV};
use crate::subscriptions::{dead_valid, pruned, swap_removed};
use crate::text::{str_eq, to_uppercase, uppercase};

verus! {

/// The HTTP methods a script can add a route for.
#[derive(Clone, Copy, Debug, PartialEq, Eq)]
pub enum HttpMethod {
    Delete,
    Get,
    Head,
    Options,
    Patch,
    Post,
    Put,
    Trace,
}

/// The method named by an upper-case text.
pub open spec fn method_named(m: Seq<char>) -> Option<HttpMethod> {
    if m == "DELETE"@ {
        Some(HttpMethod::Delete)
    } else if m == "GET"@ {
        Some(HttpMethod::Get)
    } else if m == "HEAD"@ {
        Some(HttpMethod::Head)
    } else if m == "OPTIONS"@ {
        Some(HttpMethod::Options)
    } else if m == "PATCH"@ {
        Some(HttpMethod::Patch)
    } else if m == "POST"@ {
        Some(HttpMethod::Post)
    } else if m == "PUT"@ {
        Some(HttpMethod::Put)
    } else if m == "TRACE"@ {
        Some(HttpMethod::Trace)
    } else {
        None
    }
}

/// The HTTP methods by their names: `DELETE`, `GET`, `HEAD`, `OPTIONS`, `PATCH`, `POST`,
/// `PUT` and `TRACE`.
pub proof fn lemma_method_names()
    ensures
        method_named("DELETE"@) == Some(HttpMethod::Delete),
        method_named("GET"@) == Some(HttpMethod::Get),
        method_named("HEAD"@) == Some(HttpMethod::Head),
        method_named("OPTIONS"@) == Some(HttpMethod::Options),
        method_named("PATCH"@) == Some(HttpMethod::Patch),
        method_named("POST"@) == Some(HttpMethod::Post),
        method_named("PUT"@) == Some(HttpMethod::Put),
        method_named("TRACE"@) == Some(HttpMethod::Trace),
{
    reveal_strlit("DELETE");
    reveal_strlit("GET");
    reveal_strlit("HEAD");
    reveal_strlit("OPTIONS");
    reveal_strlit("PATCH");
    reveal_strlit("POST");
    reveal_strlit("PUT");
    reveal_strlit("TRACE");
    assert("DELETE"@ != "GET"@) by {
        assert("DELETE"@.len() != "GET"@.len());
    }
    assert("DELETE"@ != "HEAD"@) by {
        assert("DELETE"@.len() != "HEAD"@.len());
    }
    assert("DELETE"@ != "OPTIONS"@) by {
        assert("DELETE"@.len() != "OPTIONS"@.len());
    }
    assert("DELETE"@ != "PATCH"@) by {
        assert("DELETE"@.len() != "PATCH"@.len());
    }
    assert("DELETE"@ != "POST"@) by {
        assert("DELETE"@.len() != "POST"@.len());
    }
    assert("DELETE"@ != "PUT"@) by {
        assert("DELETE"@.len() != "PUT"@.len());
    }
    assert("DELETE"@ != "TRACE"@) by {
        assert("DELETE"@.len() != "TRACE"@.len());
    }
    assert("GET"@ != "HEAD"@) by {
        assert("GET"@.len() != "HEAD"@.len());
    }
    assert("GET"@ != "OPTIONS"@) by {
        assert("GET"@.len() != "OPTIONS"@.len());
    }
    assert("GET"@ != "PATCH"@) by {
        assert("GET"@.len() != "PATCH"@.len());
    }
    assert("GET"@ != "POST"@) by {
        assert("GET"@.len() != "POST"@.len());
    }
    assert("GET"@ != "PUT"@) by {
        assert("GET"@[0] != "PUT"@[0]);
    }
    assert("GET"@ != "TRACE"@) by {
        assert("GET"@.len() != "TRACE"@.len());
    }
    assert("HEAD"@ != "OPTIONS"@) by {
        assert("HEAD"@.len() != "OPTIONS"@.len());
    }
    assert("HEAD"@ != "PATCH"@) by {
        assert("HEAD"@.len() != "PATCH"@.len());
    }
    assert("HEAD"@ != "POST"@) by {
        assert("HEAD"@[0] != "POST"@[0]);
    }
    assert("HEAD"@ != "PUT"@) by {
        assert("HEAD"@.len() != "PUT"@.len());
    }
    assert("HEAD"@ != "TRACE"@) by {
        assert("HEAD"@.len() != "TRACE"@.len());
    }
    assert("OPTIONS"@ != "PATCH"@) by {
        assert("OPTIONS"@.len() != "PATCH"@.len());
    }
    assert("OPTIONS"@ != "POST"@) by {
        assert("OPTIONS"@.len() != "POST"@.len());
    }
    assert("OPTIONS"@ != "PUT"@) by {
        assert("OPTIONS"@.len() != "PUT"@.len());
    }
    assert("OPTIONS"@ != "TRACE"@) by {
        assert("OPTIONS"@.len() != "TRACE"@.len());
    }
    assert("PATCH"@ != "POST"@) by {
        assert("PATCH"@.len() != "POST"@.len());
    }
    assert("PATCH"@ != "PUT"@) by {
        assert("PATCH"@.len() != "PUT"@.len());
    }
    assert("PATCH"@ != "TRACE"@) by {
        assert("PATCH"@[0] != "TRACE"@[0]);
    }
    assert("POST"@ != "PUT"@) by {
        assert("POST"@.len() != "PUT"@.len());
    }
    assert("POST"@ != "TRACE"@) by {
        assert("POST"@.len() != "TRACE"@.len());
    }
    assert("PUT"@ != "TRACE"@) by {
        assert("PUT"@.len() != "TRACE"@.len());
    }
}

/// The method of a route a script adds, in any case; another name is refused with
/// `method: <NAME>`.
pub fn route_method(method: &str) -> (r: Result<HttpMethod, String>)
    ensures
        match method_named(uppercase(method@)) {
            Some(m) => r == Ok::<HttpMethod, String>(m),
            None => r matches Err(e) && e@ == "method: "@ + uppercase(method@),
        },
{
    let upper = to_uppercase(method);
    let u = upper.as_str();
    if str_eq(u, "DELETE") {
        Ok(HttpMethod::Delete)
    } else if str_eq(u, "GET") {
        Ok(HttpMethod::Get)
    } else if str_eq(u, "HEAD") {
        Ok(HttpMethod::Head)
    } else if str_eq(u, "OPTIONS") {
        Ok(HttpMethod::Options)
    } else if str_eq(u, "PATCH") {
        Ok(HttpMethod::Patch)
    } else if str_eq(u, "POST") {
        Ok(HttpMethod::Post)
    } else if str_eq(u, "PUT") {
        Ok(HttpMethod::Put)
    } else if str_eq(u, "TRACE") {
        Ok(HttpMethod::Trace)
    } else {
        let mut e = String::from_str("method: ");
        e.append(u);
        Err(e)
    }
}

/// Whether a module may be resolved: `file:` and `trailbase:` ones may; others are
/// refused as `Unsupported schema: '<scheme>'`.
pub fn resolve_module_scheme(scheme: &str) -> (r: Result<(), String>)
    ensures
        (scheme@ == "file"@ || scheme@ == "trailbase"@) ==> r == Ok::<(), String>(()),
        !(scheme@ == "file"@ || scheme@ == "trailbase"@) ==> (r matches Err(e) && e@
            == "Unsupported schema: '"@ + scheme@ + "'"@),
{
    if str_eq(scheme, "file") || str_eq(scheme, "trailbase") {
        Ok(())
    } else {
        let mut e = String::from_str("Unsupported schema: '");
        e.append(scheme);
        e.append("'");
        Err(e)
    }
}

/// Whether importing a module is answered with the runtime's own `index.js`: for the
/// `trailbase:` scheme only.
pub fn imports_runtime_index(scheme: &str) -> (r: bool)
    ensures
        r == (scheme@ == "trailbase"@),
{
    str_eq(scheme, "trailbase")
}

/// The SQL value of a query argument from a script: objects and arrays are refused,
/// booleans are 0 or 1, numbers are integers (unsigned ones beyond `i64` wrapping) or
/// reals.
pub open spec fn script_param(v: JsonValue) -> Result<SqlValueV, Seq<char>> {
    match v {
        JsonValue::Object => Err("Object unsupported"@),
        JsonValue::Array(_) => Err("Array unsupported"@),
        JsonValue::Null => Ok(SqlValueV::Null),
        JsonValue::Bool(b) => Ok(SqlValueV::Integer(if b { 1 } else { 0 })),
        JsonValue::String(s) => Ok(SqlValueV::Text(s@)),
        JsonValue::Number(n) => match number_i64(n) {
            Some(i) => Ok(SqlValueV::Integer(i)),
            None => match n {
                JsonNumber::PosInt(u) => Ok(SqlValueV::Integer(u as i64)),
                JsonNumber::NegInt(i) => Ok(SqlValueV::Integer(i)),
                JsonNumber::Float(f) => Ok(SqlValueV::Real(f@)),
            },
        },
    }
}

/// Converts a query argument from a script to its SQL value.
pub fn json_value_to_param(value: JsonValue) -> (r: Result<SqlValue, String>)
    ensures
        match r {
            Ok(x) => script_param(value) == Ok::<SqlValueV, Seq<char>>(x@),
            Err(e) => script_param(value) == Err::<SqlValueV, Seq<char>>(e@),
        },
{
    match value {
        JsonValue::Object => Err(String::from_str("Object unsupported")),
        JsonValue::Array(_) => Err(String::from_str("Array unsupported")),
        JsonValue::Null => Ok(SqlValue::Null),
        JsonValue::Bool(b) => Ok(SqlValue::Integer(if b { 1 } else { 0 })),
        JsonValue::String(s) => Ok(SqlValue::Text(s)),
        JsonValue::Number(n) => match n {
            JsonNumber::PosInt(u) => if u <= i64::MAX as u64 {
                Ok(SqlValue::Integer(u as i64))
            } else {
                Ok(SqlValue::Integer(u as i64))
            },
            JsonNumber::NegInt(i) => Ok(SqlValue::Integer(i)),
            JsonNumber::Float(f) => Ok(SqlValue::Real(f)),
        },
    }
}

/// The SQL values of all arguments, or the first refusal.
pub open spec fn script_params(vs: Seq<JsonValue>) -> Result<Seq<SqlValueV>, Seq<char>>
    decreases vs.len(),
{
    if vs.len() == 0 {
        Ok(Seq::empty())
    } else {
        match script_params(vs.drop_last()) {
            Err(e) => Err(e),
            Ok(s) => match script_param(vs.last()) {
                Err(e) => Err(e),
                Ok(v) => Ok(s.push(v)),
            },
        }
    }
}

proof fn lemma_script_params_error(vs: Seq<JsonValue>, n: int)
    requires
        0 < n <= vs.len(),
        script_params(vs.take(n)) is Err,
    ensures
        script_params(vs) == script_params(vs.take(n)),
    decreases vs.len() - n,
{
    if n == vs.len() {
        assert(vs.take(n) =~= vs);
    } else {
        let t = vs.take(n + 1);
        assert(t.drop_last() =~= vs.take(n));
        lemma_script_params_error(vs, n + 1);
    }
}

pub open spec fn values_view(v: Seq<SqlValue>) -> Seq<SqlValueV> {
    v.map_values(|x: SqlValue| x@)
}

/// Converts all query arguments from a script, in order.
#[verifier::loop_isolation(false)]
pub fn json_values_to_params(values: Vec<JsonValue>) -> (r: Result<Vec<SqlValue>, String>)
    ensures
        match script_params(values@) {
            Ok(s) => r matches Ok(v) && values_view(v@) == s,
            Err(e) => r matches Err(m) && m@ == e,
        },
{
    let ghost all = values@;
    let mut rest = values;
    let n = rest.len();
    let mut out: Vec<SqlValue> = Vec::new();
    let mut k: usize = 0;
    proof {
        assert(rest@ =~= all.skip(0));
        assert(all.take(0) =~= Seq::<JsonValue>::empty());
        assert(values_view(out@) =~= Seq::<SqlValueV>::empty());
    }
    while rest.len() > 0
        invariant
            k + rest@.len() == all.len(),
            all.len() == n,
            rest@ == all.skip(k as int),
            script_params(all.take(k as int)) == Ok::<Seq<SqlValueV>, Seq<char>>(values_view(out@)),
        decreases rest.len(),
    {
        proof {
            assert(k < all.len());
        }
        let v = rest.remove(0);
        proof {
            assert(v == all[k as int]);
            assert(rest@ =~= all.skip(k + 1));
            let t = all.take(k + 1);
            assert(t.drop_last() =~= all.take(k as int));
            assert(t.last() == all[k as int]);
        }
        match json_value_to_param(v) {
            Ok(x) => {
                let ghost before = out@;
                out.push(x);
                proof {
                    assert(values_view(out@) =~= values_view(before).push(x@));
                }
            },
            Err(e) => {
                proof {
                    assert(script_params(all.take(k + 1)) == Err::<Seq<SqlValueV>, Seq<char>>(e@));
                    lemma_script_params_error(all, k + 1);
                    assert(script_params(all) == Err::<Seq<SqlValueV>, Seq<char>>(e@));
                }
                return Err(e);
            },
        }
        k += 1;
    }
    proof {
        assert(all.take(k as int) =~= all);
    }
    Ok(out)
}

/// The positions whose flag is set, in order.
pub open spec fn true_indices(flags: Seq<bool>) -> Seq<usize>
    decreases flags.len(),
{
    if flags.len() == 0 {
        Seq::empty()
    } else if flags.last() {
        true_indices(flags.drop_last()).push((flags.len() - 1) as usize)
    } else {
        true_indices(flags.drop_last())
    }
}

proof fn lemma_true_indices(flags: Seq<bool>)
    requires
        flags.len() <= usize::MAX,
    ensures
        dead_valid(true_indices(flags), flags.len()),
    decreases flags.len(),
{
    if flags.len() > 0 {
        lemma_true_indices(flags.drop_last());
    }
}

/// The elements at the positions, the last position first.
pub open spec fn taken_last_first<T>(s: Seq<T>, idx: Seq<usize>) -> Seq<T>
    decreases idx.len(),
{
    if idx.len() == 0 {
        Seq::empty()
    } else {
        seq![s[idx.last() as int]] + taken_last_first(s, idx.drop_last())
    }
}

proof fn lemma_gap(dead: Seq<usize>, len: nat, i: int)
    requires
        dead_valid(dead, len),
        0 <= i < dead.len(),
    ensures
        dead[i] + (dead.len() - 1 - i) < len,
    decreases dead.len() - i,
{
    if i < dead.len() - 1 {
        lemma_gap(dead, len, i + 1);
    }
}

/// Removes the elements the predicate holds for and returns them, the last one first; the
/// rest are left as `swap_remove` from the back leaves them.
pub fn drain_filter<T, F: Fn(&T) -> bool>(v: &mut Vec<T>, f: F) -> (r: Vec<T>)
    requires
        forall|i: int| 0 <= i < old(v)@.len() ==> f.requires((&old(v)@[i],)),
    ensures
        exists|flags: Seq<bool>|
            {
                &&& flags.len() == old(v)@.len()
                &&& forall|i: int| 0 <= i < flags.len() ==> f.ensures((&old(v)@[i],), #[trigger] flags[i])
                &&& final(v)@ == pruned(old(v)@, true_indices(flags))
                &&& r@ == taken_last_first(old(v)@, true_indices(flags))
            },
{
    let ghost orig = v@;
    let ghost mut flags: Seq<bool> = Seq::empty();
    let mut indexes: Vec<usize> = Vec::new();
    let mut i: usize = 0;
    while i < v.len()
        invariant
            v@ == orig,
            i <= orig.len(),
            flags.len() == i,
            forall|j: int| 0 <= j < orig.len() ==> f.requires((&orig[j],)),
            forall|j: int| 0 <= j < i ==> f.ensures((&orig[j],), #[trigger] flags[j]),
            indexes@ == true_indices(flags),
        decreases orig.len() - i,
    {
        let b = f(&v[i]);
        let ghost before = flags;
        proof {
            flags = flags.push(b);
            assert(flags.drop_last() =~= before);
        }
        if b {
            indexes.push(i);
        }
        i += 1;
    }
    proof {
        lemma_true_indices(flags);
    }
    let ghost dead = indexes@;
    let mut out: Vec<T> = Vec::new();
    let mut k: usize = indexes.len();
    proof {
        assert(dead.take(k as int) =~= dead);
    }
    while k > 0
        invariant
            dead == indexes@,
            k <= dead.len(),
            dead_valid(dead, orig.len()),
            v@.len() == orig.len() - (dead.len() - k),
            pruned(v@, dead.take(k as int)) == pruned(orig, dead),
            k > 0 ==> forall|j: int| 0 <= j <= dead[k - 1] ==> v@[j] == orig[j],
            out@ + taken_last_first(orig, dead.take(k as int)) == taken_last_first(orig, dead),
        decreases k,
    {
        proof {
            lemma_gap(dead, orig.len(), k - 1);
            let t = dead.take(k as int);
            assert(t.drop_last() =~= dead.take(k - 1));
            assert(t.last() == dead[k - 1]);
            if k > 1 {
                assert(dead[k - 2] < dead[k - 1]);
            }
        }
        k -= 1;
        let ghost before = v@;
        let x = v.swap_remove(indexes[k]);
        proof {
            assert(x == orig[dead[k as int] as int]);
            assert(v@ == swap_removed(before, dead[k as int] as int));
            let before_out = out@;
            assert(taken_last_first(orig, dead.take(k + 1)) == seq![orig[dead[k as int] as int]]
                + taken_last_first(orig, dead.take(k as int)));
            assert(before_out.push(x) + taken_last_first(orig, dead.take(k as int)) =~= before_out + (seq![x]
                + taken_last_first(orig, dead.take(k as int))));
        }
        out.push(x);
    }
    proof {
        assert(dead.take(0) =~= Seq::<usize>::empty());
        assert(out@ + Seq::<T>::empty() =~= out@);
    }
    out
}

} // verus!

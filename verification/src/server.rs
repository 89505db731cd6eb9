//! Start-up of the server: its arguments, the first admin, which routers and origins it
//! serves, the check on admin API calls, and the jobs of its queue.
use vstd::prelude::*;

use crate::json_schema::json_parses;
use crate::text::{lemma_views_push, str_eq, views};
use crate::util::{generate_random_string, is_ascii_alphanumeric};

verus! {

/// Arguments for initializing the application state.
#[derive(Clone, Debug, Default, PartialEq, Eq)]
pub struct InitArgs {
    pub address: String,
    pub dev: bool,
    pub demo: bool,
    pub js_runtime_threads: Option<usize>,
}

/// A job of the background queue.
#[derive(Clone, Debug, PartialEq, Eq)]
pub enum Job {
    Something,
}

/// Whether the admin UI gets a router of its own: when it has an address other than the
/// main one.
pub fn has_independent_admin_router(address: &str, admin_address: Option<&str>) -> (r: bool)
    ensures
        r == match admin_address {
            None => false,
            Some(a) => a@ != address@,
        },
{
    match admin_address {
        None => false,
        Some(a) => !str_eq(a, address),
    }
}

/// Which origins may call the server from browsers.
#[derive(Clone, Debug, PartialEq, Eq)]
pub enum CorsOrigins {
    /// Anything, as in development.
    VeryPermissive,
    /// Any origin, echoed back.
    MirrorRequest,
    /// Exactly these.
    List(Vec<String>),
}

/// Whether a text may be an HTTP header value: tabs and bytes from the space on, but for
/// DEL.
pub open spec fn header_value_valid(s: Seq<char>) -> bool {
    forall|i: int| 0 <= i < s.len() ==> (#[trigger] s[i] == '\t' || (s[i] as u32 >= 32 && s[i] as u32 != 127))
}

/// The allowed origins that are valid header values, in order.
pub open spec fn valid_origins(os: Seq<Seq<char>>) -> Seq<Seq<char>>
    decreases os.len(),
{
    if os.len() == 0 {
        Seq::empty()
    } else if header_value_valid(os.last()) {
        valid_origins(os.drop_last()).push(os.last())
    } else {
        valid_origins(os.drop_last())
    }
}

fn is_header_value(s: &str) -> (r: bool)
    ensures
        r == header_value_valid(s@),
{
    let n = s.unicode_len();
    let mut i: usize = 0;
    while i < n
        invariant
            n == s@.len(),
            i <= n,
            forall|j: int| 0 <= j < i ==> (#[trigger] s@[j] == '\t' || (s@[j] as u32 >= 32 && s@[j] as u32 != 127)),
        decreases n - i,
    {
        let c = s.get_char(i);
        if !(c == '\t' || (c as u32 >= 32 && c as u32 != 127)) {
            return false;
        }
        i += 1;
    }
    true
}

/// The origins the server admits: all in development, any when `*` is among the allowed
/// ones, else the allowed ones that are valid header values.
pub fn cors_origins(dev: bool, allowed: &Vec<String>) -> (r: CorsOrigins)
    ensures
        dev ==> r == CorsOrigins::VeryPermissive,
        !dev && views(allowed@).contains("*"@) ==> r == CorsOrigins::MirrorRequest,
        !dev && !views(allowed@).contains("*"@) ==> (r matches CorsOrigins::List(v) && views(v@)
            == valid_origins(views(allowed@))),
{
    if dev {
        return CorsOrigins::VeryPermissive;
    }
    let ghost av = views(allowed@);
    let mut i: usize = 0;
    while i < allowed.len()
        invariant
            !dev,
            i <= allowed@.len(),
            av == views(allowed@),
            forall|j: int| 0 <= j < i ==> av[j] != "*"@,
        decreases allowed.len() - i,
    {
        if str_eq(allowed[i].as_str(), "*") {
            proof {
                assert(av[i as int] == "*"@);
            }
            return CorsOrigins::MirrorRequest;
        }
        i += 1;
    }
    let mut list: Vec<String> = Vec::new();
    let mut k: usize = 0;
    while k < allowed.len()
        invariant
            !dev,
            forall|j: int| 0 <= j < allowed@.len() ==> av[j] != "*"@,
            k <= allowed@.len(),
            av == views(allowed@),
            views(list@) == valid_origins(av.take(k as int)),
        decreases allowed.len() - k,
    {
        proof {
            let t = av.take(k + 1);
            assert(t.drop_last() =~= av.take(k as int));
            assert(t.last() == allowed@[k as int]@);
        }
        if is_header_value(allowed[k].as_str()) {
            proof {
                lemma_views_push(list@, allowed@[k as int]);
            }
            list.push(allowed[k].clone());
        }
        k += 1;
    }
    proof {
        assert(av.take(k as int) =~= av);
        if av.contains("*"@) {
            let j = choose|j: int| 0 <= j < av.len() && av[j] == "*"@;
        }
    }
    CorsOrigins::List(list)
}

/// Why a call of an admin API is refused.
#[derive(Clone, Debug, PartialEq, Eq)]
pub enum AdminAccessError {
    Forbidden,
    BadRequest(&'static str),
}

/// Admin APIs take admins only, and a CSRF header equal to the user's token.
pub fn check_admin_api_access(is_admin: bool, csrf_header: Option<&str>, expected_csrf: &str) -> (r: Result<
    (),
    AdminAccessError,
>)
    ensures
        !is_admin ==> r == Err::<(), AdminAccessError>(AdminAccessError::Forbidden),
        is_admin && csrf_header is None ==> r == Err::<(), AdminAccessError>(
            AdminAccessError::BadRequest("admin APIs require csrf header"),
        ),
        is_admin && (csrf_header matches Some(h) && h@ != expected_csrf@) ==> r == Err::<
            (),
            AdminAccessError,
        >(AdminAccessError::BadRequest("invalid CSRF token")),
        is_admin && (csrf_header matches Some(h) && h@ == expected_csrf@) ==> r == Ok::<(), AdminAccessError>(()),
{
    if !is_admin {
        return Err(AdminAccessError::Forbidden);
    }
    let received = match csrf_header {
        Some(h) => h,
        None => {
            return Err(AdminAccessError::BadRequest("admin APIs require csrf header"));
        },
    };
    if !str_eq(expected_csrf, received) {
        return Err(AdminAccessError::BadRequest("invalid CSRF token"));
    }
    Ok(())
}

/// The e-mail address of the admin created for a new database.
pub const INITIAL_ADMIN_EMAIL: &'static str = "admin@localhost";

/// Whether a first admin must be created: for a new database without admins.
pub fn initial_admin_needed(new_db: bool, num_admins: i64) -> (r: bool)
    ensures
        r == (new_db && num_admins == 0),
{
    new_db && num_admins == 0
}

/// The password of the first admin: 20 random letters and digits.
pub fn initial_admin_password() -> (r: String)
    ensures
        r@.len() == 20,
        forall|i: int| 0 <= i < 20 ==> is_ascii_alphanumeric(#[trigger] r@[i]),
{
    generate_random_string(20)
}

/// The configured JSON schemas that are used: those with a name and a schema that is
/// JSON, in order.
pub open spec fn usable_schemas(entries: Seq<(Option<String>, Option<String>)>) -> Seq<(Seq<char>, Seq<char>)>
    decreases entries.len(),
{
    if entries.len() == 0 {
        Seq::empty()
    } else {
        let init = usable_schemas(entries.drop_last());
        match entries.last() {
            (Some(n), Some(s)) => if json_parses(s@) {
                init.push((n@, s@))
            } else {
                init
            },
            _ => init,
        }
    }
}

pub open spec fn pairs_view(p: Seq<(String, String)>) -> Seq<(Seq<char>, Seq<char>)> {
    p.map_values(|e: (String, String)| (e.0@, e.1@))
}

/// The name and schema text of each usable configured schema.
pub fn schema_entries(entries: &Vec<(Option<String>, Option<String>)>) -> (r: Vec<(String, String)>)
    ensures
        pairs_view(r@) == usable_schemas(entries@),
{
    let mut r: Vec<(String, String)> = Vec::new();
    let mut i: usize = 0;
    while i < entries.len()
        invariant
            i <= entries@.len(),
            pairs_view(r@) == usable_schemas(entries@.take(i as int)),
        decreases entries.len() - i,
    {
        proof {
            let t = entries@.take(i + 1);
            assert(t.drop_last() =~= entries@.take(i as int));
            assert(t.last() == entries@[i as int]);
        }
        match (&entries[i].0, &entries[i].1) {
            (Some(n), Some(s)) => {
                if crate::sql_functions::is_json_text(s.as_str()) {
                    let ghost before = r@;
                    r.push((n.clone(), s.clone()));
                    proof {
                        assert(pairs_view(r@) =~= pairs_view(before).push((n@, s@)));
                    }
                }
            },
            _ => {},
        }
        i += 1;
    }
    proof {
        assert(entries@.take(i as int) =~= entries@);
    }
    r
}

} // verus!

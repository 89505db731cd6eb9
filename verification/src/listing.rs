//! Parsing of list queries (`?limit=..&cursor=..&order=..&col[op]=value`) and the
//! SQL `WHERE` clause built from their filters.
use vstd::prelude::*;

use crate::num::{parse_i64, parse_usize, parsed_i64, parsed_usize};
use crate::qs::{decimal, digit_char, param_name, param_name_of};
use crate::records::{json_string_to_value, prefix_colon, text_value, SqlValue, SqlValueV};
use crate::schema::{Column, ColumnDataType};
use crate::text::{
    char_is_alphanumeric, is_alphanumeric, join, lemma_views_push, push_char, seq_join, split, split_on,
    str_eq, views,
};
use crate::util::{b64_to_id, base64_url_decoded};

verus! {

/// Whether `c` is a Unicode word character: what the regular expression class `\w`
/// matches (`regex_syntax::is_word_character`).
pub uninterp spec fn is_word_char(c: char) -> bool;

/// `regex_syntax::is_word_character`; among ASCII characters exactly `[0-9A-Za-z_]`.
#[verifier::external_body]
fn word_char(c: char) -> (r: bool)
    ensures
        r == is_word_char(c),
        (c as u32) < 128 ==> (r <==> (('0' <= c && c <= '9') || ('A' <= c && c <= 'Z') || (
        'a' <= c && c <= 'z') || c == '_')),
{
    regex_syntax::is_word_character(c)
}

/// The comparison a filter applies.
#[derive(Clone, Copy, Debug, PartialEq, Eq)]
pub enum Qualifier {
    Not,
    Equal,
    NotEqual,
    GreaterThanEqual,
    GreaterThan,
    LessThanEqual,
    LessThan,
    Like,
    Regexp,
}

/// The qualifier named in `column[op]`; no `[op]` means equality.
pub open spec fn qualifier_of(op: Option<Seq<char>>) -> Option<Qualifier> {
    match op {
        None => Some(Qualifier::Equal),
        Some(o) => if o == "gte"@ {
            Some(Qualifier::GreaterThanEqual)
        } else if o == "gt"@ {
            Some(Qualifier::GreaterThan)
        } else if o == "lte"@ {
            Some(Qualifier::LessThanEqual)
        } else if o == "lt"@ {
            Some(Qualifier::LessThan)
        } else if o == "not"@ {
            Some(Qualifier::Not)
        } else if o == "ne"@ {
            Some(Qualifier::NotEqual)
        } else if o == "like"@ {
            Some(Qualifier::Like)
        } else if o == "re"@ {
            Some(Qualifier::Regexp)
        } else {
            None
        },
    }
}

/// The qualifiers of a list filter `column[op]`: `gte`, `gt`, `lte`, `lt`, `not`, `ne`,
/// `like` and `re` name the comparisons `>=`, `>`, `<=`, `<`, `<>`, `<>`, `LIKE` and
/// `REGEXP` (see `lemma_qualifier_sql`), and a filter without one compares with `=`.
pub proof fn lemma_qualifier_names()
    ensures
        qualifier_of(Some("gte"@)) == Some(Qualifier::GreaterThanEqual),
        qualifier_of(Some("gt"@)) == Some(Qualifier::GreaterThan),
        qualifier_of(Some("lte"@)) == Some(Qualifier::LessThanEqual),
        qualifier_of(Some("lt"@)) == Some(Qualifier::LessThan),
        qualifier_of(Some("not"@)) == Some(Qualifier::Not),
        qualifier_of(Some("ne"@)) == Some(Qualifier::NotEqual),
        qualifier_of(Some("like"@)) == Some(Qualifier::Like),
        qualifier_of(Some("re"@)) == Some(Qualifier::Regexp),
        qualifier_of(None) == Some(Qualifier::Equal),
{
    reveal_strlit("gte");
    reveal_strlit("gt");
    reveal_strlit("lte");
    reveal_strlit("lt");
    reveal_strlit("not");
    reveal_strlit("ne");
    reveal_strlit("like");
    reveal_strlit("re");
    assert("gte"@ != "gt"@) by {
        assert("gte"@.len() != "gt"@.len());
    }
    assert("gte"@ != "lte"@) by {
        assert("gte"@[0] != "lte"@[0]);
    }
    assert("gte"@ != "lt"@) by {
        assert("gte"@.len() != "lt"@.len());
    }
    assert("gte"@ != "not"@) by {
        assert("gte"@[0] != "not"@[0]);
    }
    assert("gte"@ != "ne"@) by {
        assert("gte"@.len() != "ne"@.len());
    }
    assert("gte"@ != "like"@) by {
        assert("gte"@.len() != "like"@.len());
    }
    assert("gte"@ != "re"@) by {
        assert("gte"@.len() != "re"@.len());
    }
    assert("gt"@ != "lte"@) by {
        assert("gt"@.len() != "lte"@.len());
    }
    assert("gt"@ != "lt"@) by {
        assert("gt"@[0] != "lt"@[0]);
    }
    assert("gt"@ != "not"@) by {
        assert("gt"@.len() != "not"@.len());
    }
    assert("gt"@ != "ne"@) by {
        assert("gt"@[0] != "ne"@[0]);
    }
    assert("gt"@ != "like"@) by {
        assert("gt"@.len() != "like"@.len());
    }
    assert("gt"@ != "re"@) by {
        assert("gt"@[0] != "re"@[0]);
    }
    assert("lte"@ != "lt"@) by {
        assert("lte"@.len() != "lt"@.len());
    }
    assert("lte"@ != "not"@) by {
        assert("lte"@[0] != "not"@[0]);
    }
    assert("lte"@ != "ne"@) by {
        assert("lte"@.len() != "ne"@.len());
    }
    assert("lte"@ != "like"@) by {
        assert("lte"@.len() != "like"@.len());
    }
    assert("lte"@ != "re"@) by {
        assert("lte"@.len() != "re"@.len());
    }
    assert("lt"@ != "not"@) by {
        assert("lt"@.len() != "not"@.len());
    }
    assert("lt"@ != "ne"@) by {
        assert("lt"@[0] != "ne"@[0]);
    }
    assert("lt"@ != "like"@) by {
        assert("lt"@.len() != "like"@.len());
    }
    assert("lt"@ != "re"@) by {
        assert("lt"@[0] != "re"@[0]);
    }
    assert("not"@ != "ne"@) by {
        assert("not"@.len() != "ne"@.len());
    }
    assert("not"@ != "like"@) by {
        assert("not"@.len() != "like"@.len());
    }
    assert("not"@ != "re"@) by {
        assert("not"@.len() != "re"@.len());
    }
    assert("ne"@ != "like"@) by {
        assert("ne"@.len() != "like"@.len());
    }
    assert("ne"@ != "re"@) by {
        assert("ne"@[0] != "re"@[0]);
    }
    assert("like"@ != "re"@) by {
        assert("like"@.len() != "re"@.len());
    }
}

pub open spec fn qualifier_sql(q: Qualifier) -> Seq<char> {
    match q {
        Qualifier::GreaterThanEqual => ">="@,
        Qualifier::GreaterThan => ">"@,
        Qualifier::LessThanEqual => "<="@,
        Qualifier::LessThan => "<"@,
        Qualifier::Not => "<>"@,
        Qualifier::NotEqual => "<>"@,
        Qualifier::Like => "LIKE"@,
        Qualifier::Regexp => "REGEXP"@,
        Qualifier::Equal => "="@,
    }
}

/// Each filter qualifier compiles to its SQL comparison: `[gte]` to `>=`, `[gt]` to `>`,
/// `[lte]` to `<=`, `[lt]` to `<`, `[not]` and `[ne]` to `<>`, `[like]` to `LIKE`,
/// `[re]` to `REGEXP`, and no qualifier to `=`; apart from `[not]` and `[ne]`, no two
/// qualifiers share one.
pub proof fn lemma_qualifier_sql()
    ensures
        qualifier_sql(Qualifier::GreaterThanEqual) == ">="@,
        qualifier_sql(Qualifier::GreaterThan) == ">"@,
        qualifier_sql(Qualifier::LessThanEqual) == "<="@,
        qualifier_sql(Qualifier::LessThan) == "<"@,
        qualifier_sql(Qualifier::Not) == "<>"@,
        qualifier_sql(Qualifier::NotEqual) == "<>"@,
        qualifier_sql(Qualifier::Like) == "LIKE"@,
        qualifier_sql(Qualifier::Regexp) == "REGEXP"@,
        qualifier_sql(Qualifier::Equal) == "="@,
        forall|a: Qualifier, b: Qualifier|
            #[trigger] qualifier_sql(a) == #[trigger] qualifier_sql(b) ==> a == b || ((a is Not || a is NotEqual)
                && (b is Not || b is NotEqual)),
{
    reveal_strlit(">=");
    reveal_strlit(">");
    reveal_strlit("<=");
    reveal_strlit("<");
    reveal_strlit("<>");
    reveal_strlit("LIKE");
    reveal_strlit("REGEXP");
    reveal_strlit("=");
    assert forall|a: Qualifier, b: Qualifier| #[trigger] qualifier_sql(a) == #[trigger] qualifier_sql(b) implies a
        == b || ((a is Not || a is NotEqual) && (b is Not || b is NotEqual)) by {
        let x = qualifier_sql(a);
        let y = qualifier_sql(b);
        assert(x.len() == y.len());
        assert(x[0] == y[0]);
        if x.len() > 1 {
            assert(x[1] == y[1]);
        }
    }
}

impl Qualifier {
    pub fn from(qualifier: Option<&str>) -> (r: Option<Qualifier>)
        ensures
            r == qualifier_of(
                match qualifier {
                    Some(q) => Some(q@),
                    None => None,
                },
            ),
    {
        match qualifier {
            None => Some(Qualifier::Equal),
            Some(q) => {
                if str_eq(q, "gte") {
                    Some(Qualifier::GreaterThanEqual)
                } else if str_eq(q, "gt") {
                    Some(Qualifier::GreaterThan)
                } else if str_eq(q, "lte") {
                    Some(Qualifier::LessThanEqual)
                } else if str_eq(q, "lt") {
                    Some(Qualifier::LessThan)
                } else if str_eq(q, "not") {
                    Some(Qualifier::Not)
                } else if str_eq(q, "ne") {
                    Some(Qualifier::NotEqual)
                } else if str_eq(q, "like") {
                    Some(Qualifier::Like)
                } else if str_eq(q, "re") {
                    Some(Qualifier::Regexp)
                } else {
                    None
                }
            },
        }
    }

    pub fn to_sql(self) -> (r: &'static str)
        ensures
            r@ == qualifier_sql(self),
    {
        match self {
            Qualifier::GreaterThanEqual => ">=",
            Qualifier::GreaterThan => ">",
            Qualifier::LessThanEqual => "<=",
            Qualifier::LessThan => "<",
            Qualifier::Not => "<>",
            Qualifier::NotEqual => "<>",
            Qualifier::Like => "LIKE",
            Qualifier::Regexp => "REGEXP",
            Qualifier::Equal => "=",
        }
    }
}

/// Sort direction of one `order` column.
#[derive(Clone, Copy, Debug, PartialEq, Eq)]
pub enum Order {
    Ascending,
    Descending,
}

/// A pagination cursor: a 16-byte id or an integer.
#[derive(Clone, Debug, PartialEq, Eq)]
pub enum Cursor {
    Blob(Vec<u8>),
    Integer(i64),
}

/// A cursor given as text: an id in url-safe base64, else an integer.
pub open spec fn cursor_bytes(value: Seq<char>) -> Option<Seq<u8>> {
    match base64_url_decoded(value) {
        Some(b) => if b.len() == 16 {
            Some(b)
        } else {
            None
        },
        None => None,
    }
}

/// `c` is the cursor that the text `value` denotes.
pub open spec fn cursor_of(c: Option<Cursor>, value: Seq<char>) -> bool {
    match cursor_bytes(value) {
        Some(b) => c matches Some(Cursor::Blob(v)) && v@ == b,
        None => match parsed_i64(value) {
            Some(n) => c == Some(Cursor::Integer(n)),
            None => c is None,
        },
    }
}

impl Cursor {
    pub fn parse(value: &str) -> (r: Option<Cursor>)
        ensures
            cursor_of(r, value@),
    {
        match b64_to_id(value) {
            Ok(id) => {
                let mut v: Vec<u8> = Vec::new();
                let mut i: usize = 0;
                while i < 16
                    invariant
                        i <= 16,
                        v@ =~= id@.take(i as int),
                    decreases 16 - i,
                {
                    v.push(id[i]);
                    i += 1;
                }
                assert(v@ =~= id@);
                return Some(Cursor::Blob(v));
            },
            Err(_) => {},
        }
        match parse_i64(value) {
            Some(n) => Some(Cursor::Integer(n)),
            None => None,
        }
    }
}

/// The page size used when none is given.
pub const DEFAULT_LIMIT: usize = 50;

/// The largest page size.
pub const MAX_LIMIT: usize = 256;

/// The requested page size, or the default, capped at the maximum.
pub fn limit_or_default(limit: Option<usize>) -> (r: usize)
    ensures
        r == (match limit {
            Some(l) => if l < MAX_LIMIT {
                l
            } else {
                MAX_LIMIT
            },
            None => DEFAULT_LIMIT,
        }),
{
    let l = match limit {
        Some(l) => l,
        None => DEFAULT_LIMIT,
    };
    if l < MAX_LIMIT {
        l
    } else {
        MAX_LIMIT
    }
}

/// The `count` flag: `TRUE`, `true` and `1` give `true`; so do `FALSE`, `false` and `0`.
pub open spec fn count_flag(s: Seq<char>) -> Option<bool> {
    if s == "TRUE"@ || s == "true"@ || s == "1"@ {
        Some(true)
    } else if s == "FALSE"@ || s == "false"@ || s == "0"@ {
        Some(true)
    } else {
        None
    }
}

pub fn parse_bool(s: &str) -> (r: Option<bool>)
    ensures
        r == count_flag(s@),
{
    if str_eq(s, "TRUE") || str_eq(s, "true") || str_eq(s, "1") {
        Some(true)
    } else if str_eq(s, "FALSE") || str_eq(s, "false") || str_eq(s, "0") {
        Some(true)
    } else {
        None
    }
}

pub open spec fn all_word_chars(s: Seq<char>) -> bool {
    forall|i: int| 0 <= i < s.len() ==> is_word_char(#[trigger] s[i])
}

/// Length of the longest prefix of word characters.
pub open spec fn word_prefix_len(s: Seq<char>) -> int
    decreases s.len(),
{
    if s.len() == 0 || !is_word_char(s[0]) {
        0
    } else {
        1 + word_prefix_len(s.drop_first())
    }
}

/// What `^(?<key>\w*)(?:\[(?<qualifier>\w+)\])?$` captures of `key`: the column and,
/// when present, the bracketed operation; `None` when the key does not match.
pub open spec fn split_key(key: Seq<char>) -> Option<(Seq<char>, Option<Seq<char>>)> {
    let k = word_prefix_len(key);
    let rest = key.skip(k);
    if rest.len() == 0 {
        Some((key.take(k), None))
    } else if rest.len() >= 3 && rest[0] == '[' && rest.last() == ']' && all_word_chars(
        rest.subrange(1, rest.len() - 1),
    ) {
        Some((key.take(k), Some(rest.subrange(1, rest.len() - 1))))
    } else {
        None
    }
}

/// Whether every character of `s` is ASCII.
pub open spec fn ascii_text(s: Seq<char>) -> bool {
    forall|i: int| 0 <= i < s.len() ==> (#[trigger] s[i] as u32) < 128
}

/// An ASCII word character: `[0-9A-Za-z_]`.
pub open spec fn is_ascii_word(c: char) -> bool {
    ('0' <= c && c <= '9') || ('A' <= c && c <= 'Z') || ('a' <= c && c <= 'z') || c == '_'
}

/// Length of the longest prefix of ASCII word characters.
pub open spec fn ascii_word_prefix_len(s: Seq<char>) -> int
    decreases s.len(),
{
    if s.len() == 0 || !is_ascii_word(s[0]) {
        0
    } else {
        1 + ascii_word_prefix_len(s.drop_first())
    }
}

/// `split_key` spelled out for ASCII keys, where `\w` is `[0-9A-Za-z_]`.
pub open spec fn split_key_ascii(key: Seq<char>) -> Option<(Seq<char>, Option<Seq<char>>)> {
    let k = ascii_word_prefix_len(key);
    let rest = key.skip(k);
    if rest.len() == 0 {
        Some((key.take(k), None))
    } else if rest.len() >= 3 && rest[0] == '[' && rest.last() == ']' && (forall|j: int|
        1 <= j < rest.len() - 1 ==> is_ascii_word(#[trigger] rest[j])) {
        Some((key.take(k), Some(rest.subrange(1, rest.len() - 1))))
    } else {
        None
    }
}

proof fn lemma_ascii_word_prefix_len(s: Seq<char>, i: int)
    requires
        0 <= i <= s.len(),
        forall|j: int| 0 <= j < i ==> is_ascii_word(s[j]),
        i == s.len() || !is_ascii_word(s[i]),
    ensures
        ascii_word_prefix_len(s) == i,
    decreases i,
{
    if i > 0 {
        lemma_ascii_word_prefix_len(s.drop_first(), i - 1);
    }
}

proof fn lemma_word_prefix_len(s: Seq<char>, i: int)
    requires
        0 <= i <= s.len(),
        forall|j: int| 0 <= j < i ==> is_word_char(s[j]),
        i == s.len() || !is_word_char(s[i]),
    ensures
        word_prefix_len(s) == i,
    decreases i,
{
    if i > 0 {
        lemma_word_prefix_len(s.drop_first(), i - 1);
    }
}

/// Splits the key of `column[op]=value` into its column and operation.
pub fn split_key_into_col_and_op(key: &str) -> (r: Option<(String, Option<String>)>)
    ensures
        match split_key(key@) {
            Some((k, op)) => r matches Some((rk, rop)) && rk@ == k && match op {
                Some(o) => rop matches Some(ro) && ro@ == o,
                None => rop is None,
            },
            None => r is None,
        },
        ascii_text(key@) ==> split_key(key@) == split_key_ascii(key@),
{
    let n = key.unicode_len();
    let mut k: usize = 0;
    while k < n && word_char(key.get_char(k))
        invariant
            n == key@.len(),
            k <= n,
            forall|j: int| 0 <= j < k ==> is_word_char(key@[j]),
            ascii_text(key@) ==> forall|j: int| 0 <= j < k ==> is_ascii_word(key@[j]),
        decreases n - k,
    {
        assert(ascii_text(key@) ==> (key@[k as int] as u32) < 128);
        k += 1;
    }
    proof {
        lemma_word_prefix_len(key@, k as int);
        if ascii_text(key@) {
            if k < n {
                assert((key@[k as int] as u32) < 128);
            }
            lemma_ascii_word_prefix_len(key@, k as int);
        }
    }
    let col = String::from_str(key.substring_char(0, k));
    let ghost rest = key@.skip(k as int);
    if k == n {
        return Some((col, None));
    }
    if n - k < 3 || key.get_char(k) != '[' || key.get_char(n - 1) != ']' {
        return None;
    }
    let mut i: usize = k + 1;
    #[verifier::loop_isolation(false)]
    while i < n - 1
        invariant
            n == key@.len(),
            k + 1 <= i <= n - 1,
            forall|j: int| k + 1 <= j < i ==> is_word_char(key@[j]),
            ascii_text(key@) ==> forall|j: int| k + 1 <= j < i ==> is_ascii_word(key@[j]),
        decreases n - 1 - i,
    {
        assert(ascii_text(key@) ==> (key@[i as int] as u32) < 128);
        if !word_char(key.get_char(i)) {
            assert(!is_word_char(rest.subrange(1, rest.len() - 1)[i - k - 1]));
            assert(ascii_text(key@) ==> !is_ascii_word(rest[i - k]));
            return None;
        }
        i += 1;
    }
    assert(ascii_text(key@) ==> forall|j: int| 1 <= j < rest.len() - 1 ==> is_ascii_word(
        #[trigger] rest[j],
    )) by {
        if ascii_text(key@) {
            assert forall|j: int| 1 <= j < rest.len() - 1 implies is_ascii_word(#[trigger] rest[j]) by {
                assert(rest[j] == key@[k + j]);
            }
        }
    }
    assert forall|j: int| 0 <= j < rest.len() - 2 implies is_word_char(
        #[trigger] rest.subrange(1, rest.len() - 1)[j],
    ) by {
        assert(rest.subrange(1, rest.len() - 1)[j] == key@[k + 1 + j]);
    }
    let op = String::from_str(key.substring_char(k + 1, n - 1));
    assert(op@ =~= rest.subrange(1, rest.len() - 1));
    Some((col, Some(op)))
}

/// The name/value pairs, percent-decoded, that `form_urlencoded::parse` reads from the
/// `application/x-www-form-urlencoded` text.
pub uninterp spec fn form_pairs(query: Seq<char>) -> Seq<(Seq<char>, Seq<char>)>;

/// `form_urlencoded::parse`: the decoded name/value pairs in order.
#[verifier::external_body]
pub(crate) fn parse_form(query: &str) -> (r: Vec<(String, String)>)
    ensures
        r@.len() == form_pairs(query@).len(),
        forall|i: int| 0 <= i < r@.len() ==> (#[trigger] r@[i]).0@ == form_pairs(query@)[i].0 && r@[i].1@ == form_pairs(query@)[i].1,
{
    form_urlencoded::parse(query.as_bytes()).map(|(k, v)| (k.into_owned(), v.into_owned())).collect()
}

/// A filter on a column: the compared value and the comparison, if one was recognized.
#[derive(Clone, Debug, PartialEq, Eq, Default)]
pub struct QueryParam {
    pub value: String,
    pub qualifier: Option<Qualifier>,
}

/// The list-related parameters of a query string.
#[derive(Debug, Default)]
pub struct QueryParseResult {
    pub limit: Option<usize>,
    pub cursor: Option<Cursor>,
    pub offset: Option<usize>,
    pub count: Option<bool>,
    pub expand: Option<Vec<String>>,
    /// Ordering, e.g. `order=-col0,+col1,col2`.
    pub order: Option<Vec<(String, Order)>>,
    /// Filters per column in order of first appearance, e.g. `col0[gte]=2&col0[lte]=10`.
    pub params: Option<Vec<(String, Vec<QueryParam>)>>,
}

pub ghost enum CursorV {
    Blob(Seq<u8>),
    Integer(i64),
}

/// Abstract value of a parsed list query.
pub ghost struct ListQuery {
    pub limit: Option<usize>,
    pub cursor: Option<CursorV>,
    pub offset: Option<usize>,
    pub count: Option<bool>,
    pub expand: Option<Seq<Seq<char>>>,
    pub order: Option<Seq<(Seq<char>, Order)>>,
    pub params: Option<Seq<(Seq<char>, Seq<(Seq<char>, Option<Qualifier>)>)>>,
}

pub open spec fn cursor_view(c: Option<Cursor>) -> Option<CursorV> {
    match c {
        Some(Cursor::Blob(v)) => Some(CursorV::Blob(v@)),
        Some(Cursor::Integer(n)) => Some(CursorV::Integer(n)),
        None => None,
    }
}

/// The cursor that a text denotes.
pub open spec fn cursor_value(value: Seq<char>) -> Option<CursorV> {
    match cursor_bytes(value) {
        Some(b) => Some(CursorV::Blob(b)),
        None => match parsed_i64(value) {
            Some(n) => Some(CursorV::Integer(n)),
            None => None,
        },
    }
}

pub open spec fn param_view(p: QueryParam) -> (Seq<char>, Option<Qualifier>) {
    (p.value@, p.qualifier)
}

pub open spec fn entry_view(e: (String, Vec<QueryParam>)) -> (Seq<char>, Seq<(Seq<char>, Option<Qualifier>)>) {
    (e.0@, e.1@.map_values(|p: QueryParam| param_view(p)))
}

pub open spec fn entries_view(v: Seq<(String, Vec<QueryParam>)>) -> Seq<(Seq<char>, Seq<(Seq<char>, Option<Qualifier>)>)> {
    v.map_values(|e: (String, Vec<QueryParam>)| entry_view(e))
}

pub open spec fn order_entry_view(e: (String, Order)) -> (Seq<char>, Order) {
    (e.0@, e.1)
}

impl View for QueryParseResult {
    type V = ListQuery;

    open spec fn view(&self) -> ListQuery {
        ListQuery {
            limit: self.limit,
            cursor: cursor_view(self.cursor),
            offset: self.offset,
            count: self.count,
            expand: match self.expand {
                Some(v) => Some(views(v@)),
                None => None,
            },
            order: match self.order {
                Some(v) => Some(v@.map_values(|e: (String, Order)| order_entry_view(e))),
                None => None,
            },
            params: match self.params {
                Some(v) => Some(entries_view(v@)),
                None => None,
            },
        }
    }
}

pub open spec fn empty_list_query() -> ListQuery {
    ListQuery {
        limit: None,
        cursor: None,
        offset: None,
        count: None,
        expand: None,
        order: None,
        params: None,
    }
}

/// One `order` item: a leading `-` sorts descending, a leading `+` or none ascending.
pub open spec fn order_item(v: Seq<char>) -> (Seq<char>, Order) {
    if v.len() > 0 && v[0] == '-' {
        (v.skip(1), Order::Descending)
    } else if v.len() > 0 && v[0] == '+' {
        (v.skip(1), Order::Ascending)
    } else {
        (v, Order::Ascending)
    }
}

/// Characters allowed in a filtered column's name.
pub open spec fn is_column_name_char(c: char) -> bool {
    is_alphanumeric(c) || c == '.' || c == '-' || c == '_'
}

pub open spec fn is_column_name(s: Seq<char>) -> bool {
    forall|i: int| 0 <= i < s.len() ==> is_column_name_char(#[trigger] s[i])
}

/// Index of the entry for `key`, or the number of entries when there is none.
pub open spec fn entry_index(ps: Seq<(Seq<char>, Seq<(Seq<char>, Option<Qualifier>)>)>, key: Seq<char>) -> int
    decreases ps.len(),
{
    if ps.len() == 0 {
        0
    } else if ps[0].0 == key {
        0
    } else {
        1 + entry_index(ps.drop_first(), key)
    }
}

/// Appends a filter to the entry of its column, creating the entry at the end if needed.
pub open spec fn add_filter(
    ps: Seq<(Seq<char>, Seq<(Seq<char>, Option<Qualifier>)>)>,
    key: Seq<char>,
    p: (Seq<char>, Option<Qualifier>),
) -> Seq<(Seq<char>, Seq<(Seq<char>, Option<Qualifier>)>)> {
    let i = entry_index(ps, key);
    if i < ps.len() {
        ps.update(i, (key, ps[i].1.push(p)))
    } else {
        ps.push((key, seq![p]))
    }
}

/// The effect of one name/value pair on the parsed query; an unusable filter key
/// stops parsing with that key.
pub open spec fn apply_pair(q: ListQuery, key: Seq<char>, value: Seq<char>) -> Result<ListQuery, Seq<char>> {
    if key == "limit"@ {
        Ok(ListQuery { limit: parsed_usize(value), ..q })
    } else if key == "cursor"@ {
        Ok(ListQuery { cursor: cursor_value(value), ..q })
    } else if key == "offset"@ {
        Ok(ListQuery { offset: parsed_usize(value), ..q })
    } else if key == "count"@ {
        Ok(ListQuery { count: count_flag(value), ..q })
    } else if key == "expand"@ {
        Ok(ListQuery { expand: Some(split_on(value, ',')), ..q })
    } else if key == "order"@ {
        Ok(ListQuery { order: Some(split_on(value, ',').map_values(|v: Seq<char>| order_item(v))), ..q })
    } else {
        match split_key(key) {
            None => Err(key),
            Some((k, op)) => if !is_column_name(k) || value.len() == 0 {
                Err(key)
            } else {
                let ps = match q.params {
                    Some(ps) => ps,
                    None => Seq::empty(),
                };
                Ok(ListQuery { params: Some(add_filter(ps, k, (value, qualifier_of(op)))), ..q })
            },
        }
    }
}

/// Folds the pairs, in order, into a parsed query.
pub open spec fn parse_pairs(pairs: Seq<(Seq<char>, Seq<char>)>) -> Result<ListQuery, Seq<char>>
    decreases pairs.len(),
{
    if pairs.len() == 0 {
        Ok(empty_list_query())
    } else {
        match parse_pairs(pairs.drop_last()) {
            Ok(q) => apply_pair(q, pairs.last().0, pairs.last().1),
            Err(e) => Err(e),
        }
    }
}

/// What `parse_query` gives for a query string.
pub open spec fn parsed_query(query: Option<Seq<char>>) -> Result<ListQuery, Seq<char>> {
    match query {
        None => Ok(empty_list_query()),
        Some(q) => if q.len() == 0 {
            Ok(empty_list_query())
        } else {
            parse_pairs(form_pairs(q))
        },
    }
}

fn order_list(value: &str) -> (r: Vec<(String, Order)>)
    ensures
        r@.map_values(|e: (String, Order)| order_entry_view(e)) == split_on(value@, ',').map_values(
            |v: Seq<char>| order_item(v),
        ),
{
    let pieces = split(value, ',');
    let ghost target = split_on(value@, ',').map_values(|v: Seq<char>| order_item(v));
    let mut r: Vec<(String, Order)> = Vec::new();
    let mut i: usize = 0;
    while i < pieces.len()
        invariant
            i <= pieces@.len(),
            views(pieces@) == split_on(value@, ','),
            target == split_on(value@, ',').map_values(|v: Seq<char>| order_item(v)),
            r@.map_values(|e: (String, Order)| order_entry_view(e)) =~= target.take(i as int),
        decreases pieces.len() - i,
    {
        let p = pieces[i].as_str();
        let n = p.unicode_len();
        let ghost pv = views(pieces@)[i as int];
        let item = if n > 0 && p.get_char(0) == '-' {
            (String::from_str(p.substring_char(1, n)), Order::Descending)
        } else if n > 0 && p.get_char(0) == '+' {
            (String::from_str(p.substring_char(1, n)), Order::Ascending)
        } else {
            (String::from_str(p), Order::Ascending)
        };
        proof {
            assert(p@.subrange(1, n as int) =~= p@.skip(1));
            assert(order_entry_view(item) == order_item(pv));
            assert(r@.push(item).map_values(|e: (String, Order)| order_entry_view(e)) =~= r@.map_values(
                |e: (String, Order)| order_entry_view(e),
            ).push(order_entry_view(item)));
        }
        r.push(item);
        i += 1;
    }
    r
}

fn all_column_name_chars(s: &str) -> (r: bool)
    ensures
        r == is_column_name(s@),
{
    let n = s.unicode_len();
    let mut i: usize = 0;
    while i < n
        invariant
            n == s@.len(),
            i <= n,
            forall|j: int| 0 <= j < i ==> is_column_name_char(#[trigger] s@[j]),
        decreases n - i,
    {
        let c = s.get_char(i);
        if !(char_is_alphanumeric(c) || c == '.' || c == '-' || c == '_') {
            assert(!is_column_name_char(s@[i as int]));
            return false;
        }
        i += 1;
    }
    true
}

fn find_entry(ps: &Vec<(String, Vec<QueryParam>)>, key: &str) -> (r: usize)
    ensures
        r == entry_index(entries_view(ps@), key@),
        r <= ps@.len(),
{
    let mut i: usize = 0;
    while i < ps.len() && !str_eq(ps[i].0.as_str(), key)
        invariant
            i <= ps@.len(),
            forall|j: int| 0 <= j < i ==> (#[trigger] ps@[j]).0@ != key@,
        decreases ps.len() - i,
    {
        i += 1;
    }
    proof {
        lemma_entry_index(entries_view(ps@), key@, i as int);
    }
    i
}

proof fn lemma_entry_index_found(ps: Seq<(Seq<char>, Seq<(Seq<char>, Option<Qualifier>)>)>, key: Seq<char>)
    ensures
        0 <= entry_index(ps, key) <= ps.len(),
        entry_index(ps, key) < ps.len() ==> ps[entry_index(ps, key)].0 == key,
    decreases ps.len(),
{
    if ps.len() > 0 && ps[0].0 != key {
        lemma_entry_index_found(ps.drop_first(), key);
    }
}

/// Once a pair is unusable, parsing the remaining pairs keeps that error.
proof fn lemma_parse_pairs_err(pairs: Seq<(Seq<char>, Seq<char>)>, j: int, e: Seq<char>)
    requires
        0 <= j <= pairs.len(),
        parse_pairs(pairs.take(j)) == Err::<ListQuery, Seq<char>>(e),
    ensures
        parse_pairs(pairs) == Err::<ListQuery, Seq<char>>(e),
    decreases pairs.len() - j,
{
    if j == pairs.len() {
        assert(pairs.take(j) =~= pairs);
    } else {
        assert(pairs.take(j + 1).drop_last() =~= pairs.take(j));
        lemma_parse_pairs_err(pairs, j + 1, e);
    }
}

proof fn lemma_entry_index(ps: Seq<(Seq<char>, Seq<(Seq<char>, Option<Qualifier>)>)>, key: Seq<char>, i: int)
    requires
        0 <= i <= ps.len(),
        forall|j: int| 0 <= j < i ==> (#[trigger] ps[j]).0 != key,
        i == ps.len() || ps[i].0 == key,
    ensures
        entry_index(ps, key) == i,
    decreases i,
{
    if i > 0 {
        lemma_entry_index(ps.drop_first(), key, i - 1);
    }
}

fn insert_filter(ps: &mut Vec<(String, Vec<QueryParam>)>, key: String, p: QueryParam)
    ensures
        entries_view(final(ps)@) == add_filter(entries_view(old(ps)@), key@, param_view(p)),
{
    let i = find_entry(ps, key.as_str());
    let ghost before = entries_view(ps@);
    if i < ps.len() {
        proof {
            lemma_entry_index_found(before, key@);
        }
        let (k, mut v) = ps.remove(i);
        let ghost old_v = v@;
        v.push(p);
        proof {
            assert(v@.map_values(|q: QueryParam| param_view(q)) =~= old_v.map_values(
                |q: QueryParam| param_view(q),
            ).push(param_view(p)));
        }
        ps.insert(i, (key, v));
        assert(entries_view(ps@) =~= before.update(i as int, (key@, before[i as int].1.push(param_view(p)))));
    } else {
        let mut v: Vec<QueryParam> = Vec::new();
        v.push(p);
        assert(v@.map_values(|q: QueryParam| param_view(q)) =~= seq![param_view(p)]);
        ps.push((key, v));
        assert(entries_view(ps@) =~= before.push((key@, seq![param_view(p)])));
    }
}

/// Parses the list-related query parameters: pagination (`limit`, `cursor`, `offset`,
/// `count`), `expand`, `order` and column filters `column[op]=value`.
///
/// An unusable filter key is returned as the error.
pub fn parse_query(query: Option<&str>) -> (r: Result<QueryParseResult, String>)
    ensures
        match parsed_query(
            match query {
                Some(q) => Some(q@),
                None => None,
            },
        ) {
            Ok(q) => r matches Ok(res) && res@ == q,
            Err(k) => r matches Err(e) && e@ == k,
        },
{
    let mut result = QueryParseResult {
        limit: None,
        cursor: None,
        offset: None,
        count: None,
        expand: None,
        order: None,
        params: None,
    };
    let text = match query {
        Some(q) => q,
        None => {
            return Ok(result);
        },
    };
    if text.unicode_len() == 0 {
        return Ok(result);
    }
    let pairs = parse_form(text);
    let ghost fp = form_pairs(text@);
    let mut i: usize = 0;
    while i < pairs.len()
        invariant
            i <= pairs@.len(),
            query == Some(text),
            text@.len() != 0,
            pairs@.len() == fp.len(),
            fp == form_pairs(text@),
            forall|j: int| 0 <= j < pairs@.len() ==> (#[trigger] pairs@[j]).0@ == fp[j].0 && pairs@[j].1@ == fp[j].1,
            parse_pairs(fp.take(i as int)) == Ok::<ListQuery, Seq<char>>(result@),
        decreases pairs.len() - i,
    {
        let key = pairs[i].0.as_str();
        let value = pairs[i].1.as_str();
        proof {
            assert(fp.take(i + 1).drop_last() =~= fp.take(i as int));
            assert(fp.take(i + 1).last() == fp[i as int]);
        }
        let ghost before = result@;
        if str_eq(key, "limit") {
            result.limit = parse_usize(value);
        } else if str_eq(key, "cursor") {
            let c = Cursor::parse(value);
            proof {
                assert(cursor_view(c) == cursor_value(value@));
            }
            result.cursor = c;
        } else if str_eq(key, "offset") {
            result.offset = parse_usize(value);
        } else if str_eq(key, "count") {
            result.count = parse_bool(value);
        } else if str_eq(key, "expand") {
            result.expand = Some(split(value, ','));
        } else if str_eq(key, "order") {
            result.order = Some(order_list(value));
        } else {
            let (k, op) = match split_key_into_col_and_op(key) {
                Some(x) => x,
                None => {
                    proof {
                        lemma_parse_pairs_err(fp, i + 1, key@);
                    }
                    return Err(String::from_str(key));
                },
            };
            if !all_column_name_chars(k.as_str()) || value.unicode_len() == 0 {
                proof {
                    lemma_parse_pairs_err(fp, i + 1, key@);
                }
                return Err(String::from_str(key));
            }
            let qualifier = match &op {
                Some(o) => Qualifier::from(Some(o.as_str())),
                None => Qualifier::from(None),
            };
            let p = QueryParam { value: String::from_str(value), qualifier };
            let mut params = match result.params.take() {
                Some(ps) => ps,
                None => Vec::new(),
            };
            assert(entries_view(params@) =~= match before.params {
                Some(ps) => ps,
                None => Seq::empty(),
            });
            assert(param_view(p) == (value@, qualifier_of(split_key(key@).unwrap().1)));
            insert_filter(&mut params, k, p);
            result.params = Some(params);
        }
        assert(apply_pair(before, key@, value@) == Ok::<ListQuery, Seq<char>>(result@));
        i += 1;
    }
    proof {
        assert(fp.take(pairs@.len() as int) =~= fp);
    }
    Ok(result)
}

impl QueryParseResult {
    /// The filters on `column`, if any.
    pub fn filters(&self, column: &str) -> (r: Option<&Vec<QueryParam>>)
        ensures
            match self.params {
                Some(ps) => {
                    let i = entry_index(entries_view(ps@), column@);
                    if i < ps@.len() {
                        r matches Some(v) && v@ == ps@[i].1@
                    } else {
                        r is None
                    }
                },
                None => r is None,
            },
    {
        match &self.params {
            Some(ps) => {
                let i = find_entry(ps, column);
                if i < ps.len() {
                    Some(&ps[i].1)
                } else {
                    None
                }
            },
            None => None,
        }
    }
}


/// Why filters could not be turned into a `WHERE` clause.
#[derive(Clone, Debug, PartialEq, Eq)]
pub enum WhereClauseError {
    Parse(String),
    Base64Decode,
    NotImplemented(String),
    UnrecognizedParam(String),
}

/// A `WHERE` clause with named parameters and their values.
#[derive(Clone, Debug)]
pub struct WhereClause {
    pub clause: String,
    pub params: Vec<(String, SqlValue)>,
}

/// Index of the first column named `name`, or the number of columns when there is none.
pub open spec fn column_index(cols: Seq<Column>, name: Seq<char>) -> int
    decreases cols.len(),
{
    if cols.len() == 0 {
        0
    } else if cols[0].name@ == name {
        0
    } else {
        1 + column_index(cols.drop_first(), name)
    }
}

/// Conditions and parameters of the filters on one column of type `t`, whose placeholders
/// are numbered from `base`: each condition reads `column op :__pK`, with `K` its
/// parameter's position among all filter parameters. A filter without a recognized
/// qualifier, or whose value does not convert to the column's type, is skipped.
pub open spec fn param_clauses(
    name: Seq<char>,
    t: ColumnDataType,
    ps: Seq<(Seq<char>, Option<Qualifier>)>,
    base: nat,
) -> (Seq<Seq<char>>, Seq<(Seq<char>, SqlValueV)>)
    decreases ps.len(),
{
    if ps.len() == 0 {
        (seq![], seq![])
    } else {
        let init = param_clauses(name, t, ps.drop_last(), base);
        let placeholder = param_name_of(base + init.1.len());
        match ps.last().1 {
            None => init,
            Some(q) => match text_value(t, ps.last().0) {
                Ok(v) => (
                    init.0.push(name + seq![' '] + qualifier_sql(q) + seq![' '] + placeholder),
                    init.1.push((placeholder, v)),
                ),
                Err(_) => init,
            },
        }
    }
}

/// Why a column's filters were refused: a hidden (`_`-prefixed) or an unknown column.
pub ghost enum WhereErrorV {
    Hidden(Seq<char>),
    Unknown(Seq<char>),
}

/// Conditions and parameters of all filters, column by column in order; the first refused
/// column wins.
pub open spec fn where_parts(
    entries: Seq<(Seq<char>, Seq<(Seq<char>, Option<Qualifier>)>)>,
    cols: Seq<Column>,
) -> Result<(Seq<Seq<char>>, Seq<(Seq<char>, SqlValueV)>), WhereErrorV>
    decreases entries.len(),
{
    if entries.len() == 0 {
        Ok((seq![], seq![]))
    } else {
        match where_parts(entries.drop_last(), cols) {
            Err(e) => Err(e),
            Ok(acc) => {
                let name = entries.last().0;
                if name.len() > 0 && name[0] == '_' {
                    Err(WhereErrorV::Hidden(name))
                } else {
                    let i = column_index(cols, name);
                    if i >= cols.len() {
                        Err(WhereErrorV::Unknown(name))
                    } else {
                        let pc = param_clauses(name, cols[i].data_type, entries.last().1, acc.1.len());
                        Ok((acc.0 + pc.0, acc.1 + pc.1))
                    }
                }
            },
        }
    }
}


proof fn lemma_param_clauses_numbered(
    name: Seq<char>,
    t: ColumnDataType,
    ps: Seq<(Seq<char>, Option<Qualifier>)>,
    base: nat,
)
    ensures
        forall|k: int|
            0 <= k < param_clauses(name, t, ps, base).1.len() ==> (#[trigger] param_clauses(
                name,
                t,
                ps,
                base,
            ).1[k]).0 == param_name_of((base + k) as nat),
    decreases ps.len(),
{
    if ps.len() > 0 {
        lemma_param_clauses_numbered(name, t, ps.drop_last(), base);
        let init = param_clauses(name, t, ps.drop_last(), base);
        let r = param_clauses(name, t, ps, base);
        assert forall|k: int| 0 <= k < r.1.len() implies (#[trigger] r.1[k]).0 == param_name_of(
            (base + k) as nat,
        ) by {
            if k < init.1.len() {
                assert(init.1[k].0 == param_name_of((base + k) as nat));
            }
        }
    }
}

/// Filter parameters are numbered by their position: the `k`-th is bound to `:__pK`.
pub proof fn lemma_where_params_numbered(
    entries: Seq<(Seq<char>, Seq<(Seq<char>, Option<Qualifier>)>)>,
    cols: Seq<Column>,
)
    ensures
        where_parts(entries, cols) matches Ok(parts) ==> forall|k: int|
            0 <= k < parts.1.len() ==> (#[trigger] parts.1[k]).0 == param_name_of(k as nat),
    decreases entries.len(),
{
    if entries.len() > 0 {
        lemma_where_params_numbered(entries.drop_last(), cols);
        if let Ok(acc) = where_parts(entries.drop_last(), cols) {
            let name = entries.last().0;
            let i = column_index(cols, name);
            if !(name.len() > 0 && name[0] == '_') && i < cols.len() {
                lemma_param_clauses_numbered(name, cols[i].data_type, entries.last().1, acc.1.len());
                let pc = param_clauses(name, cols[i].data_type, entries.last().1, acc.1.len());
                assert forall|k: int| 0 <= k < (acc.1 + pc.1).len() implies (#[trigger] (acc.1
                    + pc.1)[k]).0 == param_name_of(k as nat) by {
                    if k >= acc.1.len() {
                        assert((acc.1 + pc.1)[k] == pc.1[k - acc.1.len()]);
                    }
                }
            }
        }
    }
}

proof fn lemma_decimal_len(n: nat)
    ensures
        decimal(n).len() >= 1,
        n >= 10 ==> decimal(n).len() >= 2,
    decreases n,
{
    if n >= 10 {
        lemma_decimal_len(n / 10);
    }
}

proof fn lemma_digit_char_injective(a: nat, b: nat)
    requires
        a < 10,
        b < 10,
        digit_char(a) == digit_char(b),
    ensures
        a == b,
{
}

/// Different numbers are written differently in decimal.
pub proof fn lemma_decimal_injective(a: nat, b: nat)
    requires
        decimal(a) == decimal(b),
    ensures
        a == b,
    decreases a + b,
{
    lemma_decimal_len(a);
    lemma_decimal_len(b);
    if a < 10 && b < 10 {
        assert(decimal(a)[0] == digit_char(a));
        assert(decimal(b)[0] == digit_char(b));
        lemma_digit_char_injective(a, b);
    } else if a >= 10 && b >= 10 {
        let da = decimal(a);
        let db = decimal(b);
        assert(da.drop_last() == decimal(a / 10));
        assert(db.drop_last() == decimal(b / 10));
        assert(da.last() == digit_char(a % 10));
        assert(db.last() == digit_char(b % 10));
        lemma_digit_char_injective(a % 10, b % 10);
        lemma_decimal_injective(a / 10, b / 10);
    } else {
        assert(decimal(a).len() != decimal(b).len());
    }
}

/// Each filter parameter has a placeholder of its own.
pub proof fn lemma_where_params_distinct(
    entries: Seq<(Seq<char>, Seq<(Seq<char>, Option<Qualifier>)>)>,
    cols: Seq<Column>,
)
    ensures
        where_parts(entries, cols) matches Ok(parts) ==> forall|j: int, k: int|
            0 <= j < k < parts.1.len() ==> (#[trigger] parts.1[j]).0 != (#[trigger] parts.1[k]).0,
{
    lemma_where_params_numbered(entries, cols);
    if let Ok(parts) = where_parts(entries, cols) {
        assert forall|j: int, k: int| 0 <= j < k < parts.1.len() implies (#[trigger] parts.1[j]).0
            != (#[trigger] parts.1[k]).0 by {
            if parts.1[j].0 == parts.1[k].0 {
                reveal_strlit(":__p");
                let pj = param_name_of(j as nat);
                let pk = param_name_of(k as nat);
                assert(pj.subrange(4, pj.len() as int) =~= decimal(j as nat));
                assert(pk.subrange(4, pk.len() as int) =~= decimal(k as nat));
                lemma_decimal_injective(j as nat, k as nat);
            }
        }
    }
}

/// The error reported for a refused column.
pub open spec fn where_error(e: WhereErrorV) -> Seq<char> {
    match e {
        WhereErrorV::Hidden(n) => "Invalid parameter: "@ + n,
        WhereErrorV::Unknown(n) => "Unrecognized parameter: "@ + n,
    }
}

/// The `WHERE` clause of the filters: their conditions joined by `AND`, or `TRUE` when
/// there are none.
pub open spec fn where_clause_of(
    entries: Seq<(Seq<char>, Seq<(Seq<char>, Option<Qualifier>)>)>,
    cols: Seq<Column>,
) -> Result<(Seq<char>, Seq<(Seq<char>, SqlValueV)>), Seq<char>> {
    match where_parts(entries, cols) {
        Ok(parts) => Ok((
            if parts.0.len() == 0 {
                "TRUE"@
            } else {
                seq_join(parts.0, " AND "@)
            },
            parts.1,
        )),
        Err(e) => Err(where_error(e)),
    }
}

pub open spec fn sql_params_view(p: Seq<(String, SqlValue)>) -> Seq<(Seq<char>, SqlValueV)> {
    p.map_values(|e: (String, SqlValue)| (e.0@, e.1@))
}

proof fn lemma_column_index(cols: Seq<Column>, name: Seq<char>, i: int)
    requires
        0 <= i <= cols.len(),
        forall|j: int| 0 <= j < i ==> (#[trigger] cols[j]).name@ != name,
        i == cols.len() || cols[i].name@ == name,
    ensures
        column_index(cols, name) == i,
    decreases i,
{
    if i > 0 {
        assert forall|j: int| 0 <= j < i - 1 implies (#[trigger] cols.drop_first()[j]).name@ != name by {
            assert(cols.drop_first()[j] == cols[j + 1]);
        }
        lemma_column_index(cols.drop_first(), name, i - 1);
    }
}

fn find_column(columns: &Vec<Column>, name: &str) -> (r: usize)
    ensures
        r == column_index(columns@, name@),
{
    let mut i: usize = 0;
    while i < columns.len() && !str_eq(columns[i].name.as_str(), name)
        invariant
            i <= columns.len(),
            forall|j: int| 0 <= j < i ==> (#[trigger] columns@[j]).name@ != name@,
        decreases columns.len() - i,
    {
        i += 1;
    }
    proof {
        lemma_column_index(columns@, name@, i as int);
    }
    i
}

proof fn lemma_where_parts_error(
    entries: Seq<(Seq<char>, Seq<(Seq<char>, Option<Qualifier>)>)>,
    cols: Seq<Column>,
    k: int,
    e: WhereErrorV,
)
    requires
        0 <= k <= entries.len(),
        where_parts(entries.take(k), cols) matches Err(x) && x == e,
    ensures
        where_parts(entries, cols) matches Err(x) && x == e,
    decreases entries.len() - k,
{
    if k == entries.len() {
        assert(entries.take(k) =~= entries);
    } else {
        assert(entries.take(k + 1).drop_last() =~= entries.take(k));
        lemma_where_parts_error(entries, cols, k + 1, e);
    }
}

/// Builds the `WHERE` clause of the filters for a table or view with the given columns.
/// Conditions read `column op :__pK`, each filter with a placeholder of its own numbered by
/// position; a filter is skipped when its qualifier was not
/// recognized or its value does not convert to the column's type.
#[verifier::loop_isolation(false)]
pub fn build_filter_where_clause(
    columns: &Vec<Column>,
    filter_params: Option<Vec<(String, Vec<QueryParam>)>>,
) -> (r: Result<WhereClause, WhereClauseError>)
    ensures
        match r {
            Ok(w) => where_clause_of(
                match filter_params {
                    Some(ps) => entries_view(ps@),
                    None => seq![],
                },
                columns@,
            ) == Ok::<(Seq<char>, Seq<(Seq<char>, SqlValueV)>), Seq<char>>(
                (w.clause@, sql_params_view(w.params@)),
            ),
            Err(e) => e matches WhereClauseError::UnrecognizedParam(m) && where_clause_of(
                match filter_params {
                    Some(ps) => entries_view(ps@),
                    None => seq![],
                },
                columns@,
            ) == Err::<(Seq<char>, Seq<(Seq<char>, SqlValueV)>), Seq<char>>(m@),
        },
        r matches Ok(w) ==> forall|j: int, k: int|
            0 <= j < k < w.params@.len() ==> (#[trigger] w.params@[j]).0@ != (#[trigger] w.params@[k]).0@,
{
    let mut where_clauses: Vec<String> = Vec::new();
    let mut params: Vec<(String, SqlValue)> = Vec::new();
    let ghost entries = match filter_params {
        Some(ref ps) => entries_view(ps@),
        None => seq![],
    };
    proof {
        assert(views(where_clauses@) =~= Seq::<Seq<char>>::empty());
        assert(sql_params_view(params@) =~= Seq::<(Seq<char>, SqlValueV)>::empty());
    }
    match filter_params {
        Some(fps) => {
            let mut i: usize = 0;
            proof {
                assert(entries.take(0) =~= Seq::<(Seq<char>, Seq<(Seq<char>, Option<Qualifier>)>)>::empty());
            }
            while i < fps.len()
                invariant
                    entries == entries_view(fps@),
                    i <= fps.len(),
                    where_parts(entries.take(i as int), columns@) == Ok::<
                        (Seq<Seq<char>>, Seq<(Seq<char>, SqlValueV)>),
                        WhereErrorV,
                    >((views(where_clauses@), sql_params_view(params@))),
                decreases fps.len() - i,
            {
                let column_name = &fps[i].0;
                let query_params = &fps[i].1;
                let ghost name = column_name@;
                proof {
                    assert(entries.take(i + 1).drop_last() =~= entries.take(i as int));
                    assert(entries.take(i + 1).last() == entries[i as int]);
                    assert(entries[i as int] == entry_view(fps@[i as int]));
                }
                if column_name.as_str().unicode_len() > 0 && column_name.as_str().get_char(0) == '_' {
                    let mut msg = String::from_str("Invalid parameter: ");
                    msg.append(column_name.as_str());
                    proof {
                        lemma_where_parts_error(entries, columns@, i + 1, WhereErrorV::Hidden(name));
                    }
                    return Err(WhereClauseError::UnrecognizedParam(msg));
                }
                let ci = find_column(columns, column_name.as_str());
                if ci >= columns.len() {
                    let mut msg = String::from_str("Unrecognized parameter: ");
                    msg.append(column_name.as_str());
                    proof {
                        lemma_where_parts_error(entries, columns@, i + 1, WhereErrorV::Unknown(name));
                    }
                    return Err(WhereClauseError::UnrecognizedParam(msg));
                }
                let data_type = columns[ci].data_type;
                let ghost pv = query_params@.map_values(|p: QueryParam| param_view(p));
                let ghost c0 = views(where_clauses@);
                let ghost p0 = sql_params_view(params@);
                let mut j: usize = 0;
                proof {
                    assert(pv.take(0) =~= Seq::<(Seq<char>, Option<Qualifier>)>::empty());
                    assert(c0 + seq![] =~= c0);
                    assert(p0 + seq![] =~= p0);
                }
                while j < query_params.len()
                    invariant
                        j <= query_params.len(),
                        pv == query_params@.map_values(|p: QueryParam| param_view(p)),
                        views(where_clauses@) == c0 + param_clauses(name, data_type, pv.take(j as int), p0.len()).0,
                        sql_params_view(params@) == p0 + param_clauses(name, data_type, pv.take(j as int), p0.len()).1,
                    decreases query_params.len() - j,
                {
                    let qp = &query_params[j];
                    proof {
                        assert(pv.take(j + 1).drop_last() =~= pv.take(j as int));
                        assert(pv.take(j + 1).last() == param_view(query_params@[j as int]));
                    }
                    match qp.qualifier {
                        None => {},
                        Some(q) => {
                            let op = q.to_sql();
                            match json_string_to_value(data_type, qp.value.clone()) {
                                Ok(value) => {
                                    let pname = param_name(params.len());
                                    let mut clause = String::new();
                                    clause.append(column_name.as_str());
                                    push_char(&mut clause, ' ');
                                    clause.append(op);
                                    push_char(&mut clause, ' ');
                                    clause.append(pname.as_str());
                                    proof {
                                        let init = param_clauses(name, data_type, pv.take(j as int), p0.len());
                                        assert(params@.len() == sql_params_view(params@).len());
                                        assert(p0.len() + init.1.len() == params@.len());
                                        assert(clause@ =~= name + seq![' '] + qualifier_sql(q) + seq![' '] + pname@);
                                        lemma_views_push(where_clauses@, clause);
                                        assert(sql_params_view(params@.push((pname, value))) =~= sql_params_view(params@).push((pname@, value@)));
                                    }
                                    where_clauses.push(clause);
                                    params.push((pname, value));
                                },
                                Err(_) => {},
                            }
                        },
                    }
                    j += 1;
                }
                proof {
                    assert(pv.take(j as int) =~= pv);
                    assert(entries[i as int].1 == pv);
                }
                i += 1;
            }
            proof {
                assert(entries.take(i as int) =~= entries);
            }
        },
        None => {
            proof {
                assert(entries =~= Seq::<(Seq<char>, Seq<(Seq<char>, Option<Qualifier>)>)>::empty());
            }
        },
    }
    proof {
        lemma_where_params_distinct(entries, columns@);
        assert forall|j: int, k: int| 0 <= j < k < params@.len() implies (#[trigger] params@[j]).0@
            != (#[trigger] params@[k]).0@ by {
            assert(sql_params_view(params@)[j].0 == params@[j].0@);
            assert(sql_params_view(params@)[k].0 == params@[k].0@);
        }
    }
    let clause = if where_clauses.len() == 0 {
        String::from_str("TRUE")
    } else {
        join(&where_clauses, " AND ")
    };
    Ok(WhereClause { clause, params })
}

} // verus!

//! Decimal number syntax as `str::parse` accepts it for integers and floats.
use vstd::prelude::*;

verus! {

pub open spec fn is_digit(c: char) -> bool {
    '0' <= c && c <= '9'
}

pub open spec fn digit_value(c: char) -> nat {
    (c as u32 - '0' as u32) as nat
}

pub open spec fn all_digits(s: Seq<char>) -> bool {
    forall|i: int| 0 <= i < s.len() ==> is_digit(#[trigger] s[i])
}

/// The value of a string of decimal digits.
pub open spec fn digits_value(s: Seq<char>) -> nat
    decreases s.len(),
{
    if s.len() == 0 {
        0
    } else {
        digits_value(s.drop_last()) * 10 + digit_value(s.last())
    }
}

/// The magnitude part after an optional sign: at least one digit and digits only.
pub open spec fn is_magnitude(s: Seq<char>) -> bool {
    s.len() > 0 && all_digits(s)
}

/// What `str::parse::<usize>` returns: an optional `+` followed by digits whose value fits.
pub open spec fn parsed_usize(s: Seq<char>) -> Option<usize> {
    let m = if s.len() > 0 && s[0] == '+' {
        s.subrange(1, s.len() as int)
    } else {
        s
    };
    if is_magnitude(m) && digits_value(m) <= usize::MAX {
        Some(digits_value(m) as usize)
    } else {
        None
    }
}

/// What `str::parse::<i64>` returns: an optional sign followed by digits whose value fits.
pub open spec fn parsed_i64(s: Seq<char>) -> Option<i64> {
    let negative = s.len() > 0 && s[0] == '-';
    let m = if s.len() > 0 && (s[0] == '+' || s[0] == '-') {
        s.subrange(1, s.len() as int)
    } else {
        s
    };
    if !is_magnitude(m) {
        None
    } else if negative {
        if digits_value(m) <= 0x8000_0000_0000_0000 {
            Some((0 - digits_value(m)) as i64)
        } else {
            None
        }
    } else if digits_value(m) <= i64::MAX {
        Some(digits_value(m) as i64)
    } else {
        None
    }
}

proof fn lemma_digits_value_step(s: Seq<char>, i: int)
    requires
        0 <= i < s.len(),
    ensures
        digits_value(s.take(i + 1)) == digits_value(s.take(i)) * 10 + digit_value(s[i]),
{
    assert(s.take(i + 1).drop_last() =~= s.take(i));
}

proof fn lemma_digits_value_monotone(s: Seq<char>, i: int)
    requires
        0 <= i <= s.len(),
        all_digits(s),
    ensures
        digits_value(s.take(i)) <= digits_value(s),
    decreases s.len() - i,
{
    if i < s.len() {
        lemma_digits_value_step(s, i);
        lemma_digits_value_monotone(s, i + 1);
    } else {
        assert(s.take(i) =~= s);
    }
}

/// The value of the digits of `s` from `start` on, when it is at most `limit`.
fn magnitude(s: &str, start: usize, limit: u64) -> (r: Option<u64>)
    requires
        start <= s@.len(),
    ensures
        r matches Some(v) ==> is_magnitude(s@.subrange(start as int, s@.len() as int)) && v
            == digits_value(s@.subrange(start as int, s@.len() as int)) && v <= limit,
        r is None ==> !is_magnitude(s@.subrange(start as int, s@.len() as int)) || digits_value(
            s@.subrange(start as int, s@.len() as int),
        ) > limit,
{
    let n = s.unicode_len();
    let ghost m = s@.subrange(start as int, s@.len() as int);
    if start >= n {
        return None;
    }
    let mut v: u64 = 0;
    let mut i: usize = start;
    while i < n
        invariant
            n == s@.len(),
            start <= i <= n,
            m == s@.subrange(start as int, s@.len() as int),
            forall|j: int| 0 <= j < i - start ==> is_digit(#[trigger] m[j]),
            v == digits_value(m.take(i - start)),
            v <= limit,
        decreases n - i,
    {
        let c = s.get_char(i);
        if !('0' <= c && c <= '9') {
            assert(!is_digit(m[i - start]));
            return None;
        }
        let d = (c as u32 - '0' as u32) as u64;
        proof {
            lemma_digits_value_step(m, i - start);
        }
        if v > limit / 10 || (v == limit / 10 && d > limit % 10) {
            proof {
                assert(digits_value(m.take(i - start + 1)) > limit) by (nonlinear_arith)
                    requires
                        digits_value(m.take(i - start + 1)) == v * 10 + d,
                        v > limit / 10 || (v == limit / 10 && d > limit % 10),
                        d <= 9,
                ;
                assert forall|j: int| 0 <= j < i - start + 1 implies is_digit(#[trigger] m[j]) by {}
                if is_magnitude(m) {
                    lemma_digits_value_monotone(m, i - start + 1);
                }
            }
            return None;
        }
        assert(v * 10 + d <= limit) by (nonlinear_arith)
            requires
                v <= limit / 10,
                v < limit / 10 || d <= limit % 10,
                d <= 9,
        ;
        v = v * 10 + d;
        i += 1;
    }
    proof {
        assert(m.take(i - start) =~= m);
    }
    Some(v)
}

/// `str::parse::<usize>`.
pub fn parse_usize(s: &str) -> (r: Option<usize>)
    ensures
        r == parsed_usize(s@),
{
    let n = s.unicode_len();
    let start: usize = if n > 0 && s.get_char(0) == '+' {
        1
    } else {
        0
    };
    proof {
        if start == 0 {
            assert(s@.subrange(0, s@.len() as int) =~= s@);
        }
    }
    match magnitude(s, start, usize::MAX as u64) {
        Some(v) => Some(v as usize),
        None => None,
    }
}

/// `str::parse::<i64>`.
pub fn parse_i64(s: &str) -> (r: Option<i64>)
    ensures
        r == parsed_i64(s@),
{
    let n = s.unicode_len();
    let negative = n > 0 && s.get_char(0) == '-';
    let start: usize = if n > 0 && (s.get_char(0) == '+' || s.get_char(0) == '-') {
        1
    } else {
        0
    };
    proof {
        if start == 0 {
            assert(s@.subrange(0, s@.len() as int) =~= s@);
        }
    }
    if negative {
        match magnitude(s, start, 0x8000_0000_0000_0000u64) {
            Some(v) => {
                if v == 0x8000_0000_0000_0000u64 {
                    Some(i64::MIN)
                } else {
                    Some(0 - (v as i64))
                }
            },
            None => None,
        }
    } else {
        match magnitude(s, start, i64::MAX as u64) {
            Some(v) => Some(v as i64),
            None => None,
        }
    }
}

/// ASCII lower case of a character.
pub open spec fn ascii_lower(c: char) -> char {
    if 'A' <= c && c <= 'Z' {
        ((c as u32) + 32) as char
    } else {
        c
    }
}

pub open spec fn lower_seq(s: Seq<char>) -> Seq<char> {
    s.map_values(|c: char| ascii_lower(c))
}

pub open spec fn is_sign(c: char) -> bool {
    c == '+' || c == '-'
}

/// Index of the first occurrence of `c` in `s`, or `s.len()` when there is none.
pub open spec fn first_index(s: Seq<char>, c: char) -> int
    decreases s.len(),
{
    if s.len() == 0 {
        0
    } else if s[0] == c {
        0
    } else {
        1 + first_index(s.drop_first(), c)
    }
}

proof fn lemma_first_index(s: Seq<char>, c: char, i: int)
    requires
        0 <= i <= s.len(),
        forall|j: int| 0 <= j < i ==> s[j] != c,
        i == s.len() || s[i] == c,
    ensures
        first_index(s, c) == i,
    decreases i,
{
    if i > 0 {
        lemma_first_index(s.drop_first(), c, i - 1);
    }
}

/// `Digit+ | Digit+ '.' Digit* | Digit* '.' Digit+` of the float grammar.
pub open spec fn is_float_mantissa(s: Seq<char>) -> bool {
    let k = first_index(s, '.');
    if k == s.len() {
        is_magnitude(s)
    } else {
        all_digits(s.take(k)) && all_digits(s.skip(k + 1)) && (k > 0 || k + 1 < s.len())
    }
}

/// `Sign? Digit+`: the exponent's digits.
pub open spec fn is_exponent(e: Seq<char>) -> bool {
    ||| is_magnitude(e)
    ||| (e.len() > 0 && is_sign(e[0]) && is_magnitude(e.skip(1)))
}

/// `Number ::= Mantissa Exp?` with `Exp ::= 'e' Sign? Digit+` (lower-cased).
pub open spec fn is_float_number(s: Seq<char>) -> bool {
    let k = first_index(s, 'e');
    if k == s.len() {
        is_float_mantissa(s)
    } else {
        is_float_mantissa(s.take(k)) && is_exponent(s.skip(k + 1))
    }
}

/// Whether `str::parse::<f64>` accepts `s`: the grammar of the `FromStr` documentation
/// of `f64`, applied to the lower-cased input.
pub open spec fn is_float_literal(s: Seq<char>) -> bool {
    let l = lower_seq(s);
    let body = if l.len() > 0 && is_sign(l[0]) {
        l.skip(1)
    } else {
        l
    };
    ||| body == "inf"@
    ||| body == "infinity"@
    ||| body == "nan"@
    ||| is_float_number(body)
}

fn lower_chars(s: &str) -> (r: Vec<char>)
    ensures
        r@ == lower_seq(s@),
{
    let n = s.unicode_len();
    let mut r: Vec<char> = Vec::new();
    let mut i: usize = 0;
    while i < n
        invariant
            n == s@.len(),
            i <= n,
            r@ =~= lower_seq(s@.take(i as int)),
        decreases n - i,
    {
        let c = s.get_char(i);
        let l = if 'A' <= c && c <= 'Z' {
            ((c as u8) + 32) as char
        } else {
            c
        };
        r.push(l);
        proof {
            assert(s@.take(i + 1) =~= s@.take(i as int).push(c));
        }
        i += 1;
    }
    proof {
        assert(s@.take(n as int) =~= s@);
    }
    r
}

fn find_char(s: &Vec<char>, lo: usize, hi: usize, c: char) -> (r: usize)
    requires
        lo <= hi <= s@.len(),
    ensures
        lo <= r <= hi,
        r - lo == first_index(s@.subrange(lo as int, hi as int), c),
{
    let mut i = lo;
    while i < hi && s[i] != c
        invariant
            lo <= i <= hi,
            hi <= s@.len(),
            forall|j: int| lo <= j < i ==> s@[j] != c,
        decreases hi - i,
    {
        i += 1;
    }
    proof {
        lemma_first_index(s@.subrange(lo as int, hi as int), c, i - lo);
    }
    i
}

fn digits_between(s: &Vec<char>, lo: usize, hi: usize) -> (r: bool)
    requires
        lo <= hi <= s@.len(),
    ensures
        r == all_digits(s@.subrange(lo as int, hi as int)),
{
    let mut i = lo;
    while i < hi
        invariant
            lo <= i <= hi,
            hi <= s@.len(),
            forall|j: int| lo <= j < i ==> is_digit(s@[j]),
        decreases hi - i,
    {
        if !('0' <= s[i] && s[i] <= '9') {
            assert(!is_digit(s@.subrange(lo as int, hi as int)[i - lo]));
            return false;
        }
        i += 1;
    }
    assert forall|j: int| 0 <= j < hi - lo implies is_digit(#[trigger] s@.subrange(lo as int, hi as int)[j]) by {
        assert(s@.subrange(lo as int, hi as int)[j] == s@[lo + j]);
    }
    true
}

fn mantissa_between(s: &Vec<char>, lo: usize, hi: usize) -> (r: bool)
    requires
        lo <= hi <= s@.len(),
    ensures
        r == is_float_mantissa(s@.subrange(lo as int, hi as int)),
{
    let ghost m = s@.subrange(lo as int, hi as int);
    let k = find_char(s, lo, hi, '.');
    if k == hi {
        hi > lo && digits_between(s, lo, hi)
    } else {
        proof {
            assert(m.take(k - lo) =~= s@.subrange(lo as int, k as int));
            assert(m.skip(k - lo + 1) =~= s@.subrange(k + 1, hi as int));
        }
        digits_between(s, lo, k) && digits_between(s, k + 1, hi) && (k > lo || k + 1 < hi)
    }
}

fn exponent_between(s: &Vec<char>, lo: usize, hi: usize) -> (r: bool)
    requires
        lo <= hi <= s@.len(),
    ensures
        r == is_exponent(s@.subrange(lo as int, hi as int)),
{
    let ghost e = s@.subrange(lo as int, hi as int);
    if hi > lo && digits_between(s, lo, hi) {
        return true;
    }
    if hi > lo && (s[lo] == '+' || s[lo] == '-') {
        proof {
            assert(e.skip(1) =~= s@.subrange(lo + 1, hi as int));
        }
        hi > lo + 1 && digits_between(s, lo + 1, hi)
    } else {
        false
    }
}

fn seq_is(s: &Vec<char>, lo: usize, word: &str) -> (r: bool)
    requires
        lo <= s@.len(),
    ensures
        r == (s@.subrange(lo as int, s@.len() as int) == word@),
{
    let n = word.unicode_len();
    let total = s.len();
    if total - lo != n {
        return false;
    }
    let mut i: usize = 0;
    while i < n
        invariant
            n == word@.len(),
            total == s@.len(),
            lo + n == total,
            i <= n,
            forall|j: int| 0 <= j < i ==> s@[lo + j] == word@[j],
        decreases n - i,
    {
        if s[lo + i] != word.get_char(i) {
            assert(s@.subrange(lo as int, s@.len() as int)[i as int] != word@[i as int]);
            return false;
        }
        i += 1;
    }
    assert(s@.subrange(lo as int, s@.len() as int) =~= word@);
    true
}

/// Whether `str::parse::<f64>` succeeds on `s`.
pub fn is_float(s: &str) -> (r: bool)
    ensures
        r == is_float_literal(s@),
{
    let l = lower_chars(s);
    let n = l.len();
    let lo: usize = if n > 0 && (l[0] == '+' || l[0] == '-') {
        1
    } else {
        0
    };
    let ghost body = if l@.len() > 0 && is_sign(l@[0]) {
        l@.skip(1)
    } else {
        l@
    };
    proof {
        assert(body =~= l@.subrange(lo as int, n as int));
    }
    if seq_is(&l, lo, "inf") || seq_is(&l, lo, "infinity") || seq_is(&l, lo, "nan") {
        return true;
    }
    let k = find_char(&l, lo, n, 'e');
    if k == n {
        mantissa_between(&l, lo, n)
    } else {
        proof {
            assert(body.take(k - lo) =~= l@.subrange(lo as int, k as int));
            assert(body.skip(k - lo + 1) =~= l@.subrange(k + 1, n as int));
        }
        mantissa_between(&l, lo, k) && exponent_between(&l, k + 1, n)
    }
}

} // verus!

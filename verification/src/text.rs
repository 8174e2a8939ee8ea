//! Character-level helpers shared by the URL builders, the XML readers and
//! the small string parsers of the library.
//!
//! Strings are reasoned about through their view, the sequence of `char`s.

use vstd::prelude::*;

verus! {

// ---------------------------------------------------------------------------
// Building strings
// ---------------------------------------------------------------------------

/// Appends one character to a `String` (std's `String::push`).
#[verifier::external_body]
pub(crate) fn push_char(s: &mut String, c: char)
    ensures
        final(s)@ == old(s)@.push(c),
{
    s.push(c);
}

/// The characters of `s`, in order.
pub fn chars_of(s: &str) -> (v: Vec<char>)
    ensures
        v@ == s@,
{
    let mut v: Vec<char> = Vec::new();
    for c in it: s.chars()
        invariant
            v@ == it.seq().take(it.index() as int),
    {
        v.push(c);
    }
    v
}

/// A `String` holding exactly the characters of `v`.
pub fn string_of(v: &[char]) -> (s: String)
    ensures
        s@ == v@,
{
    let mut s = String::new();
    let n = v.len();
    for i in 0..n
        invariant
            n == v@.len(),
            s@ == v@.take(i as int),
    {
        push_char(&mut s, v[i]);
        assert(v@.take(i + 1) == v@.take(i as int).push(v@[i as int]));
    }
    assert(v@.take(n as int) == v@);
    s
}

/// Appends every character of `src` to `dst`.
pub fn extend_chars(dst: &mut Vec<char>, src: &[char])
    ensures
        final(dst)@ == old(dst)@ + src@,
{
    let n = src.len();
    for i in 0..n
        invariant
            n == src@.len(),
            dst@ == old(dst)@ + src@.take(i as int),
    {
        dst.push(src[i]);
        assert(src@.take(i + 1) == src@.take(i as int).push(src@[i as int]));
    }
    assert(src@.take(n as int) == src@);
}

/// Appends every character of `src` to `dst`.
pub fn extend_str(dst: &mut Vec<char>, src: &str)
    ensures
        final(dst)@ == old(dst)@ + src@,
{
    let v = chars_of(src);
    extend_chars(dst, v.as_slice());
}

/// Whether two character sequences are equal.
pub fn chars_eq(a: &[char], b: &[char]) -> (r: bool)
    ensures
        r == (a@ == b@),
{
    if a.len() != b.len() {
        return false;
    }
    let n = a.len();
    for i in 0..n
        invariant
            n == a@.len(),
            n == b@.len(),
            forall|j: int| 0 <= j < i ==> a@[j] == b@[j],
    {
        if a[i] != b[i] {
            return false;
        }
    }
    assert(a@ =~= b@);
    true
}

/// Whether the characters of `a` spell the string `b`.
pub fn chars_eq_str(a: &[char], b: &str) -> (r: bool)
    ensures
        r == (a@ == b@),
{
    let bv = chars_of(b);
    chars_eq(a, bv.as_slice())
}

/// Whether two strings are equal.
pub fn str_eq(a: &str, b: &str) -> (r: bool)
    ensures
        r == (a@ == b@),
{
    let av = chars_of(a);
    chars_eq_str(av.as_slice(), b)
}

// ---------------------------------------------------------------------------
// ASCII case
// ---------------------------------------------------------------------------

pub open spec fn lower_char(c: char) -> char {
    if 'A' <= c && c <= 'Z' {
        ((c as u32) + 32) as char
    } else {
        c
    }
}

pub open spec fn upper_char(c: char) -> char {
    if 'a' <= c && c <= 'z' {
        ((c as u32) - 32) as char
    } else {
        c
    }
}

/// `s` with every ASCII upper-case letter mapped to lower case.
pub open spec fn ascii_lower(s: Seq<char>) -> Seq<char> {
    s.map_values(|c: char| lower_char(c))
}

/// `s` with every ASCII lower-case letter mapped to upper case.
pub open spec fn ascii_upper(s: Seq<char>) -> Seq<char> {
    s.map_values(|c: char| upper_char(c))
}

pub fn to_ascii_lower_char(c: char) -> (r: char)
    ensures
        r == lower_char(c),
{
    if 'A' <= c && c <= 'Z' {
        let u = (c as u32) + 32;
        let r = char_from_ascii(u);
        r
    } else {
        c
    }
}

pub fn to_ascii_upper_char(c: char) -> (r: char)
    ensures
        r == upper_char(c),
{
    if 'a' <= c && c <= 'z' {
        let u = (c as u32) - 32;
        char_from_ascii(u)
    } else {
        c
    }
}

/// std's `char::from_u32`, for a code point below 128 (always a
/// character, so the result is unwrapped): the character with that code
/// point.
#[verifier::external_body]
fn char_from_ascii(u: u32) -> (r: char)
    requires
        u < 128,
    ensures
        r as u32 == u,
        r == u as char,
{
    char::from_u32(u).unwrap()
}

/// The ASCII lower-case form of `s`.
pub fn lower_chars(s: &[char]) -> (r: Vec<char>)
    ensures
        r@ == ascii_lower(s@),
{
    let mut r: Vec<char> = Vec::new();
    let n = s.len();
    for i in 0..n
        invariant
            n == s@.len(),
            r@ == ascii_lower(s@.take(i as int)),
    {
        let c = to_ascii_lower_char(s[i]);
        r.push(c);
        assert(ascii_lower(s@.take(i + 1)) =~= ascii_lower(s@.take(i as int)).push(c));
    }
    assert(s@.take(n as int) == s@);
    r
}

/// The ASCII upper-case form of `s`.
pub fn upper_chars(s: &[char]) -> (r: Vec<char>)
    ensures
        r@ == ascii_upper(s@),
{
    let mut r: Vec<char> = Vec::new();
    let n = s.len();
    for i in 0..n
        invariant
            n == s@.len(),
            r@ == ascii_upper(s@.take(i as int)),
    {
        let c = to_ascii_upper_char(s[i]);
        r.push(c);
        assert(ascii_upper(s@.take(i + 1)) =~= ascii_upper(s@.take(i as int)).push(c));
    }
    assert(s@.take(n as int) == s@);
    r
}

pub open spec fn is_ascii_alnum(c: char) -> bool {
    ('a' <= c && c <= 'z') || ('A' <= c && c <= 'Z') || ('0' <= c && c <= '9')
}

pub open spec fn is_ascii_digit(c: char) -> bool {
    '0' <= c && c <= '9'
}

// ---------------------------------------------------------------------------
// Searching
// ---------------------------------------------------------------------------

/// `s` begins with `p`.
pub open spec fn starts_with(s: Seq<char>, p: Seq<char>) -> bool {
    p.len() <= s.len() && s.take(p.len() as int) == p
}

/// `s` ends with `p`.
pub open spec fn ends_with(s: Seq<char>, p: Seq<char>) -> bool {
    p.len() <= s.len() && s.skip(s.len() - p.len()) == p
}

/// `s` holds the character `c` somewhere.
pub open spec fn has_char(s: Seq<char>, c: char) -> bool {
    exists|i: int| 0 <= i < s.len() && s[i] == c
}

/// `p` occurs in `s` at position `i`.
pub open spec fn occurs_at(s: Seq<char>, p: Seq<char>, i: int) -> bool {
    0 <= i && i + p.len() <= s.len() && s.subrange(i, i + p.len()) == p
}

/// `p` occurs somewhere in `s`.
pub open spec fn contains(s: Seq<char>, p: Seq<char>) -> bool {
    exists|i: int| occurs_at(s, p, i)
}

pub fn chars_starts_with(s: &[char], p: &[char]) -> (r: bool)
    ensures
        r == starts_with(s@, p@),
{
    if p.len() > s.len() {
        return false;
    }
    let n = p.len();
    for i in 0..n
        invariant
            n == p@.len(),
            n <= s@.len(),
            forall|j: int| 0 <= j < i ==> s@[j] == p@[j],
    {
        if s[i] != p[i] {
            return false;
        }
    }
    assert(s@.take(n as int) =~= p@);
    true
}

/// Whether `p` occurs in `s` starting at `i`.
pub fn chars_occur_at(s: &[char], p: &[char], i: usize) -> (r: bool)
    ensures
        r == occurs_at(s@, p@, i as int),
{
    let sl = s.len();
    if i > sl || p.len() > sl - i {
        return false;
    }
    let n = p.len();
    for k in 0..n
        invariant
            n == p@.len(),
            sl == s@.len(),
            i + n <= s@.len(),
            forall|j: int| 0 <= j < k ==> s@[i + j] == p@[j],
    {
        assert(i + k < s@.len());
        if s[i + k] != p[k] {
            return false;
        }
    }
    assert(s@.subrange(i as int, i + n) =~= p@);
    true
}

/// The position of the first `c` in `s`, if any.
pub fn find_char(s: &[char], c: char) -> (r: Option<usize>)
    ensures
        match r {
            Some(i) => i < s@.len() && s@[i as int] == c && forall|j: int| 0 <= j < i ==> s@[j] != c,
            None => !has_char(s@, c),
        },
{
    let n = s.len();
    for i in 0..n
        invariant
            n == s@.len(),
            forall|j: int| 0 <= j < i ==> s@[j] != c,
    {
        if s[i] == c {
            return Some(i);
        }
    }
    None
}

/// The position of the last `c` in `s`, if any.
pub fn rfind_char(s: &[char], c: char) -> (r: Option<usize>)
    ensures
        match r {
            Some(i) => i < s@.len() && s@[i as int] == c && forall|j: int| i < j < s@.len() ==> s@[j] != c,
            None => !has_char(s@, c),
        },
{
    let mut i = s.len();
    while i > 0
        invariant
            i <= s@.len(),
            forall|j: int| i <= j < s@.len() ==> s@[j] != c,
        decreases i,
    {
        i = i - 1;
        if s[i] == c {
            return Some(i);
        }
    }
    None
}

// ---------------------------------------------------------------------------
// Substitution
// ---------------------------------------------------------------------------

/// `s` with every occurrence of `pat` replaced by `rep`, scanning from the
/// left and never re-reading replaced text (std's `str::replace` for a
/// non-empty pattern).
pub open spec fn replace_all(s: Seq<char>, pat: Seq<char>, rep: Seq<char>) -> Seq<char>
    decreases s.len(),
{
    if pat.len() == 0 || s.len() < pat.len() {
        s
    } else if s.take(pat.len() as int) == pat {
        rep + replace_all(s.skip(pat.len() as int), pat, rep)
    } else {
        seq![s[0]] + replace_all(s.skip(1), pat, rep)
    }
}

/// Replaces every occurrence of `pat` in `s` by `rep`, left to right.
pub fn replace_chars(s: &[char], pat: &[char], rep: &[char]) -> (r: Vec<char>)
    requires
        pat@.len() > 0,
    ensures
        r@ == replace_all(s@, pat@, rep@),
{
    let mut out: Vec<char> = Vec::new();
    let mut i: usize = 0;
    let n = s.len();
    assert(s@.skip(0) =~= s@);
    while i < n
        invariant
            n == s@.len(),
            i <= n,
            pat@.len() > 0,
            out@ + replace_all(s@.skip(i as int), pat@, rep@) == replace_all(s@, pat@, rep@),
        decreases n - i,
    {
        let ghost rest = s@.skip(i as int);
        if chars_occur_at(s, pat, i) {
            proof {
                assert(rest.take(pat@.len() as int) =~= s@.subrange(i as int, i + pat@.len()));
                assert(rest.skip(pat@.len() as int) =~= s@.skip(i + pat@.len()));
            }
            let ghost before = out@;
            extend_chars(&mut out, rep);
            i = i + pat.len();
            proof {
                let tail = replace_all(s@.skip(i as int), pat@, rep@);
                assert((before + rep@) + tail =~= before + (rep@ + tail));
            }
        } else {
            proof {
                if rest.len() >= pat@.len() {
                    assert(rest.take(pat@.len() as int) =~= s@.subrange(i as int, i + pat@.len()));
                }
                assert(rest.skip(1) =~= s@.skip(i + 1));
            }
            out.push(s[i]);
            i = i + 1;
        }
    }
    proof {
        assert(s@.skip(n as int) =~= Seq::<char>::empty());
        assert(out@ + Seq::<char>::empty() =~= out@);
    }
    out
}

/// Replaces every occurrence of `pat` in `s` by `rep`, left to right.
pub fn replace_str(s: &[char], pat: &str, rep: &str) -> (r: Vec<char>)
    requires
        pat@.len() > 0,
    ensures
        r@ == replace_all(s@, pat@, rep@),
{
    let p = chars_of(pat);
    let q = chars_of(rep);
    replace_chars(s, p.as_slice(), q.as_slice())
}

// ---------------------------------------------------------------------------
// Whitespace
// ---------------------------------------------------------------------------

/// The Unicode `White_Space` property (what `char::is_whitespace` tests).
pub open spec fn is_white_space(c: char) -> bool {
    let u = c as u32;
    (0x9 <= u && u <= 0xd) || u == 0x20 || u == 0x85 || u == 0xa0 || u == 0x1680 || (0x2000 <= u
        && u <= 0x200a) || u == 0x2028 || u == 0x2029 || u == 0x202f || u == 0x205f || u == 0x3000
}

pub fn is_white_space_char(c: char) -> (r: bool)
    ensures
        r == is_white_space(c),
{
    let u = c as u32;
    (0x9 <= u && u <= 0xd) || u == 0x20 || u == 0x85 || u == 0xa0 || u == 0x1680 || (0x2000 <= u
        && u <= 0x200a) || u == 0x2028 || u == 0x2029 || u == 0x202f || u == 0x205f || u == 0x3000
}

/// Number of leading white-space characters of `s`.
pub open spec fn lead_ws(s: Seq<char>) -> nat
    decreases s.len(),
{
    if s.len() > 0 && is_white_space(s[0]) {
        1 + lead_ws(s.skip(1))
    } else {
        0
    }
}

/// Number of trailing white-space characters of `s`.
pub open spec fn trail_ws(s: Seq<char>) -> nat
    decreases s.len(),
{
    if s.len() > 0 && is_white_space(s.last()) {
        1 + trail_ws(s.drop_last())
    } else {
        0
    }
}

/// `s` without leading and trailing white space (std's `str::trim`).
pub open spec fn trim(s: Seq<char>) -> Seq<char> {
    let a = lead_ws(s) as int;
    let rest = s.skip(a);
    rest.take(rest.len() - trail_ws(rest))
}

proof fn lemma_lead_ws_bound(s: Seq<char>)
    ensures
        lead_ws(s) <= s.len(),
        forall|j: int| 0 <= j < lead_ws(s) ==> is_white_space(s[j]),
        lead_ws(s) < s.len() ==> !is_white_space(s[lead_ws(s) as int]),
    decreases s.len(),
{
    if s.len() > 0 && is_white_space(s[0]) {
        lemma_lead_ws_bound(s.skip(1));
        assert forall|j: int| 0 <= j < lead_ws(s) implies is_white_space(s[j]) by {
            if j > 0 {
                assert(s.skip(1)[j - 1] == s[j]);
            }
        }
    }
}

proof fn lemma_trail_ws_bound(s: Seq<char>)
    ensures
        trail_ws(s) <= s.len(),
        forall|j: int| s.len() - trail_ws(s) <= j < s.len() ==> is_white_space(s[j]),
        trail_ws(s) < s.len() ==> !is_white_space(s[s.len() - trail_ws(s) - 1]),
    decreases s.len(),
{
    if s.len() > 0 && is_white_space(s.last()) {
        let t = s.drop_last();
        lemma_trail_ws_bound(t);
        assert forall|j: int| s.len() - trail_ws(s) <= j < s.len() implies is_white_space(s[j]) by {
            if j < s.len() - 1 {
                assert(t[j] == s[j]);
            }
        }
        if trail_ws(s) < s.len() {
            assert(t[t.len() - trail_ws(t) - 1] == s[s.len() - trail_ws(s) - 1]);
        }
    }
}

proof fn lemma_lead_ws_char(s: Seq<char>, i: int)
    requires
        0 <= i <= s.len(),
        forall|j: int| 0 <= j < i ==> is_white_space(s[j]),
        i < s.len() ==> !is_white_space(s[i]),
    ensures
        lead_ws(s) == i,
    decreases s.len(),
{
    if i > 0 {
        lemma_lead_ws_char(s.skip(1), i - 1);
    }
}

proof fn lemma_trail_ws_char(s: Seq<char>, i: int)
    requires
        0 <= i <= s.len(),
        forall|j: int| s.len() - i <= j < s.len() ==> is_white_space(s[j]),
        i < s.len() ==> !is_white_space(s[s.len() - i - 1]),
    ensures
        trail_ws(s) == i,
    decreases s.len(),
{
    if i > 0 {
        assert(is_white_space(s.last()));
        let t = s.drop_last();
        assert forall|j: int| t.len() - (i - 1) <= j < t.len() implies is_white_space(t[j]) by {
            assert(t[j] == s[j]);
        }
        if i - 1 < t.len() {
            assert(t[t.len() - (i - 1) - 1] == s[s.len() - i - 1]);
        }
        lemma_trail_ws_char(t, i - 1);
    }
}

/// `s` without leading and trailing white space.
pub fn trim_chars(s: &[char]) -> (r: Vec<char>)
    ensures
        r@ == trim(s@),
{
    let n = s.len();
    let mut a: usize = 0;
    while a < n && is_white_space_char(s[a])
        invariant
            n == s@.len(),
            a <= n,
            forall|j: int| 0 <= j < a ==> is_white_space(s@[j]),
        decreases n - a,
    {
        a = a + 1;
    }
    proof {
        lemma_lead_ws_char(s@, a as int);
    }
    let mut b: usize = n;
    while b > a && is_white_space_char(s[b - 1])
        invariant
            n == s@.len(),
            a <= b <= n,
            forall|j: int| b <= j < n ==> is_white_space(s@[j]),
        decreases b,
    {
        b = b - 1;
    }
    let ghost rest = s@.skip(a as int);
    proof {
        assert forall|j: int| rest.len() - (n - b) <= j < rest.len() implies is_white_space(
            rest[j],
        ) by {
            assert(rest[j] == s@[a + j]);
        }
        if n - b < rest.len() {
            assert(rest[rest.len() - (n - b) - 1] == s@[b - 1]);
        }
        lemma_trail_ws_char(rest, (n - b) as int);
    }
    let mut r: Vec<char> = Vec::new();
    let mut k = a;
    while k < b
        invariant
            n == s@.len(),
            a <= k <= b <= n,
            r@ == s@.subrange(a as int, k as int),
        decreases b - k,
    {
        r.push(s[k]);
        k = k + 1;
        assert(r@ =~= s@.subrange(a as int, k as int));
    }
    assert(rest.take(rest.len() - (n - b)) =~= s@.subrange(a as int, b as int));
    r
}

// ---------------------------------------------------------------------------
// Parsing scalars
// ---------------------------------------------------------------------------

/// What std's `bool::from_str` accepts: exactly `true` or `false`.
pub open spec fn parse_bool_spec(s: Seq<char>) -> Option<bool> {
    if s == seq!['t', 'r', 'u', 'e'] {
        Some(true)
    } else if s == seq!['f', 'a', 'l', 's', 'e'] {
        Some(false)
    } else {
        None
    }
}

/// Parses `true` / `false` (std's `str::parse::<bool>().ok()`).
pub fn parse_bool(s: &[char]) -> (r: Option<bool>)
    ensures
        r == parse_bool_spec(s@),
{
    let t: [char; 4] = ['t', 'r', 'u', 'e'];
    let f: [char; 5] = ['f', 'a', 'l', 's', 'e'];
    if chars_eq(s, &t) {
        assert(t@ =~= seq!['t', 'r', 'u', 'e']);
        Some(true)
    } else if chars_eq(s, &f) {
        assert(t@ =~= seq!['t', 'r', 'u', 'e']);
        assert(f@ =~= seq!['f', 'a', 'l', 's', 'e']);
        Some(false)
    } else {
        assert(t@ =~= seq!['t', 'r', 'u', 'e']);
        assert(f@ =~= seq!['f', 'a', 'l', 's', 'e']);
        None
    }
}

pub open spec fn digit_value(c: char) -> int {
    (c as u32) - ('0' as u32)
}

/// The number spelled by a sequence of decimal digits.
pub open spec fn digits_value(s: Seq<char>) -> int
    decreases s.len(),
{
    if s.len() == 0 {
        0
    } else {
        digits_value(s.drop_last()) * 10 + digit_value(s.last())
    }
}

pub open spec fn all_digits(s: Seq<char>) -> bool {
    forall|i: int| 0 <= i < s.len() ==> is_ascii_digit(#[trigger] s[i])
}

/// The integer written in `s` in the form std's integer `from_str` accepts:
/// an optional `+` or `-` sign followed by at least one decimal digit.
pub open spec fn integer_text_value(s: Seq<char>) -> Option<int> {
    if s.len() > 0 && (s[0] == '+' || s[0] == '-') {
        let d = s.skip(1);
        if d.len() > 0 && all_digits(d) {
            if s[0] == '-' {
                Some(-digits_value(d))
            } else {
                Some(digits_value(d))
            }
        } else {
            None
        }
    } else if s.len() > 0 && all_digits(s) {
        Some(digits_value(s))
    } else {
        None
    }
}

/// What std's `str::parse::<i64>().ok()` gives.
pub open spec fn parse_i64_spec(s: Seq<char>) -> Option<i64> {
    match integer_text_value(s) {
        Some(v) => if i64::MIN <= v <= i64::MAX {
            Some(v as i64)
        } else {
            None
        },
        None => None,
    }
}

proof fn lemma_digits_value_nonneg(s: Seq<char>)
    requires
        all_digits(s),
    ensures
        digits_value(s) >= 0,
    decreases s.len(),
{
    if s.len() > 0 {
        lemma_digits_value_nonneg(s.drop_last());
    }
}

/// How a sign prefix splits `s` into the digits that follow it.
proof fn lemma_integer_text_split(s: Seq<char>, start: int)
    requires
        s.len() > 0,
        start == (if s[0] == '+' || s[0] == '-' { 1int } else { 0int }),
    ensures
        integer_text_value(s) == (if s.skip(start).len() > 0 && all_digits(s.skip(start)) {
            if s[0] == '-' {
                Some(-digits_value(s.skip(start)))
            } else {
                Some(digits_value(s.skip(start)))
            }
        } else {
            None::<int>
        }),
{
    if start == 0 {
        assert(s.skip(0) =~= s);
    }
}

/// Parses a decimal `i64` (std's `str::parse::<i64>().ok()`).
pub fn parse_i64(s: &[char]) -> (r: Option<i64>)
    ensures
        r == parse_i64_spec(s@),
{
    let n = s.len();
    if n == 0 {
        return None;
    }
    let neg = s[0] == '-';
    let start: usize = if s[0] == '+' || s[0] == '-' {
        1
    } else {
        0
    };
    let ghost d = s@.skip(start as int);
    proof {
        lemma_integer_text_split(s@, start as int);
    }
    if start == n {
        return None;
    }
    // The magnitude is accumulated in i128 so that i64::MIN's magnitude fits.
    let mut acc: i128 = 0;
    let mut i = start;
    assert(s@.subrange(start as int, start as int) =~= Seq::<char>::empty());
    while i < n
        invariant
            n == s@.len(),
            start <= i <= n,
            d == s@.skip(start as int),
            start == (if s@[0] == '+' || s@[0] == '-' { 1int } else { 0int }),
            all_digits(s@.subrange(start as int, i as int)),
            acc == digits_value(s@.subrange(start as int, i as int)),
            0 <= acc <= i64::MAX + 1,
        decreases n - i,
    {
        let c = s[i];
        if !('0' <= c && c <= '9') {
            proof {
                assert(d[i - start] == c);
                lemma_integer_text_split(s@, start as int);
            }
            return None;
        }
        let v = (c as u32 - '0' as u32) as i128;
        let next = acc * 10 + v;
        let ghost t = s@.subrange(start as int, i + 1);
        proof {
            assert(t.drop_last() =~= s@.subrange(start as int, i as int));
            assert(t.last() == c);
            assert forall|j: int| 0 <= j < t.len() implies is_ascii_digit(#[trigger] t[j]) by {
                if j < t.len() - 1 {
                    assert(t[j] == s@.subrange(start as int, i as int)[j]);
                }
            }
        }
        if next > i64::MAX as i128 + 1 {
            proof {
                assert(d.take(i + 1 - start) =~= t);
                lemma_digits_prefix_grows(d, (i + 1 - start) as int);
                lemma_integer_text_split(s@, start as int);
            }
            return None;
        }
        acc = next;
        i = i + 1;
    }
    assert(s@.subrange(start as int, n as int) =~= d);
    if neg {
        let v = 0i128 - acc;
        Some(v as i64)
    } else {
        if acc > i64::MAX as i128 {
            return None;
        }
        Some(acc as i64)
    }
}

/// Extending a digit string never makes its value smaller.
proof fn lemma_digits_prefix_grows(d: Seq<char>, k: int)
    requires
        0 <= k <= d.len(),
        all_digits(d.take(k)),
    ensures
        all_digits(d) ==> digits_value(d) >= digits_value(d.take(k)),
    decreases d.len() - k,
{
    if all_digits(d) && k < d.len() {
        lemma_digits_prefix_grows(d, k + 1);
        let t = d.take(k + 1);
        assert(t.drop_last() =~= d.take(k));
        lemma_digits_value_nonneg(d.take(k));
    }
    if k == d.len() {
        assert(d.take(k) =~= d);
    }
}

// ---------------------------------------------------------------------------
// Printing integers
// ---------------------------------------------------------------------------

/// The decimal digits of `n` (no sign, no leading zeros; `0` for zero).
pub open spec fn decimal(n: nat) -> Seq<char>
    decreases n,
{
    if n < 10 {
        seq![(('0' as u32) + n) as char]
    } else {
        decimal(n / 10) + seq![(('0' as u32) + (n % 10)) as char]
    }
}

/// `n` in decimal, as std's `Display` for unsigned integers prints it.
pub fn u64_decimal(n: u64) -> (r: Vec<char>)
    ensures
        r@ == decimal(n as nat),
    decreases n,
{
    if n < 10 {
        let c = char_from_ascii(('0' as u32) + n as u32);
        let mut v = Vec::new();
        v.push(c);
        assert(v@ =~= decimal(n as nat));
        v
    } else {
        let mut v = u64_decimal(n / 10);
        let c = char_from_ascii(('0' as u32) + (n % 10) as u32);
        v.push(c);
        v
    }
}

} // verus!

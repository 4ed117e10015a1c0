//! Character-level text primitives shared by the rest of the library:
//! ASCII case folding, substring and prefix tests, decimal rendering,
//! and the few `str` operations of std that the library calls.

use vstd::prelude::*;
use vstd::string::*;

verus! {

// ───────────────────────────── specifications ─────────────────────────────

/// The code point of `c` after ASCII lowercasing: `'A'..='Z'` move up by 32,
/// every other char keeps its code.
pub open spec fn lower_code(c: char) -> int {
    if 65 <= (c as int) && (c as int) <= 90 {
        c as int + 32
    } else {
        c as int
    }
}

/// `a` and `b` are equal up to ASCII case, as `str::eq_ignore_ascii_case` decides.
pub open spec fn eq_ascii_ci(a: Seq<char>, b: Seq<char>) -> bool {
    &&& a.len() == b.len()
    &&& forall|i: int| 0 <= i < a.len() ==> #[trigger] lower_code(a[i]) == lower_code(b[i])
}

/// `needle` occurs in `hay` starting at index `i`.
pub open spec fn occurs_at(hay: Seq<char>, needle: Seq<char>, i: int) -> bool {
    &&& 0 <= i
    &&& i + needle.len() <= hay.len()
    &&& hay.subrange(i, i + needle.len()) == needle
}

/// `needle` is a contiguous part of `hay` (what `str::contains` answers).
pub open spec fn has_substring(hay: Seq<char>, needle: Seq<char>) -> bool {
    exists|i: int| occurs_at(hay, needle, i)
}

/// `p` is a prefix of `s` (what `str::starts_with` answers).
pub open spec fn has_prefix(s: Seq<char>, p: Seq<char>) -> bool {
    p.len() <= s.len() && s.subrange(0, p.len() as int) == p
}

/// The ASCII digit for `d` in `0..10`.
pub open spec fn digit_char(d: int) -> char {
    if d == 0 {
        '0'
    } else if d == 1 {
        '1'
    } else if d == 2 {
        '2'
    } else if d == 3 {
        '3'
    } else if d == 4 {
        '4'
    } else if d == 5 {
        '5'
    } else if d == 6 {
        '6'
    } else if d == 7 {
        '7'
    } else if d == 8 {
        '8'
    } else {
        '9'
    }
}

/// The decimal rendering of `n`, without leading zeros (`"0"` for zero).
pub open spec fn decimal(n: nat) -> Seq<char>
    decreases n,
{
    if n < 10 {
        seq![digit_char(n as int)]
    } else {
        decimal(n / 10).push(digit_char((n % 10) as int))
    }
}

/// The decimal rendering of `n` padded with one leading zero to width two,
/// as `{:02}` renders it.
pub open spec fn decimal_pad2(n: nat) -> Seq<char> {
    if n < 10 {
        seq!['0'] + decimal(n)
    } else {
        decimal(n)
    }
}

/// `c` is one of the ASCII digits `'0'..='9'`.
pub open spec fn is_ascii_digit(c: char) -> bool {
    '0' <= c && c <= '9'
}

// ─────────────────────────── names of std results ───────────────────────────

/// Whether `c` is white space (`char::is_whitespace`): the chars with the
/// Unicode `White_Space` property.
pub open spec fn is_white_space(c: char) -> bool {
    ('\t' <= c && c <= '\r') || c == ' ' || c == '\u{85}' || c == '\u{a0}' || c == '\u{1680}' || ('\u{2000}'
        <= c && c <= '\u{200a}') || c == '\u{2028}' || c == '\u{2029}' || c == '\u{202f}' || c == '\u{205f}'
        || c == '\u{3000}'
}

/// The chars without leading white space (`str::trim_start`).
pub open spec fn trimmed_start(s: Seq<char>) -> Seq<char>
    decreases s.len(),
{
    if s.len() > 0 && is_white_space(s[0]) {
        trimmed_start(s.drop_first())
    } else {
        s
    }
}

/// The chars without trailing white space (`str::trim_end`).
pub open spec fn trimmed_end(s: Seq<char>) -> Seq<char>
    decreases s.len(),
{
    if s.len() > 0 && is_white_space(s.last()) {
        trimmed_end(s.drop_last())
    } else {
        s
    }
}

/// The chars without leading and trailing white space (`str::trim`).
pub open spec fn trimmed(s: Seq<char>) -> Seq<char> {
    trimmed_end(trimmed_start(s))
}

/// What `str::to_lowercase` returns for a string with these chars.
pub uninterp spec fn lowercased(s: Seq<char>) -> Seq<char>;

/// What `str::to_uppercase` returns for a string with these chars.
pub uninterp spec fn uppercased(s: Seq<char>) -> Seq<char>;

/// Whether `char::is_numeric` holds of `c`.
pub uninterp spec fn numeric_char(c: char) -> bool;

// ───────────────────────────── trusted wrappers ─────────────────────────────

/// Calls `str::to_lowercase`: the Unicode lowercase mapping of the input;
/// the contract only names it.
#[verifier::external_body]
pub(crate) fn to_lowercase_str(s: &str) -> (r: String)
    ensures
        r@ == lowercased(s@),
{
    s.to_lowercase()
}

/// Calls `str::to_uppercase`: the Unicode uppercase mapping of the input;
/// the contract only names it.
#[verifier::external_body]
pub(crate) fn to_uppercase_str(s: &str) -> (r: String)
    ensures
        r@ == uppercased(s@),
{
    s.to_uppercase()
}

/// Calls `char::is_numeric`; the contract only names its answer.
#[verifier::external_body]
pub(crate) fn char_is_numeric(c: char) -> (b: bool)
    ensures
        b == numeric_char(c),
{
    c.is_numeric()
}

/// Calls `String::push`, which appends one char at the end.
#[verifier::external_body]
pub(crate) fn push_char(s: &mut String, c: char)
    ensures
        final(s)@ == old(s)@.push(c),
{
    s.push(c)
}

// ───────────────────────────── verified helpers ─────────────────────────────

/// A fresh `String` holding the chars of `s`.
pub fn string_of(s: &str) -> (r: String)
    ensures
        r@ == s@,
{
    String::from_str(s)
}

/// The chars of `s`, in order.
pub fn chars_of(s: &str) -> (v: Vec<char>)
    ensures
        v@ == s@,
{
    let n = s.unicode_len();
    let mut v: Vec<char> = Vec::new();
    let mut i: usize = 0;
    while i < n
        invariant
            n == s@.len(),
            i <= n,
            v@ == s@.subrange(0, i as int),
        decreases n - i,
    {
        let c = s.get_char(i);
        v.push(c);
        i = i + 1;
        assert(v@ =~= s@.subrange(0, i as int));
    }
    assert(v@ =~= s@);
    v
}

/// The code of `c` after ASCII lowercasing.
pub fn lower_code_of(c: char) -> (r: u32)
    ensures
        r as int == lower_code(c),
{
    let x = c as u32;
    if 65 <= x && x <= 90 {
        x + 32
    } else {
        x
    }
}

/// Whether two char sequences are equal up to ASCII case.
pub fn chars_eq_ascii_ci(a: &Vec<char>, b: &Vec<char>) -> (r: bool)
    ensures
        r == eq_ascii_ci(a@, b@),
{
    if a.len() != b.len() {
        return false;
    }
    let n = a.len();
    let mut i: usize = 0;
    while i < n
        invariant
            n == a@.len(),
            n == b@.len(),
            i <= n,
            forall|k: int| 0 <= k < i ==> #[trigger] lower_code(a@[k]) == lower_code(b@[k]),
        decreases n - i,
    {
        if lower_code_of(a[i]) != lower_code_of(b[i]) {
            return false;
        }
        i = i + 1;
    }
    true
}

/// Whether two strings are equal up to ASCII case (`str::eq_ignore_ascii_case`).
pub fn str_eq_ascii_ci(a: &str, b: &str) -> (r: bool)
    ensures
        r == eq_ascii_ci(a@, b@),
{
    let va = chars_of(a);
    let vb = chars_of(b);
    chars_eq_ascii_ci(&va, &vb)
}

/// Whether `needle` occurs in `hay` at index `i`.
pub fn chars_occur_at(hay: &Vec<char>, needle: &Vec<char>, i: usize) -> (r: bool)
    requires
        i + needle@.len() <= hay@.len(),
    ensures
        r == occurs_at(hay@, needle@, i as int),
{
    let m = needle.len();
    let mut j: usize = 0;
    while j < m
        invariant
            m == needle@.len(),
            i + m <= hay.len(),
            j <= m,
            forall|k: int| 0 <= k < j ==> hay@[i + k] == needle@[k],
        decreases m - j,
    {
        if hay[i + j] != needle[j] {
            assert(hay@.subrange(i as int, i + m)[j as int] != needle@[j as int]);
            return false;
        }
        j = j + 1;
    }
    assert(hay@.subrange(i as int, i + m) =~= needle@);
    true
}

/// Whether `needle` occurs as a contiguous part of `hay`.
pub fn chars_contain(hay: &Vec<char>, needle: &Vec<char>) -> (r: bool)
    ensures
        r == has_substring(hay@, needle@),
{
    if needle.len() > hay.len() {
        assert(forall|i: int| !occurs_at(hay@, needle@, i));
        return false;
    }
    let last = hay.len() - needle.len();
    let mut i: usize = 0;
    while i <= last
        invariant
            last + needle@.len() == hay@.len(),
            forall|k: int| 0 <= k < i ==> !occurs_at(hay@, needle@, k),
        decreases last + 1 - i,
    {
        if chars_occur_at(hay, needle, i) {
            return true;
        }
        if i == last {
            assert(forall|k: int| !occurs_at(hay@, needle@, k));
            return false;
        }
        i = i + 1;
    }
    assert(forall|k: int| !occurs_at(hay@, needle@, k));
    false
}

/// Whether `needle` occurs in the chars `hay` (`str::contains` on the string they came from).
pub fn chars_contain_str(hay: &Vec<char>, needle: &str) -> (r: bool)
    ensures
        r == has_substring(hay@, needle@),
{
    let n = chars_of(needle);
    chars_contain(hay, &n)
}

/// Whether `needle` occurs in `hay` (`str::contains`).
pub fn str_contains(hay: &str, needle: &str) -> (r: bool)
    ensures
        r == has_substring(hay@, needle@),
{
    let h = chars_of(hay);
    chars_contain_str(&h, needle)
}

/// Whether `s` starts with `p` (`str::starts_with`).
pub fn str_starts_with(s: &str, p: &str) -> (r: bool)
    ensures
        r == has_prefix(s@, p@),
{
    let vs = chars_of(s);
    let vp = chars_of(p);
    if vp.len() > vs.len() {
        return false;
    }
    let r = chars_occur_at(&vs, &vp, 0);
    r
}

/// Whether two strings hold the same chars.
pub fn str_equal(a: &str, b: &str) -> (r: bool)
    ensures
        r == (a@ == b@),
{
    let va = chars_of(a);
    let vb = chars_of(b);
    if va.len() != vb.len() {
        return false;
    }
    let r = chars_occur_at(&va, &vb, 0);
    assert(va@ =~= va@.subrange(0, vb@.len() as int));
    r
}

/// A string holding `v[from..to]`.
pub fn string_of_range(v: &Vec<char>, from: usize, to: usize) -> (r: String)
    requires
        from <= to <= v@.len(),
    ensures
        r@ == v@.subrange(from as int, to as int),
{
    let mut r = String::new();
    let mut i = from;
    while i < to
        invariant
            from <= i <= to,
            to <= v@.len(),
            r@ == v@.subrange(from as int, i as int),
        decreases to - i,
    {
        push_char(&mut r, v[i]);
        i = i + 1;
        assert(r@ =~= v@.subrange(from as int, i as int));
    }
    r
}

/// The ASCII digit for `d`.
pub fn digit_of(d: u64) -> (c: char)
    requires
        d < 10,
    ensures
        c == digit_char(d as int),
{
    match d {
        0 => '0',
        1 => '1',
        2 => '2',
        3 => '3',
        4 => '4',
        5 => '5',
        6 => '6',
        7 => '7',
        8 => '8',
        _ => '9',
    }
}

/// Appends the decimal rendering of `n` to `s`.
pub fn push_decimal(s: &mut String, n: u64)
    ensures
        final(s)@ == old(s)@ + decimal(n as nat),
    decreases n,
{
    if n >= 10 {
        push_decimal(s, n / 10);
        push_char(s, digit_of(n % 10));
        assert(final(s)@ =~= old(s)@ + decimal(n as nat));
    } else {
        push_char(s, digit_of(n));
        assert(final(s)@ =~= old(s)@ + decimal(n as nat));
    }
}

/// Appends the decimal rendering of `n`, padded to two digits, to `s`.
pub fn push_decimal_pad2(s: &mut String, n: u64)
    ensures
        final(s)@ == old(s)@ + decimal_pad2(n as nat),
{
    if n < 10 {
        push_char(s, '0');
    }
    push_decimal(s, n);
    assert(final(s)@ =~= old(s)@ + decimal_pad2(n as nat));
}

/// Whether `c` is an ASCII digit (`char::is_ascii_digit`).
pub fn char_is_ascii_digit(c: char) -> (b: bool)
    ensures
        b == is_ascii_digit(c),
{
    '0' <= c && c <= '9'
}

// ───────────────────────────── trimming ─────────────────────────────

/// Whether `c` is white space.
pub fn char_is_white_space(c: char) -> (b: bool)
    ensures
        b == is_white_space(c),
{
    ('\t' <= c && c <= '\r') || c == ' ' || c == '\u{85}' || c == '\u{a0}' || c == '\u{1680}' || ('\u{2000}'
        <= c && c <= '\u{200a}') || c == '\u{2028}' || c == '\u{2029}' || c == '\u{202f}' || c == '\u{205f}'
        || c == '\u{3000}'
}

/// The number of leading white-space chars of `v`.
fn leading_white_space(v: &Vec<char>) -> (i: usize)
    ensures
        i <= v@.len(),
        trimmed_start(v@) == v@.skip(i as int),
        forall|k: int| 0 <= k < i ==> is_white_space(#[trigger] v@[k]),
{
    let n = v.len();
    let mut i: usize = 0;
    assert(v@.skip(0) =~= v@);
    while i < n && char_is_white_space(v[i])
        invariant
            n == v@.len(),
            i <= n,
            trimmed_start(v@) == trimmed_start(v@.skip(i as int)),
            forall|k: int| 0 <= k < i ==> is_white_space(#[trigger] v@[k]),
        decreases n - i,
    {
        assert(v@.skip(i as int).drop_first() =~= v@.skip(i + 1));
        i = i + 1;
    }
    i
}

/// `str::trim_start`: `s` without its leading white space.
pub fn trim_start_str(s: &str) -> (r: &str)
    ensures
        r@ == trimmed_start(s@),
{
    let v = chars_of(s);
    let i = leading_white_space(&v);
    let r = s.substring_char(i, v.len());
    assert(r@ =~= v@.skip(i as int));
    r
}

/// `str::trim`: `s` without its leading and trailing white space.
pub fn trim_str(s: &str) -> (r: &str)
    ensures
        r@ == trimmed(s@),
{
    let v = chars_of(s);
    let i = leading_white_space(&v);
    let n = v.len();
    let ghost mid = v@.skip(i as int);
    let mut j: usize = n;
    assert(mid =~= v@.subrange(i as int, n as int));
    while j > i && char_is_white_space(v[j - 1])
        invariant
            n == v@.len(),
            i <= j <= n,
            mid == v@.subrange(i as int, n as int),
            trimmed_end(mid) == trimmed_end(v@.subrange(i as int, j as int)),
        decreases j,
    {
        assert(v@.subrange(i as int, j as int).drop_last() =~= v@.subrange(i as int, j - 1));
        j = j - 1;
    }
    let r = s.substring_char(i, j);
    assert(r@ =~= v@.subrange(i as int, j as int));
    r
}

} // verus!

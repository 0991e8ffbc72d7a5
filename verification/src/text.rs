//! Character-level text utilities: trimming, newline collapsing, substring
//! search, decimal parsing and formatting. All of it works on `Vec<char>`
//! buffers so that every step is verified.

use vstd::prelude::*;

use crate::sys::push_char;

verus! {

/// Copies the characters of a string into a vector.
pub fn str_chars(s: &str) -> (r: Vec<char>)
    ensures
        r@ == s@,
{
    let mut r: Vec<char> = Vec::new();
    for c in it: s.chars()
        invariant
            it.seq() == s@,
            r@ == it.seq().take(it.index() as int),
    {
        r.push(c);
    }
    proof {
        assert(s@.take(s@.len() as int) == s@);
    }
    r
}

/// Builds a string out of a character buffer.
pub fn chars_string(v: &Vec<char>) -> (r: String)
    ensures
        r@ == v@,
{
    let mut r = String::new();
    let mut i: usize = 0;
    while i < v.len()
        invariant
            i <= v@.len(),
            r@ == v@.take(i as int),
        decreases v@.len() - i,
    {
        push_char(&mut r, v[i]);
        i = i + 1;
        proof {
            assert(r@ =~= v@.take(i as int));
        }
    }
    proof {
        assert(v@.take(v@.len() as int) == v@);
    }
    r
}

/// The whitespace characters that trimming strips.
pub open spec fn is_space(c: char) -> bool {
    c == ' ' || c == '\t' || c == '\n' || c == '\r'
}

/// An ASCII decimal digit.
pub open spec fn is_digit(c: char) -> bool {
    48 <= c as u32 <= 57
}

/// Numeric value of a digit character.
pub open spec fn digit_val(c: char) -> int {
    c as u32 - 48
}

/// A sequence with its leading whitespace stripped.
pub open spec fn spec_trim_front(s: Seq<char>) -> Seq<char>
    decreases s.len(),
{
    if s.len() > 0 && is_space(s[0]) {
        spec_trim_front(s.drop_first())
    } else {
        s
    }
}

/// A sequence with its trailing whitespace stripped.
pub open spec fn spec_trim_back(s: Seq<char>) -> Seq<char>
    decreases s.len(),
{
    if s.len() > 0 && is_space(s.last()) {
        spec_trim_back(s.drop_last())
    } else {
        s
    }
}

/// A sequence with whitespace stripped from both ends.
pub open spec fn spec_trim(s: Seq<char>) -> Seq<char> {
    spec_trim_back(spec_trim_front(s))
}

proof fn lemma_trim_front_skip(s: Seq<char>, k: int)
    requires
        0 <= k <= s.len(),
        forall|j: int| 0 <= j < k ==> is_space(s[j]),
    ensures
        spec_trim_front(s) == spec_trim_front(s.skip(k)),
    decreases k,
{
    if k > 0 {
        assert(s.drop_first() == s.skip(1));
        assert(s.skip(1).skip(k - 1) == s.skip(k));
        lemma_trim_front_skip(s.skip(1), k - 1);
    } else {
        assert(s.skip(0) == s);
    }
}

proof fn lemma_trim_back_take(s: Seq<char>, k: int)
    requires
        0 <= k <= s.len(),
        forall|j: int| k <= j < s.len() ==> is_space(s[j]),
    ensures
        spec_trim_back(s) == spec_trim_back(s.take(k)),
    decreases s.len() - k,
{
    if k < s.len() {
        assert(s.drop_last() == s.take(s.len() - 1));
        assert(s.take(s.len() - 1).take(k) == s.take(k));
        lemma_trim_back_take(s.take(s.len() - 1), k);
    } else {
        assert(s.take(s.len() as int) == s);
    }
}

/// Strips leading and trailing whitespace from a character buffer.
pub fn trim_chars(v: &Vec<char>) -> (r: Vec<char>)
    ensures
        r@ == spec_trim(v@),
{
    let n = v.len();
    let mut lo: usize = 0;
    while lo < n && is_space_char(v[lo])
        invariant
            n == v@.len(),
            lo <= n,
            forall|j: int| 0 <= j < lo ==> is_space(v@[j]),
        decreases n - lo,
    {
        lo = lo + 1;
    }
    let mut hi: usize = n;
    while hi > lo && is_space_char(v[hi - 1])
        invariant
            n == v@.len(),
            lo <= hi <= n,
            forall|j: int| hi <= j < n ==> is_space(v@[j]),
        decreases hi,
    {
        hi = hi - 1;
    }
    let mut r: Vec<char> = Vec::new();
    let mut i: usize = lo;
    while i < hi
        invariant
            n == v@.len(),
            lo <= i <= hi <= n,
            r@ == v@.subrange(lo as int, i as int),
        decreases hi - i,
    {
        r.push(v[i]);
        i = i + 1;
        assert(r@ == v@.subrange(lo as int, i as int));
    }
    proof {
        lemma_trim_front_skip(v@, lo as int);
        assert(spec_trim_front(v@.skip(lo as int)) == v@.skip(lo as int));
        lemma_trim_back_take(v@.skip(lo as int), hi - lo);
        assert(v@.skip(lo as int).take(hi - lo) == v@.subrange(lo as int, hi as int));
        assert(spec_trim_back(v@.subrange(lo as int, hi as int)) == v@.subrange(
            lo as int,
            hi as int,
        ));
        assert(r@ == v@.subrange(lo as int, hi as int));
    }
    r
}

/// Runtime check matching `is_space`.
pub fn is_space_char(c: char) -> (r: bool)
    ensures
        r == is_space(c),
{
    c == ' ' || c == '\t' || c == '\n' || c == '\r'
}

/// Runtime check matching `is_digit`.
pub fn is_digit_char(c: char) -> (r: bool)
    ensures
        r == is_digit(c),
{
    let u = c as u32;
    48 <= u && u <= 57
}

/// The buffer with every newline replaced by a space: how a multi-line
/// title is forced onto one line.
pub open spec fn spec_collapse_newlines(s: Seq<char>) -> Seq<char> {
    s.map(|i: int, c: char| if c == '\n' { ' ' } else { c })
}

/// Replaces every newline with a space.
pub fn collapse_newlines(v: &Vec<char>) -> (r: Vec<char>)
    ensures
        r@ == spec_collapse_newlines(v@),
{
    let mut r: Vec<char> = Vec::new();
    let mut i: usize = 0;
    while i < v.len()
        invariant
            i <= v@.len(),
            r@ == spec_collapse_newlines(v@.take(i as int)),
        decreases v@.len() - i,
    {
        let c = v[i];
        if c == '\n' {
            r.push(' ');
        } else {
            r.push(c);
        }
        i = i + 1;
        proof {
            assert(v@.take(i as int).drop_last() == v@.take(i - 1));
            assert(r@ =~= spec_collapse_newlines(v@.take(i as int)));
        }
    }
    proof {
        assert(v@.take(v@.len() as int) == v@);
    }
    r
}

/// `needle` occurs contiguously inside `hay`.
pub open spec fn spec_contains(hay: Seq<char>, needle: Seq<char>) -> bool {
    exists|i: int|
        0 <= i <= hay.len() - needle.len() && #[trigger] hay.subrange(i, i + needle.len())
            == needle
}

/// Substring search: does `needle` occur inside `hay`?
pub fn contains_chars(hay: &Vec<char>, needle: &Vec<char>) -> (r: bool)
    ensures
        r == spec_contains(hay@, needle@),
{
    let n = hay.len();
    let m = needle.len();
    if m > n {
        assert(!spec_contains(hay@, needle@));
        return false;
    }
    let mut i: usize = 0;
    while i <= n - m
        invariant
            n == hay@.len(),
            m == needle@.len(),
            m <= n,
            i <= n - m + 1,
            forall|j: int|
                0 <= j < i ==> #[trigger] hay@.subrange(j, j + needle@.len()) != needle@,
        decreases n - m + 1 - i,
    {
        let mut k: usize = 0;
        let mut all_eq = true;
        while k < m
            invariant
                n == hay@.len(),
                m == needle@.len(),
                m <= n,
                i <= n - m,
                k <= m,
                all_eq == (forall|j: int| 0 <= j < k ==> hay@[i + j] == needle@[j]),
            decreases m - k,
        {
            if hay[i + k] != needle[k] {
                all_eq = false;
                k = m;
            } else {
                k = k + 1;
            }
        }
        if all_eq {
            assert(hay@.subrange(i as int, i + needle@.len()) =~= needle@);
            return true;
        }
        assert(hay@.subrange(i as int, i + needle@.len()) != needle@);
        i = i + 1;
    }
    assert(!spec_contains(hay@, needle@));
    false
}

/// Value of a decimal digit string, most significant digit first.
pub open spec fn spec_digits_val(s: Seq<char>) -> int
    decreases s.len(),
{
    if s.len() == 0 {
        0
    } else {
        spec_digits_val(s.drop_last()) * 10 + digit_val(s.last())
    }
}

/// All characters are ASCII digits.
pub open spec fn all_digits(s: Seq<char>) -> bool {
    forall|i: int| 0 <= i < s.len() ==> is_digit(s[i])
}

/// What the experience field parses to: the decimal value of the buffer, or
/// the default reward of 10 when the buffer is empty, not all digits, or too
/// large for an `i32`.
pub open spec fn spec_parse_xp(s: Seq<char>) -> i32 {
    if s.len() > 0 && all_digits(s) && spec_digits_val(s) <= i32::MAX {
        spec_digits_val(s) as i32
    } else {
        10
    }
}

proof fn lemma_digits_val_bounds(s: Seq<char>)
    requires
        all_digits(s),
    ensures
        0 <= spec_digits_val(s),
        s.len() > 0 ==> spec_digits_val(s) >= digit_val(s.last()),
        spec_digits_val(s) >= spec_digits_val(s.take(s.len() - 1)) || s.len() == 0,
    decreases s.len(),
{
    if s.len() > 0 {
        assert(s.drop_last() == s.take(s.len() - 1));
        assert(all_digits(s.drop_last()));
        lemma_digits_val_bounds(s.drop_last());
    }
}

proof fn lemma_digits_val_prefix_monotone(s: Seq<char>, k: int)
    requires
        all_digits(s),
        0 <= k <= s.len(),
    ensures
        spec_digits_val(s.take(k)) <= spec_digits_val(s),
    decreases s.len() - k,
{
    if k < s.len() {
        lemma_digits_val_prefix_monotone(s, k + 1);
        let p = s.take(k + 1);
        assert(p.drop_last() == s.take(k));
        assert(all_digits(p)) by {
            assert(forall|i: int| 0 <= i < p.len() ==> p[i] == s[i]);
        }
        lemma_digits_val_bounds(s.take(k));
        assert(spec_digits_val(p) == spec_digits_val(s.take(k)) * 10 + digit_val(p.last()));
        assert(spec_digits_val(s.take(k)) * 10 >= spec_digits_val(s.take(k))) by {
            lemma_digits_val_bounds(s.take(k));
        }
    } else {
        assert(s.take(s.len() as int) == s);
    }
}

/// Parses the experience-reward buffer: the decimal value when the buffer is
/// a plain digit string that fits an `i32`, and 10 otherwise.
pub fn parse_xp(v: &Vec<char>) -> (r: i32)
    ensures
        r == spec_parse_xp(v@),
{
    let n = v.len();
    if n == 0 {
        return 10;
    }
    let mut i: usize = 0;
    while i < n
        invariant
            n == v@.len(),
            i <= n,
            forall|j: int| 0 <= j < i ==> is_digit(v@[j]),
        decreases n - i,
    {
        if !is_digit_char(v[i]) {
            assert(!all_digits(v@));
            return 10;
        }
        i = i + 1;
    }
    assert(all_digits(v@));
    let mut acc: u64 = 0;
    let mut k: usize = 0;
    while k < n
        invariant
            n == v@.len(),
            k <= n,
            all_digits(v@),
            acc == spec_digits_val(v@.take(k as int)),
            acc <= i32::MAX,
        decreases n - k,
    {
        let d = (v[k] as u32 - 48) as u64;
        proof {
            assert(v@.take(k + 1).drop_last() == v@.take(k as int));
            assert(v@.take(k + 1).last() == v@[k as int]);
        }
        acc = acc * 10 + d;
        k = k + 1;
        assert(acc == spec_digits_val(v@.take(k as int)));
        if acc > i32::MAX as u64 {
            proof {
                lemma_digits_val_prefix_monotone(v@, k as int);
                assert(spec_digits_val(v@) > i32::MAX);
            }
            return 10;
        }
    }
    proof {
        assert(v@.take(n as int) == v@);
    }
    acc as i32
}

/// The parsed experience reward is never negative.
pub proof fn lemma_parse_xp_nonneg(s: Seq<char>)
    ensures
        spec_parse_xp(s) >= 0,
{
    if s.len() > 0 && all_digits(s) && spec_digits_val(s) <= i32::MAX {
        lemma_digits_val_bounds(s);
    }
}

/// The decimal digit character for a value in 0..=9.
pub open spec fn digit_char(d: int) -> char {
    (48 + d) as u32 as char
}

/// Decimal digits of a non-negative number, most significant first, without
/// leading zeroes (a lone zero for 0).
pub open spec fn spec_decimal(n: int) -> Seq<char>
    decreases n,
{
    if n < 10 {
        seq![digit_char(n)]
    } else {
        spec_decimal(n / 10).push(digit_char(n % 10))
    }
}

/// Renders a non-negative number as its decimal digits.
pub fn decimal_chars(n: i32) -> (r: Vec<char>)
    requires
        n >= 0,
    ensures
        r@ == spec_decimal(n as int),
{
    let mut rev: Vec<char> = Vec::new();
    let mut m: i32 = n;
    proof {
        assert(spec_decimal(n as int) =~= spec_decimal(n as int) + rev@.reverse());
    }
    while m >= 10
        invariant
            0 <= m,
            spec_decimal(n as int) == spec_decimal(m as int) + rev@.reverse(),
        decreases m,
    {
        let d = m % 10;
        rev.push(digit_to_char(d));
        proof {
            let prev = rev@.drop_last();
            assert(spec_decimal(m as int) == spec_decimal(m as int / 10).push(
                digit_char(m as int % 10),
            ));
            assert(rev@.reverse() =~= seq![digit_char(m as int % 10)] + prev.reverse());
            assert(spec_decimal(m as int / 10) + rev@.reverse() =~= spec_decimal(m as int)
                + prev.reverse());
        }
        m = m / 10;
    }
    let mut r: Vec<char> = Vec::new();
    r.push(digit_to_char(m));
    let mut k: usize = rev.len();
    while k > 0
        invariant
            k <= rev@.len(),
            r@ == seq![digit_char(m as int)] + rev@.reverse().take(rev@.len() - k),
        decreases k,
    {
        k = k - 1;
        r.push(rev[k]);
        proof {
            assert(rev@.reverse()[rev@.len() - k - 1] == rev@[k as int]);
            assert(r@ =~= seq![digit_char(m as int)] + rev@.reverse().take(rev@.len() - k));
        }
    }
    proof {
        assert(rev@.reverse().take(rev@.len() as int) == rev@.reverse());
        assert(spec_decimal(m as int) == seq![digit_char(m as int)]);
        assert(r@ =~= spec_decimal(n as int));
    }
    r
}

/// The digit character for a value in 0..=9.
pub fn digit_to_char(d: i32) -> (r: char)
    requires
        0 <= d <= 9,
    ensures
        r == digit_char(d as int),
{
    match d {
        0 => '0',
        1 => '1',
        2 => '2',
        3 => '3',
        4 => '4',
        5 => '5',
        6 => '6',
        7 => '7',
        8 => '8',
        _ => '9',
    }
}

} // verus!

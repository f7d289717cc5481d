//! Verified helpers for the character-level work the value objects need:
//! trimming, prefix stripping, digit checks, and decimal rendering.
//!
//! Whitespace here means ASCII whitespace (space, tab, carriage return, line
//! feed); the public contracts of the crate are stated over that set.

use vstd::prelude::*;

verus! {

/// ASCII whitespace, the set the crate's trimming contracts use.
pub open spec fn is_space_char(c: char) -> bool {
    c == ' ' || c == '\t' || c == '\n' || c == '\r'
}

/// ASCII decimal digit.
pub open spec fn is_digit_char(c: char) -> bool {
    '0' <= c && c <= '9'
}

/// Every character of `s` is an ASCII decimal digit.
pub open spec fn all_digits(s: Seq<char>) -> bool {
    forall|i: int| 0 <= i < s.len() ==> is_digit_char(#[trigger] s[i])
}

/// How many characters at the front of `s` satisfy `p`.
pub open spec fn count_leading(s: Seq<char>, p: spec_fn(char) -> bool) -> int
    decreases s.len(),
{
    if s.len() > 0 && p(s[0]) {
        1 + count_leading(s.drop_first(), p)
    } else {
        0
    }
}

/// How many characters at the back of `s` satisfy `p`.
pub open spec fn count_trailing(s: Seq<char>, p: spec_fn(char) -> bool) -> int
    decreases s.len(),
{
    if s.len() > 0 && p(s.last()) {
        1 + count_trailing(s.drop_last(), p)
    } else {
        0
    }
}

/// The count at the front is the unique index with its characterization.
pub proof fn lemma_count_leading_unique(s: Seq<char>, p: spec_fn(char) -> bool, n: int)
    requires
        0 <= n <= s.len(),
        forall|i: int| 0 <= i < n ==> p(#[trigger] s[i]),
        n < s.len() ==> !p(s[n]),
    ensures
        n == count_leading(s, p),
    decreases s.len(),
{
    if s.len() > 0 && p(s[0]) {
        assert(n > 0);
        lemma_count_leading_unique(s.drop_first(), p, n - 1);
    } else {
        assert(n == 0);
    }
}

pub proof fn lemma_count_trailing_unique(s: Seq<char>, p: spec_fn(char) -> bool, n: int)
    requires
        0 <= n <= s.len(),
        forall|i: int| s.len() - n <= i < s.len() ==> p(#[trigger] s[i]),
        n < s.len() ==> !p(s[s.len() - n - 1]),
    ensures
        n == count_trailing(s, p),
    decreases s.len(),
{
    if s.len() > 0 && p(s.last()) {
        assert(n > 0);
        lemma_count_trailing_unique(s.drop_last(), p, n - 1);
    } else {
        assert(n == 0);
    }
}

/// `s` without its leading and trailing ASCII whitespace.
pub open spec fn trim_spec(s: Seq<char>) -> Seq<char> {
    let a = count_leading(s, |c: char| is_space_char(c));
    if a == s.len() {
        Seq::empty()
    } else {
        s.subrange(a, s.len() - count_trailing(s, |c: char| is_space_char(c)))
    }
}

/// `s` without every leading `'+'`.
pub open spec fn strip_plus_spec(s: Seq<char>) -> Seq<char> {
    s.subrange(count_leading(s, |c: char| c == '+'), s.len() as int)
}

/// Remove leading and trailing ASCII whitespace.
pub fn trim_str<'a>(s: &'a str) -> (r: &'a str)
    ensures
        r@ == trim_spec(s@),
{
    let ghost spacep = |c: char| is_space_char(c);
    let n = s.unicode_len();
    let mut a: usize = 0;
    loop
        invariant
            0 <= a <= n == s@.len(),
            forall|i: int| 0 <= i < a ==> is_space_char(#[trigger] s@[i]),
        ensures
            0 <= a <= n,
            forall|i: int| 0 <= i < a ==> is_space_char(#[trigger] s@[i]),
            a < n ==> !is_space_char(s@[a as int]),
        decreases n - a,
    {
        if a == n {
            break;
        }
        if !is_space(s.get_char(a)) {
            break;
        }
        a += 1;
    }
    proof {
        lemma_count_leading_unique(s@, spacep, a as int);
    }
    if a == n {
        let r = s.substring_char(0, 0);
        assert(r@ =~= trim_spec(s@));
        return r;
    }
    let mut b: usize = 0;
    loop
        invariant
            0 <= a < n == s@.len(),
            !is_space_char(s@[a as int]),
            0 <= b <= n - a - 1,
            forall|i: int| n - b <= i < n ==> is_space_char(#[trigger] s@[i]),
        ensures
            0 <= b <= n - a - 1,
            forall|i: int| n - b <= i < n ==> is_space_char(#[trigger] s@[i]),
            b < n - a - 1 ==> !is_space_char(s@[n - b - 1]),
        decreases n - a - b,
    {
        if b == n - a - 1 {
            break;
        }
        if !is_space(s.get_char(n - b - 1)) {
            break;
        }
        b += 1;
    }
    proof {
        if b == n - a - 1 {
            assert(s@[n - b - 1] == s@[a as int]);
        }
        lemma_count_trailing_unique(s@, spacep, b as int);
    }
    let r = s.substring_char(a, n - b);
    assert(r@ =~= trim_spec(s@));
    r
}

/// Whether `c` is ASCII whitespace.
pub fn is_space(c: char) -> (b: bool)
    ensures
        b == is_space_char(c),
{
    c == ' ' || c == '\t' || c == '\n' || c == '\r'
}

/// Whether `c` is an ASCII decimal digit.
pub fn is_digit(c: char) -> (b: bool)
    ensures
        b == is_digit_char(c),
{
    '0' <= c && c <= '9'
}

/// Remove every leading `'+'`.
pub fn strip_plus<'a>(s: &'a str) -> (r: &'a str)
    ensures
        r@ == strip_plus_spec(s@),
{
    let ghost plusp = |c: char| c == '+';
    let n = s.unicode_len();
    let mut a: usize = 0;
    loop
        invariant
            0 <= a <= n == s@.len(),
            forall|i: int| 0 <= i < a ==> #[trigger] s@[i] == '+',
        ensures
            0 <= a <= n,
            forall|i: int| 0 <= i < a ==> #[trigger] s@[i] == '+',
            a < n ==> s@[a as int] != '+',
        decreases n - a,
    {
        if a == n {
            break;
        }
        if s.get_char(a) != '+' {
            break;
        }
        a += 1;
    }
    proof {
        lemma_count_leading_unique(s@, plusp, a as int);
    }
    let r = s.substring_char(a, n);
    assert(r@ =~= strip_plus_spec(s@));
    r
}

/// Whether every character of `s` is an ASCII digit.
pub fn check_all_digits(s: &str) -> (b: bool)
    ensures
        b == all_digits(s@),
{
    let n = s.unicode_len();
    let mut i: usize = 0;
    while i < n
        invariant
            0 <= i <= n == s@.len(),
            forall|k: int| 0 <= k < i ==> is_digit_char(#[trigger] s@[k]),
        decreases n - i,
    {
        if !is_digit(s.get_char(i)) {
            return false;
        }
        i += 1;
    }
    true
}

/// Whether `prefix` is a prefix of `s`.
pub fn starts_with(s: &str, prefix: &str) -> (b: bool)
    ensures
        b == prefix@.is_prefix_of(s@),
{
    let n = s.unicode_len();
    let m = prefix.unicode_len();
    if m > n {
        assert(!prefix@.is_prefix_of(s@));
        return false;
    }
    let mut i: usize = 0;
    while i < m
        invariant
            0 <= i <= m == prefix@.len(),
            m <= n == s@.len(),
            forall|k: int| 0 <= k < i ==> #[trigger] s@[k] == prefix@[k],
        decreases m - i,
    {
        if s.get_char(i) != prefix.get_char(i) {
            assert(!prefix@.is_prefix_of(s@));
            return false;
        }
        i += 1;
    }
    assert(prefix@ =~= s@.subrange(0, m as int));
    true
}

/// Whether two strings hold the same characters.
pub fn str_eq(a: &str, b: &str) -> (r: bool)
    ensures
        r == (a@ == b@),
{
    let n = a.unicode_len();
    let m = b.unicode_len();
    if n != m {
        return false;
    }
    let mut i: usize = 0;
    while i < n
        invariant
            0 <= i <= n == a@.len(),
            n == m == b@.len(),
            forall|k: int| 0 <= k < i ==> #[trigger] a@[k] == b@[k],
        decreases n - i,
    {
        if a.get_char(i) != b.get_char(i) {
            return false;
        }
        i += 1;
    }
    proof {
        assert(a@ =~= b@);
    }
    true
}

/// Relies on `core::iter::Iterator::collect`: building a `String` from
/// exactly the characters of `v`, in order.
#[verifier::external_body]
pub fn chars_to_string(v: &Vec<char>) -> (s: String)
    ensures
        s@ == v@,
{
    v.iter().collect()
}

/// The decimal digit character for `d` (which must be below ten).
pub open spec fn digit_char(d: int) -> char
    recommends
        0 <= d <= 9,
{
    seq!['0', '1', '2', '3', '4', '5', '6', '7', '8', '9'][d]
}

/// The decimal rendering of `n`, without leading zeros.
pub open spec fn dec_digits(n: int) -> Seq<char>
    recommends
        n >= 0,
    decreases n,
{
    if n < 10 {
        seq![digit_char(n)]
    } else {
        dec_digits(n / 10).push(digit_char(n % 10))
    }
}

/// Ten to the power `k`.
pub open spec fn pow10(k: int) -> int
    recommends
        k >= 0,
    decreases k,
{
    if k <= 0 {
        1
    } else {
        10 * pow10(k - 1)
    }
}

pub proof fn lemma_pow10_pos(k: int)
    ensures
        pow10(k) >= 1,
    decreases k,
{
    if k > 0 {
        lemma_pow10_pos(k - 1);
    }
}

pub proof fn lemma_pow10_mono(a: int, b: int)
    requires
        0 <= a <= b,
    ensures
        pow10(a) <= pow10(b),
    decreases b,
{
    lemma_pow10_pos(a);
    if a < b {
        lemma_pow10_mono(a, b - 1);
        lemma_pow10_pos(b - 1);
    }
}

/// The digit character of a value below ten is an ASCII digit, and is `'0'`
/// only for zero.
pub proof fn lemma_digit_char_is_digit(d: int)
    requires
        0 <= d <= 9,
    ensures
        is_digit_char(digit_char(d)),
        d > 0 ==> digit_char(d) != '0',
{
}

/// Every character of a decimal rendering is an ASCII digit.
pub proof fn lemma_dec_digits_all_digits(n: int)
    requires
        n >= 0,
    ensures
        all_digits(dec_digits(n)),
    decreases n,
{
    if n < 10 {
        lemma_digit_char_is_digit(n);
    } else {
        lemma_dec_digits_all_digits(n / 10);
        lemma_digit_char_is_digit(n % 10);
        let s = dec_digits(n / 10);
        assert(forall|i: int|
            0 <= i < s.len() ==> #[trigger] dec_digits(n)[i] == s[i]);
        assert(dec_digits(n).last() == digit_char(n % 10));
    }
}

/// A value below ten to the `k` renders in at most `k` digits.
pub proof fn lemma_dec_digits_len_bound(n: int, k: int)
    requires
        0 <= n < pow10(k),
        k >= 1,
    ensures
        dec_digits(n).len() <= k,
    decreases k,
{
    if n >= 10 {
        assert(k >= 2) by {
            if k == 1 {
                reveal_with_fuel(pow10, 3);
                assert(pow10(1) == 10);
            }
        }
        assert(n / 10 < pow10(k - 1));
        lemma_dec_digits_len_bound(n / 10, k - 1);
    }
}

proof fn lemma_dec_digits_len(n: int)
    requires
        n >= 0,
    ensures
        dec_digits(n).len() >= 1,
    decreases n,
{
    if n >= 10 {
        lemma_dec_digits_len(n / 10);
    }
}

/// Render `n` in decimal.
pub fn u64_to_string(n: u64) -> (s: String)
    ensures
        s@ == dec_digits(n as int),
{
    let v = u64_to_digits(n);
    chars_to_string(&v)
}

/// The decimal digits of `n`, as characters.
pub fn u64_to_digits(n: u64) -> (v: Vec<char>)
    ensures
        v@ == dec_digits(n as int),
    decreases n,
{
    if n < 10 {
        let c = digit_of(n);
        let mut v: Vec<char> = Vec::new();
        v.push(c);
        assert(v@ =~= dec_digits(n as int));
        v
    } else {
        let mut v = u64_to_digits(n / 10);
        let c = digit_of(n % 10);
        v.push(c);
        assert(v@ =~= dec_digits(n as int));
        v
    }
}

/// The digit character for a value below ten.
pub fn digit_of(d: u64) -> (c: char)
    requires
        d <= 9,
    ensures
        c == digit_char(d as int),
{
    if d == 0 {
        '0'
    } else if d == 1 {
        '1'
    } else if d == 2 {
        '2'
    } else if d == 3 {
        '3'
    } else if d == 4 {
        '4'
    } else if d == 5 {
        '5'
    } else if d == 6 {
        '6'
    } else if d == 7 {
        '7'
    } else if d == 8 {
        '8'
    } else {
        '9'
    }
}

} // verus!

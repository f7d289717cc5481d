//! The plain-text token dialect the rental-service HTTP APIs answer with:
//! bare error codes such as `NO_NUMBERS`, and the two parameterized forms
//! `BANNED:'<datetime>'` and `WRONG_MAX_PRICE:<decimal>`. Both supported
//! backends speak this dialect, so its grammar lives here once.
//!
//! Whitespace in the parameterized forms means ASCII whitespace.

use vstd::prelude::*;

use crate::text::{
    all_digits, check_all_digits, count_leading, is_space, is_space_char,
    lemma_count_leading_unique, starts_with,
};

verus! {

/// A single or double quote, as the dialect's datetime delimiters.
pub open spec fn is_quote_char(c: char) -> bool {
    c == '\'' || c == '"'
}

/// Whether `c` is a quote character.
pub fn is_quote(c: char) -> (b: bool)
    ensures
        b == is_quote_char(c),
{
    c == '\'' || c == '"'
}

/// The datetime payload of a `BANNED` token: the text between the quotes of
/// `BANNED <spaces> : <spaces> <quote> payload <quote>`, where the payload
/// is non-empty and holds no quote character, and nothing follows the
/// closing quote.
pub open spec fn banned_payload(s: Seq<char>) -> Option<Seq<char>> {
    if !"BANNED"@.is_prefix_of(s) {
        None
    } else {
        let rest = s.skip("BANNED"@.len() as int);
        let i = count_leading(rest, |c: char| is_space_char(c));
        if i >= rest.len() || rest[i] != ':' {
            None
        } else {
            let rest2 = rest.skip(i + 1);
            let j = count_leading(rest2, |c: char| is_space_char(c));
            if j >= rest2.len() || !is_quote_char(rest2[j]) {
                None
            } else {
                let tail = rest2.skip(j);
                if tail.len() >= 3 && is_quote_char(tail.last()) && (forall|k: int|
                    1 <= k < tail.len() - 1 ==> !is_quote_char(#[trigger] tail[k])) {
                    Some(tail.subrange(1, tail.len() - 1))
                } else {
                    None
                }
            }
        }
    }
}

/// A decimal number: one or more digits, optionally followed by a dot and
/// one or more digits.
pub open spec fn valid_decimal(t: Seq<char>) -> bool {
    let i = count_leading(t, |c: char| c != '.');
    if i >= t.len() {
        t.len() > 0 && all_digits(t)
    } else {
        i >= 1 && all_digits(t.subrange(0, i)) && t.len() - i - 1 >= 1 && all_digits(
            t.skip(i + 1),
        )
    }
}

/// The number of a `WRONG_MAX_PRICE` token: the decimal after
/// `WRONG_MAX_PRICE <spaces> : <spaces>`, reaching to the end.
pub open spec fn price_payload(s: Seq<char>) -> Option<Seq<char>> {
    if !"WRONG_MAX_PRICE"@.is_prefix_of(s) {
        None
    } else {
        let rest = s.skip("WRONG_MAX_PRICE"@.len() as int);
        let i = count_leading(rest, |c: char| is_space_char(c));
        if i >= rest.len() || rest[i] != ':' {
            None
        } else {
            let rest2 = rest.skip(i + 1);
            let j = count_leading(rest2, |c: char| is_space_char(c));
            let num = rest2.skip(j);
            if valid_decimal(num) {
                Some(num)
            } else {
                None
            }
        }
    }
}

/// Whether the text looks like an error token: non-empty, not one of the
/// `ACCESS_` success answers, and starting with a known error prefix.
pub open spec fn error_shaped(s: Seq<char>) -> bool {
    &&& s.len() > 0
    &&& !"ACCESS_"@.is_prefix_of(s)
    &&& ("NO_"@.is_prefix_of(s) || "ERROR_"@.is_prefix_of(s) || "BAD_"@.is_prefix_of(s)
        || "WRONG_"@.is_prefix_of(s) || "EARLY_"@.is_prefix_of(s) || "BANNED"@.is_prefix_of(s)
        || "CHANNELS_"@.is_prefix_of(s) || "ORDER_"@.is_prefix_of(s))
}

/// Whether the text looks like an error token.
pub fn looks_like_error_code(s: &str) -> (r: bool)
    ensures
        r == error_shaped(s@),
{
    if s.unicode_len() == 0 {
        return false;
    }
    if starts_with(s, "ACCESS_") {
        return false;
    }
    starts_with(s, "NO_") || starts_with(s, "ERROR_") || starts_with(s, "BAD_") || starts_with(
        s,
        "WRONG_",
    ) || starts_with(s, "EARLY_") || starts_with(s, "BANNED") || starts_with(s, "CHANNELS_")
        || starts_with(s, "ORDER_")
}

/// Scan past leading ASCII whitespace: the index of the first character
/// that is not whitespace.
fn scan_spaces(s: &str, from: usize) -> (r: usize)
    requires
        from <= s@.len(),
    ensures
        r == from + count_leading(s@.skip(from as int), |c: char| is_space_char(c)),
        from <= r <= s@.len(),
        r < s@.len() ==> !is_space_char(s@[r as int]),
{
    let ghost spacep = |c: char| is_space_char(c);
    let n = s.unicode_len();
    let mut i: usize = from;
    loop
        invariant
            from <= i <= n == s@.len(),
            forall|k: int| from <= k < i ==> is_space_char(#[trigger] s@[k]),
        ensures
            from <= i <= n,
            forall|k: int| from <= k < i ==> is_space_char(#[trigger] s@[k]),
            i < n ==> !is_space_char(s@[i as int]),
        decreases n - i,
    {
        if i == n {
            break;
        }
        if !is_space(s.get_char(i)) {
            break;
        }
        i += 1;
    }
    proof {
        let rest = s@.skip(from as int);
        assert forall|k: int| 0 <= k < i - from implies spacep(rest[k]) by {
            assert(rest[k] == s@[k + from]);
        }
        if i - from < rest.len() {
            assert(rest[i - from] == s@[i as int]);
        }
        lemma_count_leading_unique(rest, spacep, i - from);
    }
    i
}

/// Parse the datetime payload of a `BANNED` token.
pub fn parse_banned(s: &str) -> (r: Option<String>)
    ensures
        match (r, banned_payload(s@)) {
            (Some(x), Some(t)) => x@ == t,
            (None, None) => true,
            _ => false,
        },
{
    proof {
        reveal_strlit("BANNED");
    }
    if !starts_with(s, "BANNED") {
        return None;
    }
    let n = s.unicode_len();
    let ghost rest = s@.skip(6);
    let i = scan_spaces(s, 6);
    proof {
        assert forall|k: int| 0 <= k < rest.len() implies rest[k] == s@[k + 6] by {}
        assert(i - 6 == count_leading(rest, |c: char| is_space_char(c))) by {
            assert(s@.skip(6) =~= rest);
        }
    }
    if i == n {
        return None;
    }
    if s.get_char(i) != ':' {
        assert(rest[i - 6] == s@[i as int]);
        return None;
    }
    assert(rest[i - 6] == s@[i as int]);
    let ghost rest2 = rest.skip(i - 6 + 1);
    proof {
        assert(rest2 =~= s@.skip(i + 1));
    }
    let j = scan_spaces(s, i + 1);
    proof {
        assert(s@.skip(i + 1) =~= rest2);
    }
    if j == n {
        return None;
    }
    proof {
        assert(rest2[j - (i + 1)] == s@[j as int]);
    }
    if !is_quote(s.get_char(j)) {
        return None;
    }
    let ghost tail = rest2.skip(j - (i + 1));
    proof {
        assert(tail =~= s@.skip(j as int));
    }
    // tail runs from the opening quote to the end of the text
    if n - j < 3 {
        return None;
    }
    if !is_quote(s.get_char(n - 1)) {
        proof {
            assert(tail.last() == s@[n - 1]);
        }
        return None;
    }
    proof {
        assert(tail.last() == s@[n - 1]);
    }
    let mut k: usize = j + 1;
    #[verifier::loop_isolation(false)]
    while k < n - 1
        invariant
            j + 1 <= k <= n - 1,
            forall|t: int| j + 1 <= t < k ==> !is_quote_char(#[trigger] s@[t]),
        decreases n - k,
    {
        if is_quote(s.get_char(k)) {
            proof {
                assert(tail[k - j] == s@[k as int]);
            }
            return None;
        }
        k += 1;
    }
    proof {
        assert forall|t: int| 1 <= t < tail.len() - 1 implies !is_quote_char(
            #[trigger] tail[t],
        ) by {
            assert(tail[t] == s@[t + j]);
        }
    }
    let payload = s.substring_char(j + 1, n - 1);
    proof {
        assert(payload@ =~= tail.subrange(1, tail.len() - 1));
    }
    Some(payload.to_owned())
}

/// Parse the decimal of a `WRONG_MAX_PRICE` token.
pub fn parse_wrong_max_price(s: &str) -> (r: Option<String>)
    ensures
        match (r, price_payload(s@)) {
            (Some(x), Some(t)) => x@ == t,
            (None, None) => true,
            _ => false,
        },
{
    proof {
        reveal_strlit("WRONG_MAX_PRICE");
    }
    if !starts_with(s, "WRONG_MAX_PRICE") {
        return None;
    }
    let n = s.unicode_len();
    let ghost rest = s@.skip(15);
    let i = scan_spaces(s, 15);
    proof {
        assert(s@.skip(15) =~= rest);
    }
    if i == n {
        return None;
    }
    proof {
        assert(rest[i - 15] == s@[i as int]);
    }
    if s.get_char(i) != ':' {
        return None;
    }
    let ghost rest2 = rest.skip(i - 15 + 1);
    proof {
        assert(rest2 =~= s@.skip(i + 1));
    }
    let j = scan_spaces(s, i + 1);
    proof {
        assert(s@.skip(i + 1) =~= rest2);
    }
    let num = s.substring_char(j, n);
    proof {
        assert(num@ =~= rest2.skip(j - (i + 1)));
    }
    if check_decimal(num) {
        Some(num.to_owned())
    } else {
        None
    }
}

/// Whether the text is a decimal number.
pub fn check_decimal(t: &str) -> (r: bool)
    ensures
        r == valid_decimal(t@),
{
    let ghost nodot = |c: char| c != '.';
    let n = t.unicode_len();
    let mut i: usize = 0;
    loop
        invariant
            0 <= i <= n == t@.len(),
            forall|k: int| 0 <= k < i ==> #[trigger] t@[k] != '.',
        ensures
            0 <= i <= n,
            forall|k: int| 0 <= k < i ==> #[trigger] t@[k] != '.',
            i < n ==> t@[i as int] == '.',
        decreases n - i,
    {
        if i == n {
            break;
        }
        if t.get_char(i) == '.' {
            break;
        }
        i += 1;
    }
    proof {
        lemma_count_leading_unique(t@, nodot, i as int);
    }
    if i == n {
        n > 0 && check_all_digits(t)
    } else {
        let head = t.substring_char(0, i);
        let tail = t.substring_char(i + 1, n);
        proof {
            assert(head@ =~= t@.subrange(0, i as int));
            assert(tail@ =~= t@.skip(i + 1));
        }
        i >= 1 && n - i - 1 >= 1 && check_all_digits(head) && check_all_digits(tail)
    }
}

} // verus!

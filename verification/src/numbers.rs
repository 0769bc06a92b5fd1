//! Reading decimal integers the way `str::parse::<i64>` reads them.

use vstd::prelude::*;
use crate::text::chars_of;

verus! {

/// `c` is one of `0`..`9`.
pub open spec fn is_digit(c: char) -> bool {
    '0' <= c && c <= '9'
}

/// Every character of `s` is a decimal digit.
pub open spec fn all_digits(s: Seq<char>) -> bool {
    forall|i: int| 0 <= i < s.len() ==> is_digit(#[trigger] s[i])
}

/// The value of a string of decimal digits.
pub open spec fn digits_value(s: Seq<char>) -> int
    decreases s.len(),
{
    if s.len() == 0 {
        0
    } else {
        digits_value(s.drop_last()) * 10 + ((s.last() as int) - ('0' as int))
    }
}

/// The signed decimal integer that `s` denotes, if it fits in an `i64`:
/// an optional `+` or `-` followed by at least one digit and nothing else.
pub open spec fn decimal_i64(s: Seq<char>) -> Option<i64> {
    let neg = s.len() > 0 && s[0] == '-';
    let signed = s.len() > 0 && (s[0] == '-' || s[0] == '+');
    let body = if signed { s.drop_first() } else { s };
    let v = if neg { -digits_value(body) } else { digits_value(body) };
    if body.len() > 0 && all_digits(body) && i64::MIN <= v && v <= i64::MAX {
        Some(v as i64)
    } else {
        None
    }
}

proof fn lemma_digits_value_nonneg(s: Seq<char>)
    requires
        all_digits(s),
    ensures
        digits_value(s) >= 0,
    decreases s.len(),
{
    if s.len() > 0 {
        assert(all_digits(s.drop_last()));
        lemma_digits_value_nonneg(s.drop_last());
    }
}

/// The value of a digit string never falls as digits are appended.
proof fn lemma_digits_value_grows(s: Seq<char>, k: int)
    requires
        all_digits(s),
        0 <= k <= s.len(),
    ensures
        digits_value(s.subrange(0, k)) <= digits_value(s),
    decreases s.len() - k,
{
    if k < s.len() {
        lemma_digits_value_grows(s, k + 1);
        let t = s.subrange(0, k + 1);
        assert(t.drop_last() == s.subrange(0, k));
        assert(all_digits(s.subrange(0, k)));
        lemma_digits_value_nonneg(s.subrange(0, k));
        assert(is_digit(t.last()));
    } else {
        assert(s.subrange(0, k) == s);
    }
}

/// Reads `s` as a signed decimal `i64`, as `str::parse::<i64>` does.
pub fn parse_i64(s: &str) -> (r: Option<i64>)
    ensures
        r == decimal_i64(s@),
{
    let c = chars_of(s);
    let n = c.len();
    let neg = n > 0 && c[0] == '-';
    let signed = n > 0 && (c[0] == '-' || c[0] == '+');
    let start: usize = if signed { 1 } else { 0 };
    let ghost body = if signed { s@.drop_first() } else { s@ };
    assert(body == s@.subrange(start as int, n as int));
    if start == n {
        return None;
    }
    let limit: i128 = 9223372036854775808;
    let mut v: i128 = 0;
    let mut i: usize = start;
    while i < n
        invariant
            c@ == s@,
            n == c.len(),
            start <= i <= n,
            body == s@.subrange(start as int, n as int),
            body == (if s@.len() > 0 && (s@[0] == '-' || s@[0] == '+') { s@.drop_first() } else { s@ }),
            all_digits(body.subrange(0, i - start)),
            v == digits_value(body.subrange(0, i - start)),
            0 <= v <= limit,
            limit == 9223372036854775808,
        decreases n - i,
    {
        let d = c[i];
        let ghost pre = body.subrange(0, i - start);
        let ghost nxt = body.subrange(0, i + 1 - start);
        assert(nxt.drop_last() == pre);
        assert(nxt.last() == d);
        if !('0' <= d && d <= '9') {
            assert(body[i - start] == d);
            assert(!is_digit(body[i - start]));
            assert(!all_digits(body));
            return None;
        }
        let dv: i128 = (d as u32 - '0' as u32) as i128;
        v = v * 10 + dv;
        assert(all_digits(nxt));
        if v > limit {
            proof {
                if all_digits(body) {
                    lemma_digits_value_grows(body, i + 1 - start);
                }
            }
            return None;
        }
        i = i + 1;
    }
    assert(body.subrange(0, n - start) == body);
    if neg {
        Some((0 - v) as i64)
    } else if v <= 9223372036854775807 {
        Some(v as i64)
    } else {
        None
    }
}

} // verus!

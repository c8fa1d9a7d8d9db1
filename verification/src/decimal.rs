//! Signed decimal literals: an optional `+` or `-`, then one or more of the
//! digits `0` to `9`, and nothing else.

use vstd::prelude::*;

verus! {

/// One of the ten decimal digits.
pub open spec fn is_digit(c: char) -> bool {
    '0' <= c && c <= '9'
}

/// What the digit `c` counts for.
pub open spec fn digit_value(c: char) -> int {
    c as int - '0' as int
}

/// The number that a run of digits writes, the last digit counting least.
pub open spec fn digits_value(s: Seq<char>) -> int
    decreases s.len(),
{
    if s.len() == 0 {
        0
    } else {
        10 * digits_value(s.drop_last()) + digit_value(s.last())
    }
}

/// At least one character, and digits only.
pub open spec fn is_digits(s: Seq<char>) -> bool {
    &&& s.len() > 0
    &&& forall|i: int| 0 <= i < s.len() ==> is_digit(#[trigger] s[i])
}

/// How many characters the sign takes: one for a leading `+` or `-`, else none.
pub open spec fn sign_len(s: Seq<char>) -> int {
    if s.len() > 0 && (s[0] == '+' || s[0] == '-') {
        1
    } else {
        0
    }
}

/// A sign, if any, and then digits to the end.
pub open spec fn is_literal(s: Seq<char>) -> bool {
    is_digits(s.skip(sign_len(s)))
}

/// The number that a literal writes: its digits' value, negated after a `-`.
pub open spec fn literal_value(s: Seq<char>) -> int {
    let magnitude = digits_value(s.skip(sign_len(s)));
    if s.len() > 0 && s[0] == '-' {
        -magnitude
    } else {
        magnitude
    }
}

/// The `i32` that `s` writes: `None` where `s` is no literal, and where its
/// number lies outside of `i32`.
pub open spec fn decimal_i32(s: Seq<char>) -> Option<i32> {
    if is_literal(s) && i32::MIN <= literal_value(s) <= i32::MAX {
        Some(literal_value(s) as i32)
    } else {
        None
    }
}

/// Reads `s` as a signed decimal literal. Leading zeros are taken, however
/// many; blanks, separators and a sign without digits are not.
pub fn parse_i32(s: &[char]) -> (r: Option<i32>)
    ensures
        r == decimal_i32(s@),
{
    let n = s.len();
    let negative = n > 0 && s[0] == '-';
    let start: usize = if n > 0 && (s[0] == '+' || s[0] == '-') {
        1
    } else {
        0
    };
    if start == n {
        return None;
    }
    let ghost digits = s@.skip(start as int);
    // The magnitude read so far, given up once it has passed 2^31: from there
    // on it only grows, and fits under neither sign.
    let mut magnitude: i64 = 0;
    let mut exceeded = false;
    let mut i: usize = start;
    while i < n
        invariant
            start <= i <= n,
            n == s.len(),
            start == sign_len(s@),
            negative == (n > 0 && s[0] == '-'),
            digits == s@.skip(start as int),
            forall|j: int| 0 <= j < i - start ==> is_digit(#[trigger] digits[j]),
            !exceeded ==> magnitude == digits_value(digits.take(i - start)),
            0 <= magnitude <= 0x8000_0000,
            exceeded ==> digits_value(digits.take(i - start)) > 0x8000_0000,
        decreases n - i,
    {
        let c = s[i];
        if c < '0' || c > '9' {
            assert(digits[i - start] == c);
            return None;
        }
        proof {
            let seen = digits.take(i - start + 1);
            assert(seen.drop_last() == digits.take(i - start));
            assert(seen.last() == c);
        }
        if !exceeded {
            let next: i64 = magnitude * 10 + (c as i64 - '0' as i64);
            if next > 0x8000_0000 {
                exceeded = true;
            } else {
                magnitude = next;
            }
        }
        i += 1;
    }
    assert(digits.take(n - start) == digits);
    if exceeded {
        None
    } else if negative {
        Some((-magnitude) as i32)
    } else if magnitude <= 0x7fff_ffff {
        Some(magnitude as i32)
    } else {
        None
    }
}

} // verus!

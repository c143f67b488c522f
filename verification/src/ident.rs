//! Identifiers as they stand in a path: decimal texts that denote a pet identifier.

use vstd::prelude::*;

verus! {

/// Whether a character is one of the ten decimal digits.
pub open spec fn is_digit(c: char) -> bool {
    48 <= c as u32 <= 57
}

/// Whether every character of a text is a decimal digit.
pub open spec fn all_digits(s: Seq<char>) -> bool {
    forall|i: int| 0 <= i < s.len() ==> is_digit(#[trigger] s[i])
}

/// The number that a text of decimal digits denotes, the empty text denoting zero.
pub open spec fn digits_value(s: Seq<char>) -> int
    decreases s.len(),
{
    if s.len() == 0 {
        0
    } else {
        10 * digits_value(s.drop_last()) + (s.last() as u32 - 48)
    }
}

/// The integer that a text denotes: an optional sign, `+` or `-`, followed by
/// at least one decimal digit and nothing else. Any other text denotes none.
pub open spec fn decimal_integer(s: Seq<char>) -> Option<int> {
    if s.len() > 0 && (s[0] == '-' || s[0] == '+') {
        let digits = s.subrange(1, s.len() as int);
        if digits.len() > 0 && all_digits(digits) {
            Some(
                if s[0] == '-' {
                    -digits_value(digits)
                } else {
                    digits_value(digits)
                },
            )
        } else {
            None
        }
    } else if s.len() > 0 && all_digits(s) {
        Some(digits_value(s))
    } else {
        None
    }
}

/// The pet identifier that a path segment denotes: the integer it spells, where
/// that integer fits the 64 bits of an identifier.
pub open spec fn pet_key(s: Seq<char>) -> Option<i64> {
    match decimal_integer(s) {
        Some(v) => if i64::MIN <= v <= i64::MAX {
            Some(v as i64)
        } else {
            None
        },
        None => None,
    }
}

/// Reads a path segment as a pet identifier.
pub fn parse_pet_id(s: &str) -> (r: Option<i64>)
    ensures
        r == pet_key(s@),
{
    let n: usize = s.unicode_len();
    if n == 0 {
        return None;
    }
    let first: char = s.get_char(0);
    let negative: bool = first == '-';
    let start: usize = if first == '-' || first == '+' {
        1
    } else {
        0
    };
    if start == n {
        return None;
    }
    let ghost digits: Seq<char> = s@.subrange(start as int, n as int);
    let mut acc: u128 = 0;
    let mut too_large: bool = false;
    let mut i: usize = start;
    while i < n
        invariant
            start <= i <= n,
            n == s@.len(),
            start == 1 <==> (s@[0] == '-' || s@[0] == '+'),
            digits == s@.subrange(start as int, n as int),
            all_digits(digits.take(i - start)),
            0 <= acc <= 9223372036854775808,
            !too_large ==> acc == digits_value(digits.take(i - start)),
            too_large ==> digits_value(digits.take(i - start)) > 9223372036854775808,
        decreases n - i,
    {
        let c: char = s.get_char(i);
        let code: u32 = c as u32;
        if code < 48 || code > 57 {
            proof {
                assert(digits[i - start] == c);
                assert(!all_digits(digits));
                if start == 0 {
                    assert(digits == s@);
                }
            }
            return None;
        }
        proof {
            let next = digits.take(i - start + 1);
            assert(next.drop_last() == digits.take(i - start));
            assert(next.last() == c);
            assert(all_digits(next)) by {
                assert forall|j: int| 0 <= j < next.len() implies is_digit(#[trigger] next[j]) by {
                    if j < i - start {
                        assert(next[j] == digits.take(i - start)[j]);
                    }
                }
            }
        }
        if !too_large {
            acc = acc * 10 + (code - 48) as u128;
            if acc > 9223372036854775808 {
                too_large = true;
                acc = 0;
            }
        }
        i += 1;
    }
    proof {
        assert(digits.take(n - start) == digits);
        if start == 0 {
            assert(digits == s@);
        }
    }
    if too_large {
        None
    } else if acc == 9223372036854775808 {
        if negative {
            Some(i64::MIN)
        } else {
            None
        }
    } else if negative {
        Some(-(acc as i64))
    } else {
        Some(acc as i64)
    }
}

} // verus!

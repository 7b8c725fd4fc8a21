//! Decimal numerals: an optional sign and one or more of the digits 0 to 9.

use vstd::prelude::*;
use crate::signal::MAXSIG;

verus! {

/// Whether `c` is one of the digits 0 to 9.
pub open spec fn is_digit(c: char) -> bool {
    '0' <= c <= '9'
}

/// Whether `s` holds digits only.
pub open spec fn all_digits(s: Seq<char>) -> bool {
    forall|i: int| 0 <= i < s.len() ==> is_digit(#[trigger] s[i])
}

/// What the digit `c` counts for; 0 for any other character.
pub open spec fn digit_of(c: char) -> nat {
    if is_digit(c) {
        (c as nat - '0' as nat) as nat
    } else {
        0
    }
}

/// The number that the digits `s` write in base ten; 0 for no digits.
pub open spec fn digits_value(s: Seq<char>) -> nat
    decreases s.len(),
{
    if s.len() == 0 {
        0
    } else {
        digits_value(s.drop_last()) * 10 + digit_of(s.last())
    }
}

/// The digits of `s`: all of it but a leading `+` or `-`.
pub open spec fn unsigned_part(s: Seq<char>) -> Seq<char> {
    if s.len() > 0 && (s[0] == '+' || s[0] == '-') {
        s.skip(1)
    } else {
        s
    }
}

/// The integer that `s` writes: an optional `+` or `-`, then at least one
/// digit, and nothing else. `None` for any other text.
pub open spec fn numeral(s: Seq<char>) -> Option<int> {
    let digits = unsigned_part(s);
    if digits.len() == 0 || !all_digits(digits) {
        None
    } else if s[0] == '-' {
        Some(-(digits_value(digits) as int))
    } else {
        Some(digits_value(digits) as int)
    }
}

/// The number from 0 to 31 that `s` writes, if it writes one.
pub open spec fn small_numeral(s: Seq<char>) -> Option<i32> {
    match numeral(s) {
        Some(n) => if 0 <= n <= MAXSIG {
            Some(n as i32)
        } else {
            None
        },
        None => None,
    }
}

/// Appending a digit multiplies the value by ten and adds the digit.
proof fn lemma_digits_push(s: Seq<char>, c: char)
    ensures
        digits_value(s.push(c)) == digits_value(s) * 10 + digit_of(c),
        all_digits(s) && is_digit(c) ==> all_digits(s.push(c)),
{
    assert(s.push(c).drop_last() =~= s);
}

/// Reads `text` as a number from 0 to 31. Any number of leading zeros is
/// accepted, and so is `-0`.
pub fn parse_small(text: &str) -> (number: Option<i32>)
    ensures
        number == small_numeral(text@),
{
    let len = text.unicode_len();
    if len == 0 {
        return None;
    }
    let ghost digits = unsigned_part(text@);
    if !text.is_ascii() {
        proof {
            let i = choose|i: int| 0 <= i < text@.len() && !('\0' <= #[trigger] text@[i] <= '\u{7f}');
            if i > 0 {
                assert(digits[i - (text@.len() - digits.len())] == text@[i]);
            }
        }
        return None;
    }
    let first = text.get_ascii(0);
    let negative = first == 45;
    let start: usize = if first == 43 || first == 45 {
        1
    } else {
        0
    };
    if start == len {
        return None;
    }
    assert(digits =~= text@.skip(start as int));
    let mut value: i32 = 0;
    let mut at: usize = start;
    while at < len
        invariant
            start <= at <= len,
            len == text@.len(),
            text.is_ascii(),
            digits == text@.skip(start as int),
            digits == unsigned_part(text@),
            all_digits(digits.take(at - start)),
            0 <= value <= MAXSIG + 1,
            value == if digits_value(digits.take(at - start)) > MAXSIG {
                MAXSIG + 1
            } else {
                digits_value(digits.take(at - start)) as int
            },
        decreases len - at,
    {
        let c = text.get_ascii(at);
        if !(48 <= c && c <= 57) {
            assert(digits[at - start] == text@[at as int]);
            return None;
        }
        let digit = (c - 48) as i32;
        proof {
            let before = digits.take(at - start);
            assert(digits.take(at + 1 - start) =~= before.push(text@[at as int]));
            lemma_digits_push(before, text@[at as int]);
        }
        value = if value > MAXSIG {
            MAXSIG + 1
        } else if value * 10 + digit > MAXSIG {
            MAXSIG + 1
        } else {
            value * 10 + digit
        };
        at = at + 1;
    }
    assert(digits.take(len - start) =~= digits);
    if value > MAXSIG || (negative && value != 0) {
        None
    } else {
        Some(value)
    }
}

} // verus!

//! Decimal formatting and parsing of unsigned 64-bit integers.
//!
//! The swap pipeline passes every numeric parameter (amount, slippage,
//! priority fee) through its textual decimal form, so both directions are
//! specified exactly: `u64_to_dec` produces the canonical decimal digits of
//! a number, and `parse_u64` accepts precisely the non-empty all-digit
//! strings whose value fits in a `u64`.

use vstd::prelude::*;
use crate::strutil::push_char;

verus! {

/// The character standing for the decimal digit value `d`.
pub open spec fn digit_char(d: int) -> char {
    if d == 0 {
        '0'
    } else if d == 1 {
        '1'
    } else if d == 2 {
        '2'
    } else if d == 3 {
        '3'
    } else if d == 4 {
        '4'
    } else if d == 5 {
        '5'
    } else if d == 6 {
        '6'
    } else if d == 7 {
        '7'
    } else if d == 8 {
        '8'
    } else {
        '9'
    }
}

/// The canonical decimal text of `n`: most significant digit first,
/// no sign, no leading zeros (zero itself is the single digit `0`).
pub open spec fn dec_digits(n: nat) -> Seq<char>
    decreases n,
{
    if n < 10 {
        seq![digit_char(n as int)]
    } else {
        dec_digits(n / 10) + seq![digit_char((n % 10) as int)]
    }
}

/// Whether `c` is a decimal digit.
pub open spec fn is_digit(c: char) -> bool {
    '0' as int <= c as int <= '9' as int
}

/// The numeric value of the digit character `c`.
pub open spec fn digit_val(c: char) -> int {
    c as int - '0' as int
}

/// Whether `s` is a well-formed decimal numeral: non-empty and all digits.
/// Leading zeros are allowed, as they are for the standard library's
/// integer parsing.
pub open spec fn is_dec_string(s: Seq<char>) -> bool {
    s.len() > 0 && (forall|i: int| 0 <= i < s.len() ==> is_digit(#[trigger] s[i]))
}

/// The numeric value of the digit string `s`, most significant digit first.
pub open spec fn dec_value(s: Seq<char>) -> int
    decreases s.len(),
{
    if s.len() == 0 {
        0
    } else {
        dec_value(s.drop_last()) * 10 + digit_val(s.last())
    }
}

/// The value of an all-digit string is never negative.
proof fn lemma_dec_value_nonneg(s: Seq<char>)
    requires
        forall|i: int| 0 <= i < s.len() ==> is_digit(#[trigger] s[i]),
    ensures
        dec_value(s) >= 0,
    decreases s.len(),
{
    if s.len() > 0 {
        lemma_dec_value_nonneg(s.drop_last());
    }
}

/// Extending an all-digit string never decreases its value: the value of a
/// prefix is a lower bound for the value of the whole string.
proof fn lemma_dec_value_prefix_le(s: Seq<char>, i: int)
    requires
        forall|k: int| 0 <= k < s.len() ==> is_digit(#[trigger] s[k]),
        0 <= i <= s.len(),
    ensures
        dec_value(s.take(i)) <= dec_value(s),
    decreases s.len() - i,
{
    if i < s.len() {
        lemma_dec_value_prefix_le(s, i + 1);
        assert(s.take(i + 1).drop_last() =~= s.take(i));
        assert(s.take(i + 1).last() == s[i]);
        lemma_dec_value_nonneg(s.take(i));
    } else {
        assert(s.take(i) =~= s);
    }
}

/// The decimal text of a number reads back as that number: `dec_digits`
/// always yields a well-formed numeral whose value is the number itself,
/// so a value placed in a request as decimal text passes through
/// unchanged.
pub proof fn lemma_dec_digits_value(n: nat)
    ensures
        is_dec_string(dec_digits(n)),
        dec_value(dec_digits(n)) == n,
    decreases n,
{
    if n < 10 {
        assert(dec_digits(n).drop_last() =~= Seq::<char>::empty());
        assert(dec_value(Seq::<char>::empty()) == 0);
        assert(digit_val(digit_char(n as int)) == n);
    } else {
        lemma_dec_digits_value(n / 10);
        assert(dec_digits(n).drop_last() =~= dec_digits(n / 10));
        assert(dec_digits(n).last() == digit_char((n % 10) as int));
        assert(digit_val(digit_char((n % 10) as int)) == n % 10);
        assert forall|i: int| 0 <= i < dec_digits(n).len() implies is_digit(
            #[trigger] dec_digits(n)[i],
        ) by {
            if i < dec_digits(n).len() - 1 {
                assert(dec_digits(n)[i] == dec_digits(n / 10)[i]);
            }
        }
    }
}

/// The digit character for a digit value, as executable code.
fn digit_to_char(d: u64) -> (r: char)
    requires
        d < 10,
    ensures
        r == digit_char(d as int),
{
    match d {
        0 => '0',
        1 => '1',
        2 => '2',
        3 => '3',
        4 => '4',
        5 => '5',
        6 => '6',
        7 => '7',
        8 => '8',
        _ => '9',
    }
}

/// Formats `n` as its canonical decimal text.
pub fn u64_to_dec(n: u64) -> (r: String)
    ensures
        r@ == dec_digits(n as nat),
    decreases n,
{
    if n < 10 {
        let mut s = String::new();
        push_char(&mut s, digit_to_char(n));
        proof {
            assert(s@ =~= dec_digits(n as nat));
        }
        s
    } else {
        let mut s = u64_to_dec(n / 10);
        push_char(&mut s, digit_to_char(n % 10));
        proof {
            assert(s@ =~= dec_digits(n as nat));
        }
        s
    }
}

/// Parses a decimal numeral. Returns the value exactly when `s` is
/// non-empty, consists of decimal digits only, and its value fits in a
/// `u64`; returns `None` otherwise.
pub fn parse_u64(s: &str) -> (r: Option<u64>)
    ensures
        match r {
            Some(v) => is_dec_string(s@) && dec_value(s@) == v as int,
            None => !(is_dec_string(s@) && dec_value(s@) <= u64::MAX),
        },
{
    let n = s.unicode_len();
    if n == 0 {
        return None;
    }
    let mut v: u64 = 0;
    let mut i: usize = 0;
    while i < n
        invariant
            0 < n == s@.len(),
            0 <= i <= n,
            forall|k: int| 0 <= k < i ==> is_digit(#[trigger] s@[k]),
            v as int == dec_value(s@.take(i as int)),
        decreases n - i,
    {
        let c = s.get_char(i);
        if c < '0' || c > '9' {
            return None;
        }
        let d: u64 = (c as u32 - '0' as u32) as u64;
        proof {
            assert(s@.take(i as int + 1).drop_last() =~= s@.take(i as int));
            assert(s@.take(i as int + 1).last() == s@[i as int]);
        }
        if v > (u64::MAX - d) / 10 {
            proof {
                if is_dec_string(s@) {
                    lemma_dec_value_prefix_le(s@, i as int + 1);
                }
            }
            return None;
        }
        v = v * 10 + d;
        i = i + 1;
    }
    proof {
        assert(s@.take(n as int) =~= s@);
    }
    Some(v)
}

}

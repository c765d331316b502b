//! Parsing and clamping of the poll-interval option.
//!
//! The raw option value is a decimal string for a non-negative integer of
//! milliseconds. A string that is not such an integer, or whose value does
//! not fit in a `u64`, is a fatal input error; a parsed value is clamped to
//! `[TIMER_MIN, TIMER_MAX]`.

use vstd::arithmetic::overflow::CheckedU64;
use vstd::prelude::*;

verus! {

/// Smallest accepted poll interval, in milliseconds; also the default.
pub const TIMER_MIN: u64 = 1000;

/// Largest accepted poll interval, in milliseconds.
pub const TIMER_MAX: u64 = 60000;

/// Whether `c` is an ASCII decimal digit.
pub open spec fn is_digit(c: char) -> bool {
    '0' as u32 <= c as u32 <= '9' as u32
}

/// The numeric value of the decimal digit `c`.
pub open spec fn digit_val(c: char) -> nat {
    (c as u32 - '0' as u32) as nat
}

/// Whether `s` is one or more decimal digits.
pub open spec fn all_digits(s: Seq<char>) -> bool {
    s.len() > 0 && forall|i: int| 0 <= i < s.len() ==> is_digit(#[trigger] s[i])
}

/// The number denoted by the digit string `s`, read most significant first.
pub open spec fn digits_value(s: Seq<char>) -> nat
    decreases s.len(),
{
    if s.len() == 0 {
        0
    } else {
        digits_value(s.drop_last()) * 10 + digit_val(s.last())
    }
}

/// Whether `s` denotes a non-negative decimal integer: one or more digits,
/// optionally preceded by a single `+` sign.
pub open spec fn is_decimal(s: Seq<char>) -> bool {
    if s.len() > 0 && s[0] == '+' {
        all_digits(s.skip(1))
    } else {
        all_digits(s)
    }
}

/// The number denoted by the decimal string `s`.
pub open spec fn decimal_value(s: Seq<char>) -> nat {
    if s.len() > 0 && s[0] == '+' {
        digits_value(s.skip(1))
    } else {
        digits_value(s)
    }
}

/// `x` constrained to `[TIMER_MIN, TIMER_MAX]`: values below become
/// `TIMER_MIN`, values above become `TIMER_MAX`, values inside pass through.
pub open spec fn spec_clamp_timer(x: int) -> int {
    if x < TIMER_MIN as int {
        TIMER_MIN as int
    } else if x > TIMER_MAX as int {
        TIMER_MAX as int
    } else {
        x
    }
}

/// Clamps a raw timer value to the accepted interval.
pub fn clamp_timer(x: u64) -> (r: u64)
    ensures
        r == spec_clamp_timer(x as int),
        TIMER_MIN <= r <= TIMER_MAX,
{
    if x < TIMER_MIN {
        TIMER_MIN
    } else if x > TIMER_MAX {
        TIMER_MAX
    } else {
        x
    }
}

/// Clamping is the identity on `[TIMER_MIN, TIMER_MAX]`, and sends everything
/// below to `TIMER_MIN` and everything above to `TIMER_MAX`.
pub proof fn lemma_clamp_timer_cases(x: int)
    ensures
        x < TIMER_MIN as int ==> spec_clamp_timer(x) == TIMER_MIN as int,
        x > TIMER_MAX as int ==> spec_clamp_timer(x) == TIMER_MAX as int,
        TIMER_MIN as int <= x <= TIMER_MAX as int ==> spec_clamp_timer(x) == x,
{
}

/// Parses `s` as a non-negative decimal integer of milliseconds.
///
/// Returns `Some(v)` exactly when `s` denotes a non-negative decimal integer
/// whose value `v` fits in a `u64`; returns `None` on every other string,
/// malformed or too large.
pub fn parse_timer(s: &str) -> (r: Option<u64>)
    ensures
        match r {
            Some(v) => is_decimal(s@) && decimal_value(s@) <= u64::MAX && v == decimal_value(s@),
            None => !is_decimal(s@) || decimal_value(s@) > u64::MAX,
        },
{
    let n: usize = s.unicode_len();
    let start: usize = if n > 0 && s.get_char(0) == '+' {
        1
    } else {
        0
    };
    let ghost digits: Seq<char> = s@.skip(start as int);
    proof {
        if start == 0 {
            assert(s@.skip(0) =~= s@);
        }
        assert(is_decimal(s@) == all_digits(digits));
        assert(decimal_value(s@) == digits_value(digits));
    }
    if start == n {
        // No digits at all: an empty string, or a bare sign.
        return None;
    }
    let mut acc = CheckedU64::new(0);
    let mut i: usize = start;
    while i < n
        invariant
            start <= i <= n,
            start < n,
            n == s@.len(),
            digits == s@.skip(start as int),
            is_decimal(s@) == all_digits(digits),
            decimal_value(s@) == digits_value(digits),
            forall|j: int| start <= j < i ==> is_digit(#[trigger] s@[j]),
            acc@ == digits_value(s@.subrange(start as int, i as int)),
        decreases n - i,
    {
        let c = s.get_char(i);
        let code: u32 = c as u32;
        if code < '0' as u32 || code > '9' as u32 {
            // A non-digit inside the digit part: not a decimal string.
            assert(!is_digit(digits[i - start]));
            return None;
        }
        let d: u64 = (code - '0' as u32) as u64;
        let ghost prefix: Seq<char> = s@.subrange(start as int, i as int);
        acc = acc.mul_value(10).add_value(d);
        proof {
            let longer = s@.subrange(start as int, i as int + 1);
            assert(longer.drop_last() =~= prefix);
            assert(longer.last() == s@[i as int]);
        }
        i = i + 1;
    }
    proof {
        assert(s@.subrange(start as int, n as int) =~= digits);
        assert forall|k: int| 0 <= k < digits.len() implies is_digit(#[trigger] digits[k]) by {
            assert(digits[k] == s@[k + start]);
        }
        assert(all_digits(digits));
    }
    acc.to_option()
}

} // verus!

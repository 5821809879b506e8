//! Decimal integers as they appear on the wire.
//!
//! An integer is written as an optional `-` followed by one or more decimal
//! digits. Leading zeros are accepted when reading and never written.

use vstd::prelude::*;
use crate::text::{MINUS, ZERO};

verus! {

/// `9`, the last decimal digit.
pub const NINE: u8 = 57;

/// The magnitude of the least `i64`.
pub const I64_MIN_MAGNITUDE: u64 = 9223372036854775808;

/// Whether `b` is a decimal digit.
pub open spec fn is_digit(b: u8) -> bool {
    ZERO <= b <= NINE
}

/// Whether every byte of `s` is a decimal digit.
pub open spec fn all_digits(s: Seq<u8>) -> bool {
    forall|i: int| 0 <= i < s.len() ==> is_digit(#[trigger] s[i])
}

/// The number that the digit string `s` denotes, most significant digit first.
pub open spec fn digits_value(s: Seq<u8>) -> nat
    decreases s.len(),
{
    if s.len() == 0 {
        0
    } else {
        digits_value(s.drop_last()) * 10 + (s.last() - ZERO) as nat
    }
}

/// The integer that `s` denotes, if `s` is an optional `-` followed by at
/// least one digit.
pub open spec fn int_value(s: Seq<u8>) -> Option<int> {
    if s.len() > 0 && s[0] == MINUS {
        let digits = s.drop_first();
        if digits.len() > 0 && all_digits(digits) {
            Some(-(digits_value(digits) as int))
        } else {
            None
        }
    } else if s.len() > 0 && all_digits(s) {
        Some(digits_value(s) as int)
    } else {
        None
    }
}

/// The integer that `s` denotes, if it denotes one that an `i64` can hold.
pub open spec fn i64_value(s: Seq<u8>) -> Option<i64> {
    match int_value(s) {
        Some(v) => if i64::MIN <= v <= i64::MAX {
            Some(v as i64)
        } else {
            None
        },
        None => None,
    }
}

/// The decimal digits of `n`, without leading zeros.
pub open spec fn decimal(n: nat) -> Seq<u8>
    decreases n,
{
    if n < 10 {
        seq![(ZERO + n) as u8]
    } else {
        decimal(n / 10).push((ZERO + n % 10) as u8)
    }
}

/// The text of the integer `v`.
pub open spec fn int_text(v: int) -> Seq<u8> {
    if v < 0 {
        seq![MINUS] + decimal((-v) as nat)
    } else {
        decimal(v as nat)
    }
}

/// A longer digit string denotes at least what each of its prefixes denotes.
pub proof fn lemma_digits_prefix(s: Seq<u8>, k: int)
    requires
        0 <= k <= s.len(),
        all_digits(s),
    ensures
        digits_value(s.take(k)) <= digits_value(s),
    decreases s.len() - k,
{
    if k == s.len() {
        assert(s.take(k) =~= s);
    } else {
        let front = s.drop_last();
        assert(all_digits(front)) by {
            assert forall|i: int| 0 <= i < front.len() implies is_digit(#[trigger] front[i]) by {
                assert(front[i] == s[i]);
            }
        }
        assert(is_digit(s[s.len() - 1]));
        if k == s.len() - 1 {
            assert(s.take(k) =~= front);
        } else {
            lemma_digits_prefix(front, k);
            assert(front.take(k) =~= s.take(k));
        }
    }
}

/// The digits written for `n` are digits, there is at least one, and they
/// denote `n`.
pub proof fn lemma_decimal_digits(n: nat)
    ensures
        decimal(n).len() >= 1,
        all_digits(decimal(n)),
        digits_value(decimal(n)) == n,
    decreases n,
{
    if n < 10 {
        let d = decimal(n);
        assert(d.drop_last() =~= Seq::<u8>::empty());
        assert(digits_value(d.drop_last()) == 0);
    } else {
        lemma_decimal_digits(n / 10);
        let front = decimal(n / 10);
        let d = front.push((ZERO + n % 10) as u8);
        assert(d.drop_last() =~= front);
        assert forall|i: int| 0 <= i < d.len() implies is_digit(#[trigger] d[i]) by {
            if i < front.len() {
                assert(d[i] == front[i]);
            }
        }
    }
}

/// Reading what was written gives the integer back.
pub proof fn lemma_int_text_roundtrip(v: int)
    ensures
        int_value(int_text(v)) == Some(v),
{
    if v < 0 {
        let digits = decimal((-v) as nat);
        lemma_decimal_digits((-v) as nat);
        assert(int_text(v).drop_first() =~= digits);
    } else {
        lemma_decimal_digits(v as nat);
        let digits = decimal(v as nat);
        assert(is_digit(digits[0]));
    }
}

/// Reading what was written for an `i64` gives that `i64` back.
pub proof fn lemma_i64_text_roundtrip(v: i64)
    ensures
        i64_value(int_text(v as int)) == Some(v),
{
    lemma_int_text_roundtrip(v as int);
}

/// Reads an integer. Text that is no integer, or denotes one outside the
/// range of `i64`, gives `None`.
pub fn parse_i64(s: &[u8]) -> (parsed: Option<i64>)
    ensures
        parsed == i64_value(s@),
{
    let n = s.len();
    if n == 0 {
        return None;
    }
    let negative = s[0] == MINUS;
    let start: usize = if negative {
        1
    } else {
        0
    };
    if start == n {
        assert(s@.drop_first().len() == 0);
        return None;
    }
    let ghost digits = s@.subrange(start as int, n as int);
    assert(negative ==> digits =~= s@.drop_first());
    assert(!negative ==> digits =~= s@);
    let limit: u64 = if negative {
        I64_MIN_MAGNITUDE
    } else {
        I64_MIN_MAGNITUDE - 1
    };
    let mut value: u64 = 0;
    let mut i: usize = start;
    assert(digits.take(0) =~= Seq::<u8>::empty());
    while i < n
        invariant
            start <= i <= n,
            n == s@.len(),
            n > 0,
            digits == s@.subrange(start as int, n as int),
            negative == (s@[0] == MINUS),
            negative ==> digits == s@.drop_first(),
            !negative ==> digits == s@,
            limit == if negative {
                I64_MIN_MAGNITUDE as int
            } else {
                I64_MIN_MAGNITUDE - 1
            },
            forall|j: int| 0 <= j < i - start ==> is_digit(#[trigger] digits[j]),
            value == digits_value(digits.take(i - start)),
            value <= limit,
        decreases n - i,
    {
        let b = s[i];
        assert(digits[i - start] == b);
        if b < ZERO || b > NINE {
            assert(!all_digits(digits));
            return None;
        }
        let next: u128 = value as u128 * 10 + (b - ZERO) as u128;
        let ghost longer = digits.take(i - start + 1);
        assert(longer.drop_last() =~= digits.take(i - start));
        assert(longer.last() == b);
        assert(next == digits_value(longer));
        if next > limit as u128 {
            proof {
                if all_digits(digits) {
                    lemma_digits_prefix(digits, i - start + 1);
                }
            }
            return None;
        }
        value = next as u64;
        i += 1;
    }
    assert(digits.take(n - start) =~= digits);
    assert(all_digits(digits));
    if negative {
        if value == I64_MIN_MAGNITUDE {
            Some(i64::MIN)
        } else {
            Some(-(value as i64))
        }
    } else {
        Some(value as i64)
    }
}

/// Writes `n` in decimal.
pub fn format_u128(n: u128) -> (out: Vec<u8>)
    ensures
        out@ == decimal(n as nat),
    decreases n,
{
    if n < 10 {
        let mut out: Vec<u8> = Vec::new();
        out.push(ZERO + n as u8);
        assert(out@ =~= decimal(n as nat));
        out
    } else {
        let mut out = format_u128(n / 10);
        out.push(ZERO + (n % 10) as u8);
        out
    }
}

/// Writes `n` in decimal.
pub fn format_u64(n: u64) -> (out: Vec<u8>)
    ensures
        out@ == decimal(n as nat),
    decreases n,
{
    if n < 10 {
        let mut out: Vec<u8> = Vec::new();
        out.push(ZERO + n as u8);
        assert(out@ =~= decimal(n as nat));
        out
    } else {
        let mut out = format_u64(n / 10);
        out.push(ZERO + (n % 10) as u8);
        out
    }
}

/// Writes `v` in decimal, with a leading `-` when it is negative.
pub fn format_i64(v: i64) -> (out: Vec<u8>)
    ensures
        out@ == int_text(v as int),
{
    if v < 0 {
        let magnitude: u64 = (-(v + 1)) as u64 + 1;
        let digits = format_u64(magnitude);
        let mut out: Vec<u8> = Vec::new();
        out.push(MINUS);
        let mut i: usize = 0;
        while i < digits.len()
            invariant
                i <= digits.len(),
                out@ == seq![MINUS] + digits@.take(i as int),
            decreases digits.len() - i,
        {
            out.push(digits[i]);
            assert(digits@.take(i + 1) =~= digits@.take(i as int).push(digits@[i as int]));
            assert(out@ =~= seq![MINUS] + digits@.take(i + 1));
            i += 1;
        }
        assert(digits@.take(digits.len() as int) =~= digits@);
        out
    } else {
        format_u64(v as u64)
    }
}

} // verus!

//! Formatting of decimal integers as ASCII text, the form the hardware's
//! control files take, with a proof that parsing undoes formatting.

use vstd::prelude::*;
use crate::parse::{all_digits, digits_value, is_ascii_digit};

verus! {

/// The ASCII decimal digits of a number, most significant first.
pub open spec fn decimal_digits(n: nat) -> Seq<u8>
    decreases n,
{
    if n < 10 {
        seq![(0x30 + n) as u8]
    } else {
        decimal_digits(n / 10).push((0x30 + n % 10) as u8)
    }
}

/// The ASCII text of an integer: a minus sign before the digits of the
/// magnitude when it is negative.
pub open spec fn decimal_text(x: int) -> Seq<u8> {
    if x < 0 {
        seq![0x2du8] + decimal_digits((-x) as nat)
    } else {
        decimal_digits(x as nat)
    }
}

/// Parsing the decimal digits of `n` gives back `n`: the digits are all
/// ASCII digits, there is at least one, and their value is `n`.
pub proof fn lemma_decimal_round_trip(n: nat)
    ensures
        decimal_digits(n).len() > 0,
        all_digits(decimal_digits(n)),
        digits_value(decimal_digits(n)) == n,
    decreases n,
{
    if n < 10 {
        let s = decimal_digits(n);
        assert(s.drop_last() =~= Seq::<u8>::empty());
        assert(digits_value(Seq::<u8>::empty()) == 0);
        assert(s.last() == 0x30 + n);
        assert(digits_value(s) == digits_value(s.drop_last()) * 10 + (s.last() - 0x30));
        assert(digits_value(s) == n);
    } else {
        lemma_decimal_round_trip(n / 10);
        let s = decimal_digits(n);
        let prev = decimal_digits(n / 10);
        assert(s.drop_last() =~= prev);
        assert(is_ascii_digit(s.last()));
        assert(forall|i: int| 0 <= i < s.len() ==> is_ascii_digit(#[trigger] s[i]));
        assert(digits_value(s) == (n / 10) * 10 + n % 10);
        assert((n / 10) * 10 + n % 10 == n) by (nonlinear_arith);
    }
}

/// Formats a number as ASCII decimal digits.
pub fn format_u64(n: u64) -> (r: Vec<u8>)
    ensures
        r@ == decimal_digits(n as nat),
{
    let mut rev: Vec<u8> = Vec::new();
    if n == 0 {
        rev.push(0x30);
        assert(rev@ =~= decimal_digits(0));
        return rev;
    }
    let mut m: u64 = n;
    while m > 0
        invariant
            m > 0 ==> decimal_digits(n as nat) =~= decimal_digits(m as nat) + rev@.reverse(),
            m == 0 ==> decimal_digits(n as nat) =~= rev@.reverse(),
        decreases m,
    {
        let d: u8 = (m % 10) as u8;
        let ghost old_rev = rev@;
        let ghost old_m = m as nat;
        rev.push(0x30 + d);
        m = m / 10;
        proof {
            assert(rev@.reverse() =~= seq![(0x30 + old_m % 10) as u8] + old_rev.reverse());
            if old_m >= 10 {
                assert(decimal_digits(old_m) =~= decimal_digits(old_m / 10).push(
                    (0x30 + old_m % 10) as u8,
                ));
                assert(decimal_digits(old_m / 10) + rev@.reverse() =~= decimal_digits(old_m)
                    + old_rev.reverse());
            } else {
                assert(decimal_digits(old_m) =~= seq![(0x30 + old_m) as u8]);
                assert(rev@.reverse() =~= decimal_digits(old_m) + old_rev.reverse());
            }
        }
    }
    let count: usize = rev.len();
    let mut out: Vec<u8> = Vec::new();
    let mut j: usize = count;
    while j > 0
        invariant
            0 <= j <= count,
            count == rev@.len(),
            out@.len() == count - j,
            forall|i: int| 0 <= i < out@.len() ==> out@[i] == rev@[count - 1 - i],
        decreases j,
    {
        out.push(rev[j - 1]);
        j = j - 1;
    }
    assert(out@ =~= rev@.reverse());
    out
}

/// Formats an integer as ASCII text, with a minus sign when negative.
pub fn format_i64(x: i64) -> (r: Vec<u8>)
    ensures
        r@ == decimal_text(x as int),
{
    if x >= 0 {
        format_u64(x as u64)
    } else {
        let wide: i128 = -(x as i128);
        let magnitude: u64 = wide as u64;
        let digits = format_u64(magnitude);
        let mut out: Vec<u8> = Vec::new();
        out.push(0x2d);
        let mut j: usize = 0;
        let count: usize = digits.len();
        while j < count
            invariant
                0 <= j <= count,
                count == digits@.len(),
                out@ =~= seq![0x2du8] + digits@.subrange(0, j as int),
            decreases count - j,
        {
            out.push(digits[j]);
            j = j + 1;
            proof {
                assert(out@ =~= seq![0x2du8] + digits@.subrange(0, j as int));
            }
        }
        proof {
            assert(digits@.subrange(0, count as int) =~= digits@);
        }
        out
    }
}

} // verus!

//! Resolution of the controller's configuration from the text lines of its
//! configuration document: gains and the initial integral value are decimal
//! numbers read into milli-unit fixed point, the target temperature is a
//! plain integer.  A missing line is fatal; a malformed one falls back to its
//! fixed default.  Locating and reading the document happens outside the
//! library.

use vstd::prelude::*;
use crate::control::{trunc_div_milli, ControlParams};
use crate::errors::ConfigurationError;
use crate::parse::{all_digits, digits_value, is_ascii_digit, parse_u64};

verus! {

/// Initial integral value assumed when its line does not parse.
pub const DEFAULT_INITIAL_INTEGRAL: i64 = 10_000;

/// Integral gain assumed when its line does not parse: 0.05 in milli-units.
pub const DEFAULT_K_I_MILLI: i32 = 50;

/// Proportional gain assumed when its line does not parse: 400 in
/// milli-units.
pub const DEFAULT_K_P_MILLI: i32 = 400_000;

/// Target temperature assumed when its line does not parse, in degrees.
pub const DEFAULT_TARGET_DEGREES: i64 = 70;

/// The text opens with a minus sign.
pub open spec fn has_sign(s: Seq<u8>) -> bool {
    s.len() > 0 && s[0] == 0x2d
}

/// The text with its sign removed.
pub open spec fn magnitude_text(s: Seq<u8>) -> Seq<u8> {
    if has_sign(s) {
        s.drop_first()
    } else {
        s
    }
}

/// The text is a plain signed decimal integer: an optional minus sign, then
/// one or more digits.
pub open spec fn int_text_parses(s: Seq<u8>) -> bool {
    magnitude_text(s).len() > 0 && all_digits(magnitude_text(s))
}

/// The integer the text denotes.
pub open spec fn int_text_value(s: Seq<u8>) -> int {
    if has_sign(s) {
        -digits_value(magnitude_text(s))
    } else {
        digits_value(s)
    }
}

/// Length of the run of digits starting at `i`.
pub open spec fn digit_run_len(s: Seq<u8>, i: int) -> int
    decreases s.len() - i,
{
    if i < 0 || i >= s.len() {
        0
    } else if is_ascii_digit(s[i]) {
        1 + digit_run_len(s, i + 1)
    } else {
        0
    }
}

/// The text is a decimal number: an optional minus sign, one or more integer
/// digits, and optionally a dot followed by one or more fraction digits.
pub open spec fn decimal_text_parses(s: Seq<u8>) -> bool {
    let m = magnitude_text(s);
    let k = digit_run_len(m, 0);
    &&& k > 0
    &&& (k == m.len() || (m[k] == 0x2e && m.len() > k + 1 && all_digits(
        m.subrange(k + 1, m.len() as int),
    )))
}

/// The fraction digits of the text, empty when it has no dot.
pub open spec fn fraction_text(s: Seq<u8>) -> Seq<u8> {
    let m = magnitude_text(s);
    let k = digit_run_len(m, 0);
    if k == m.len() {
        Seq::<u8>::empty()
    } else {
        m.subrange(k + 1, m.len() as int)
    }
}

/// The milli-units the fraction digits denote, truncated past the third
/// digit.
pub open spec fn fraction_milli(f: Seq<u8>) -> int {
    if f.len() == 0 {
        0
    } else if f.len() == 1 {
        digits_value(f) * 100
    } else if f.len() == 2 {
        digits_value(f) * 10
    } else {
        digits_value(f.subrange(0, 3))
    }
}

/// The magnitude of the decimal number, in milli-units.
pub open spec fn decimal_milli_magnitude(s: Seq<u8>) -> int {
    let m = magnitude_text(s);
    let k = digit_run_len(m, 0);
    digits_value(m.subrange(0, k)) * 1000 + fraction_milli(fraction_text(s))
}

/// The milli-units the decimal text denotes, truncated toward zero.
pub open spec fn decimal_milli_value(s: Seq<u8>) -> int {
    if has_sign(s) {
        -decimal_milli_magnitude(s)
    } else {
        decimal_milli_magnitude(s)
    }
}

/// A scan that saw digits up to an index that is past the end or holds a
/// non-digit has found the digit run.
proof fn lemma_digit_run(s: Seq<u8>, i: int, k: int)
    requires
        0 <= i <= k <= s.len(),
        forall|j: int| i <= j < k ==> is_ascii_digit(#[trigger] s[j]),
        k == s.len() || !is_ascii_digit(s[k]),
    ensures
        digit_run_len(s, i) == k - i,
    decreases k - i,
{
    if i < k {
        lemma_digit_run(s, i + 1, k);
    }
}

/// Bounds on the value of up to three digits.
proof fn lemma_small_digits_value(s: Seq<u8>)
    requires
        all_digits(s),
        s.len() <= 3,
    ensures
        0 <= digits_value(s),
        s.len() <= 1 ==> digits_value(s) <= 9,
        s.len() <= 2 ==> digits_value(s) <= 99,
        digits_value(s) <= 999,
    decreases s.len(),
{
    if s.len() > 0 {
        lemma_small_digits_value(s.drop_last());
    }
}

/// Tests a byte for an ASCII digit.
fn is_digit_byte(b: u8) -> (r: bool)
    ensures
        r == is_ascii_digit(b),
{
    0x30 <= b && b <= 0x39
}

/// Parses a plain signed ASCII decimal integer.  Succeeds exactly on an
/// optional minus sign followed by digits whose value fits in an `i64`.
pub fn parse_i64_text(s: &[u8]) -> (r: Option<i64>)
    ensures
        r is Some <==> (int_text_parses(s@) && i64::MIN <= int_text_value(s@) <= i64::MAX),
        r matches Some(v) ==> v == int_text_value(s@),
{
    let negative = s.len() > 0 && *vstd::slice::slice_index_get(s, 0) == 0x2d;
    let m: &[u8] = if negative {
        vstd::slice::slice_subrange(s, 1, s.len())
    } else {
        s
    };
    proof {
        assert(m@ =~= magnitude_text(s@));
        if int_text_parses(s@) {
            crate::parse::lemma_digits_value_nonneg(magnitude_text(s@));
        }
    }
    match parse_u64(m) {
        Some(v) => {
            if negative {
                if v > 9_223_372_036_854_775_808 {
                    return None;
                }
                Some((-(v as i128)) as i64)
            } else {
                if v > 9_223_372_036_854_775_807 {
                    return None;
                }
                Some(v as i64)
            }
        },
        None => None,
    }
}

/// Parses a decimal number into milli-units, truncated toward zero past the
/// third fraction digit.  Succeeds exactly on an optional minus sign, one or
/// more integer digits, and optionally a dot followed by one or more fraction
/// digits, whose milli-unit value fits in an `i64`.
pub fn parse_decimal_milli(s: &[u8]) -> (r: Option<i64>)
    ensures
        r is Some <==> (decimal_text_parses(s@) && i64::MIN <= decimal_milli_value(s@)
            <= i64::MAX),
        r matches Some(v) ==> v == decimal_milli_value(s@),
{
    let negative = s.len() > 0 && *vstd::slice::slice_index_get(s, 0) == 0x2d;
    let m: &[u8] = if negative {
        vstd::slice::slice_subrange(s, 1, s.len())
    } else {
        s
    };
    proof {
        assert(m@ =~= magnitude_text(s@));
    }
    let len: usize = m.len();
    let mut k: usize = 0;
    while k < len && is_digit_byte(*vstd::slice::slice_index_get(m, k))
        invariant
            0 <= k <= len,
            len == m@.len(),
            forall|j: int| 0 <= j < k ==> is_ascii_digit(#[trigger] m@[j]),
        decreases len - k,
    {
        k = k + 1;
    }
    proof {
        lemma_digit_run(m@, 0, k as int);
    }
    if k == 0 {
        return None;
    }
    let int_slice: &[u8] = vstd::slice::slice_subrange(m, 0, k);
    let frac_slice: &[u8] = if k == len {
        vstd::slice::slice_subrange(m, len, len)
    } else {
        if *vstd::slice::slice_index_get(m, k) != 0x2e {
            return None;
        }
        if k + 1 >= len {
            return None;
        }
        let f: &[u8] = vstd::slice::slice_subrange(m, k + 1, len);
        let mut j: usize = 0;
        let flen: usize = f.len();
        while j < flen && is_digit_byte(*vstd::slice::slice_index_get(f, j))
            invariant
                0 <= j <= flen,
                flen == f@.len(),
                forall|i: int| 0 <= i < j ==> is_ascii_digit(#[trigger] f@[i]),
            decreases flen - j,
        {
            j = j + 1;
        }
        if j < flen {
            proof {
                assert(!is_ascii_digit(f@[j as int]));
            }
            return None;
        }
        f
    };
    proof {
        assert(frac_slice@ =~= fraction_text(s@));
        assert(all_digits(frac_slice@));
    }
    let flen: usize = frac_slice.len();
    let prefix_len: usize = if flen > 3 {
        3
    } else {
        flen
    };
    let prefix: &[u8] = vstd::slice::slice_subrange(frac_slice, 0, prefix_len);
    let fm: u64 = if flen == 0 {
        0
    } else {
        proof {
            lemma_small_digits_value(prefix@);
        }
        let pv = match parse_u64(prefix) {
            Some(pv) => pv,
            None => vstd::pervasive::unreached(),
        };
        if flen == 1 {
            proof {
                assert(prefix@ =~= frac_slice@);
            }
            pv * 100
        } else if flen == 2 {
            proof {
                assert(prefix@ =~= frac_slice@);
            }
            pv * 10
        } else {
            proof {
                assert(prefix@ =~= frac_slice@.subrange(0, 3));
            }
            pv
        }
    };
    proof {
        assert(fm == fraction_milli(fraction_text(s@)));
        assert(0 <= fm <= 999) by {
            lemma_small_digits_value(prefix@);
        }
    }
    let bound: u64 = if negative {
        9_223_372_036_854_775_808
    } else {
        9_223_372_036_854_775_807
    };
    let ghost ip = magnitude_text(s@).subrange(0, k as int);
    proof {
        crate::parse::lemma_digits_value_nonneg(ip);
    }
    match parse_u64(int_slice) {
        Some(v) => {
            if v > (bound - fm) / 1000 {
                proof {
                    assert(v * 1000 + fm > bound) by (nonlinear_arith)
                        requires
                            v > (bound - fm) / 1000,
                            0 <= fm <= 999,
                            fm <= bound,
                            0 <= v,
                    ;
                }
                None
            } else {
                proof {
                    assert(v * 1000 + fm <= bound) by (nonlinear_arith)
                        requires
                            v <= (bound - fm) / 1000,
                            0 <= fm <= 999,
                            fm <= bound,
                            0 <= v,
                    ;
                }
                let magnitude: u64 = v * 1000 + fm;
                if negative {
                    Some((-(magnitude as i128)) as i64)
                } else {
                    Some(magnitude as i64)
                }
            }
        },
        None => {
            proof {
                if decimal_text_parses(s@) {
                    assert(digits_value(ip) > u64::MAX);
                    assert(digits_value(ip) * 1000 >= digits_value(ip)) by (nonlinear_arith)
                        requires
                            digits_value(ip) >= 0,
                    ;
                }
            }
            None
        },
    }
}

/// The resolved initial integral value of its configuration line: the
/// decimal value truncated to whole units, or the default where the line
/// does not parse.
pub open spec fn resolved_initial(line: Seq<u8>) -> int {
    if decimal_text_parses(line) && i64::MIN <= decimal_milli_value(line) <= i64::MAX {
        trunc_div_milli(decimal_milli_value(line))
    } else {
        DEFAULT_INITIAL_INTEGRAL as int
    }
}

/// The resolved milli-unit gain of a configuration line: its decimal value
/// where it parses and is representable, otherwise the given default.
pub open spec fn resolved_gain_milli(line: Seq<u8>, default_milli: int) -> int {
    if decimal_text_parses(line) && i32::MIN <= decimal_milli_value(line) <= i32::MAX {
        decimal_milli_value(line)
    } else {
        default_milli
    }
}

/// The resolved target temperature of its configuration line.
pub open spec fn resolved_target(line: Seq<u8>) -> int {
    if int_text_parses(line) && i64::MIN <= int_text_value(line) <= i64::MAX {
        int_text_value(line)
    } else {
        DEFAULT_TARGET_DEGREES as int
    }
}

/// The controller's fully resolved configuration record.
#[derive(Clone, Copy, Debug, PartialEq, Eq, Structural)]
pub struct ControllerConfig {
    /// The integral accumulator's starting value, in whole units.
    pub initial_integral: i64,
    /// The gains and the target temperature.
    pub params: ControlParams,
}

/// Truncates milli-units to whole units, toward zero.
fn milli_to_units(milli: i64) -> (r: i64)
    ensures
        r == trunc_div_milli(milli as int),
{
    if milli >= 0 {
        ((milli as i128) / 1000) as i64
    } else {
        (-((-(milli as i128)) / 1000)) as i64
    }
}

/// Resolves the configuration from the document's lines: the initial
/// integral value, the integral gain, the proportional gain and the target
/// temperature, in that order.  A missing line is a configuration error; a
/// line that does not parse, or holds an unrepresentable value, falls back to
/// its fixed default.
pub fn resolve_config(
    initial_line: Option<&Vec<u8>>,
    k_i_line: Option<&Vec<u8>>,
    k_p_line: Option<&Vec<u8>>,
    target_line: Option<&Vec<u8>>,
) -> (r: Result<ControllerConfig, ConfigurationError>)
    ensures
        r is Ok <==> (initial_line is Some && k_i_line is Some && k_p_line is Some
            && target_line is Some),
        r matches Err(e) ==> e == ConfigurationError::MissingField,
        r matches Ok(c) ==> {
            &&& initial_line matches Some(b) && c.initial_integral == resolved_initial(b@)
            &&& k_i_line matches Some(b) && c.params.k_i_milli == resolved_gain_milli(
                b@,
                DEFAULT_K_I_MILLI as int,
            )
            &&& k_p_line matches Some(b) && c.params.k_p_milli == resolved_gain_milli(
                b@,
                DEFAULT_K_P_MILLI as int,
            )
            &&& target_line matches Some(b) && c.params.target_degrees == resolved_target(b@)
        },
{
    let initial_bytes = match initial_line {
        Some(b) => b,
        None => {
            return Err(ConfigurationError::MissingField);
        },
    };
    let k_i_bytes = match k_i_line {
        Some(b) => b,
        None => {
            return Err(ConfigurationError::MissingField);
        },
    };
    let k_p_bytes = match k_p_line {
        Some(b) => b,
        None => {
            return Err(ConfigurationError::MissingField);
        },
    };
    let target_bytes = match target_line {
        Some(b) => b,
        None => {
            return Err(ConfigurationError::MissingField);
        },
    };
    let initial_integral = match parse_decimal_milli(initial_bytes.as_slice()) {
        Some(milli) => milli_to_units(milli),
        None => DEFAULT_INITIAL_INTEGRAL,
    };
    let k_i_milli = match parse_decimal_milli(k_i_bytes.as_slice()) {
        Some(milli) => {
            if i32::MIN as i64 <= milli && milli <= i32::MAX as i64 {
                milli as i32
            } else {
                DEFAULT_K_I_MILLI
            }
        },
        None => DEFAULT_K_I_MILLI,
    };
    let k_p_milli = match parse_decimal_milli(k_p_bytes.as_slice()) {
        Some(milli) => {
            if i32::MIN as i64 <= milli && milli <= i32::MAX as i64 {
                milli as i32
            } else {
                DEFAULT_K_P_MILLI
            }
        },
        None => DEFAULT_K_P_MILLI,
    };
    let target_degrees = match parse_i64_text(target_bytes.as_slice()) {
        Some(v) => v,
        None => DEFAULT_TARGET_DEGREES,
    };
    Ok(
        ControllerConfig {
            initial_integral,
            params: ControlParams { k_i_milli, k_p_milli, target_degrees },
        },
    )
}

} // verus!

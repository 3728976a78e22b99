//! The computational half of the hardware interface: what a feedback read
//! yields from the file's bytes, and the exact bytes a speed write transmits.
//! Opening, reading and writing the files themselves happens outside the
//! library.

use vstd::prelude::*;
use crate::control::{clamp_speed, clamped_rpm, MAX_ACTUATOR_RPM, MIN_ACTUATOR_RPM};
use crate::errors::HardwareAccessError;
use crate::format::{decimal_digits, format_u64, lemma_decimal_round_trip};
use crate::parse::{
    all_digits, digits_value, is_ascii_digit, is_ascii_space, parse_u64, trim_ascii,
    trim_end_spec, trim_start_spec, trimmed,
};

verus! {

/// The bytes denote a speed: trimmed of surrounding whitespace they are a
/// nonempty run of ASCII digits whose value fits in a `u64`.
pub open spec fn speed_content_parses(content: Seq<u8>) -> bool {
    &&& trimmed(content).len() > 0
    &&& all_digits(trimmed(content))
    &&& digits_value(trimmed(content)) <= u64::MAX
}

/// The speed the bytes denote.
pub open spec fn speed_content_value(content: Seq<u8>) -> int {
    digits_value(trimmed(content))
}

/// Parses the content of the speed-feedback file: the bytes trimmed of
/// surrounding whitespace, read as an ASCII decimal integer.  Feedback is
/// assumed reliable, so an unparsable content is an error, never a fallback.
pub fn parse_feedback_rpm(content: &[u8]) -> (r: Result<u64, HardwareAccessError>)
    ensures
        r is Ok <==> speed_content_parses(content@),
        r matches Ok(v) ==> v == speed_content_value(content@),
        r matches Err(e) ==> e == HardwareAccessError::Unparsable,
{
    let cleaned = trim_ascii(content);
    match parse_u64(cleaned.as_slice()) {
        Some(v) => Ok(v),
        None => Err(HardwareAccessError::Unparsable),
    }
}

/// The exact bytes a speed write transmits for a requested target: the
/// target clamped into the actuator band, in ASCII decimal.
pub open spec fn speed_command_bytes(target: int) -> Seq<u8> {
    decimal_digits(clamped_rpm(target) as nat)
}

/// Builds the text written to the speed-command file: the requested target
/// clamped into the actuator's safe band, formatted as ASCII decimal digits.
pub fn speed_command_text(target: i64) -> (r: (u64, Vec<u8>))
    ensures
        r.0 == clamped_rpm(target as int),
        MIN_ACTUATOR_RPM <= r.0 <= MAX_ACTUATOR_RPM,
        r.1@ == speed_command_bytes(target as int),
{
    let clamped = clamp_speed(target);
    let text = format_u64(clamped);
    (clamped, text)
}

/// The speed write's round trip: the bytes transmitted for any requested
/// target, read back through the feedback parser, yield exactly the clamped
/// value, never anything outside the actuator band.
pub proof fn lemma_command_read_back(target: int)
    ensures
        speed_content_parses(speed_command_bytes(target)),
        speed_content_value(speed_command_bytes(target)) == clamped_rpm(target),
        MIN_ACTUATOR_RPM <= clamped_rpm(target) <= MAX_ACTUATOR_RPM,
{
    lemma_decimal_round_trip(clamped_rpm(target) as nat);
    let s = decimal_digits(clamped_rpm(target) as nat);
    assert(is_ascii_digit(s[0]));
    assert(!is_ascii_space(s[0]));
    assert(trim_start_spec(s) == s);
    assert(is_ascii_digit(s.last()));
    assert(!is_ascii_space(s.last()));
    assert(trim_end_spec(s) == s);
}

} // verus!

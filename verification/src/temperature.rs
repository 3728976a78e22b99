//! Aggregation of the per-sensor temperature files into one reading: each
//! sensor's bytes parse as milli-degrees, an unreadable or unparsable sensor
//! contributes a conservative high fallback instead of aborting the read, and
//! the whole-degree values are averaged.

use vstd::prelude::*;
use crate::parse::{all_digits, digits_value, parse_u64, trim_ascii, trimmed};

verus! {

/// The milli-degree value substituted for a sensor whose file could not be
/// read or parsed, high enough that the loop reacts conservatively.
pub const FALLBACK_MILLIDEGREES: u64 = 100_000;

/// Largest whole-degree value one sensor can contribute.
pub const MAX_SENSOR_DEGREES: u64 = 18_446_744_073_709_551;

/// The bytes of one sensor file denote a milli-degree reading.
pub open spec fn sensor_content_parses(content: Seq<u8>) -> bool {
    &&& trimmed(content).len() > 0
    &&& all_digits(trimmed(content))
    &&& digits_value(trimmed(content)) <= u64::MAX
}

/// The milli-degrees one sensor contributes: its parsed value, or the
/// fallback when the file was unreadable (`None`) or unparsable.
pub open spec fn sensor_millidegrees(content: Option<Seq<u8>>) -> int {
    match content {
        Some(s) => if sensor_content_parses(s) {
            digits_value(trimmed(s))
        } else {
            FALLBACK_MILLIDEGREES as int
        },
        None => FALLBACK_MILLIDEGREES as int,
    }
}

/// The whole degrees one sensor contributes.
pub open spec fn sensor_degrees(content: Option<Seq<u8>>) -> int {
    sensor_millidegrees(content) / 1000
}

/// The sum of the whole-degree contributions of a set of sensor readings.
pub open spec fn sum_degrees(readings: Seq<Option<Seq<u8>>>) -> int
    decreases readings.len(),
{
    if readings.len() == 0 {
        0
    } else {
        sum_degrees(readings.drop_last()) + sensor_degrees(readings.last())
    }
}

/// The aggregate temperature of a set of sensor readings: the arithmetic
/// mean of the whole-degree contributions.
pub open spec fn mean_degrees(readings: Seq<Option<Seq<u8>>>) -> int {
    sum_degrees(readings) / readings.len() as int
}

/// The views of the reading buffers.
pub open spec fn reading_views(readings: Seq<Option<Vec<u8>>>) -> Seq<Option<Seq<u8>>> {
    readings.map_values(
        |r: Option<Vec<u8>>|
            match r {
                Some(v) => Some(v@),
                None => None,
            },
    )
}

/// Each sensor's degree contribution is bounded by the largest `u64`
/// milli-degree value divided down.
proof fn lemma_sensor_degrees_bounds(content: Option<Seq<u8>>)
    ensures
        0 <= sensor_degrees(content) <= MAX_SENSOR_DEGREES,
{
    match content {
        Some(s) => {
            if sensor_content_parses(s) {
                crate::parse::lemma_digits_value_nonneg(trimmed(s));
            }
        },
        None => {},
    }
    let milli = sensor_millidegrees(content);
    assert(0 <= milli <= u64::MAX);
    assert(0 <= milli / 1000 <= MAX_SENSOR_DEGREES) by (nonlinear_arith)
        requires
            0 <= milli <= u64::MAX,
    ;
}

/// Parses one sensor file's bytes as milli-degrees, substituting the
/// fallback when the content is missing or does not parse.
fn sensor_millidegrees_of(content: &Option<Vec<u8>>) -> (r: u64)
    ensures
        r == sensor_millidegrees(
            match *content {
                Some(v) => Some(v@),
                None => None,
            },
        ),
{
    match content {
        Some(bytes) => {
            let cleaned = trim_ascii(bytes.as_slice());
            match parse_u64(cleaned.as_slice()) {
                Some(v) => v,
                None => FALLBACK_MILLIDEGREES,
            }
        },
        None => FALLBACK_MILLIDEGREES,
    }
}

/// Aggregates the per-sensor temperature files into one whole-degree
/// reading: each sensor's milli-degree value (or the fallback where the file
/// was unreadable or unparsable) is converted to whole degrees, and the
/// contributions are averaged.  A single misbehaving sensor thus shifts the
/// mean instead of aborting the read.
pub fn aggregate_temperature(readings: &Vec<Option<Vec<u8>>>) -> (r: i64)
    requires
        readings@.len() > 0,
    ensures
        r == mean_degrees(reading_views(readings@)),
        0 <= r <= MAX_SENSOR_DEGREES,
{
    let ghost views = reading_views(readings@);
    let count: usize = readings.len();
    let mut sum: u128 = 0;
    let mut i: usize = 0;
    while i < count
        invariant
            0 <= i <= count,
            count == readings@.len(),
            views == reading_views(readings@),
            sum == sum_degrees(views.subrange(0, i as int)),
            sum <= (i as int) * (MAX_SENSOR_DEGREES as int),
        decreases count - i,
    {
        let milli = sensor_millidegrees_of(&readings[i]);
        let degrees: u64 = milli / 1000;
        proof {
            assert(views.subrange(0, i as int + 1).drop_last() =~= views.subrange(0, i as int));
            assert(views.subrange(0, i as int + 1).last() == views[i as int]);
            lemma_sensor_degrees_bounds(views[i as int]);
        }
        sum = sum + (degrees as u128);
        i = i + 1;
    }
    proof {
        assert(views.subrange(0, count as int) =~= views);
        assert((sum as int) / (count as int) <= MAX_SENSOR_DEGREES as int) by (nonlinear_arith)
            requires
                0 <= sum as int <= (count as int) * (MAX_SENSOR_DEGREES as int),
                count > 0,
        ;
    }
    let mean: u128 = sum / (count as u128);
    mean as i64
}

} // verus!

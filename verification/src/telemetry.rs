//! Formatting of the periodic telemetry line: the accumulator snapshot, the
//! temperature and the fan speed, each included or left out per
//! configuration.  Writing the line to its sink happens outside the library.

use vstd::prelude::*;
use crate::format::{decimal_digits, decimal_text, format_i64, format_u64};

verus! {

/// Which fields a telemetry line carries.
#[derive(Clone, Copy, Debug, PartialEq, Eq, Structural)]
pub struct TelemetryFields {
    /// Include the integral-accumulator snapshot.
    pub integral: bool,
    /// Include the aggregate temperature, in whole degrees.
    pub temperature: bool,
    /// Include the fan speed, in rotations per minute.
    pub speed: bool,
}

/// The field separator of a telemetry line: a comma and a space.
pub open spec fn separator_bytes() -> Seq<u8> {
    seq![0x2cu8, 0x20u8]
}

/// The unit tag of the temperature field: " deg".
pub open spec fn deg_tag_bytes() -> Seq<u8> {
    seq![0x20u8, 0x64u8, 0x65u8, 0x67u8]
}

/// The unit tag of the speed field: " rpm".
pub open spec fn rpm_tag_bytes() -> Seq<u8> {
    seq![0x20u8, 0x72u8, 0x70u8, 0x6du8]
}

/// The exact bytes of one telemetry line: the enabled fields in a fixed
/// order, separated by a comma and a space, each with its unit tag, ended by
/// a line feed.
pub open spec fn telemetry_line_bytes(
    fields: TelemetryFields,
    integral: int,
    degrees: int,
    rpm: int,
) -> Seq<u8> {
    let first = if fields.integral {
        decimal_text(integral)
    } else {
        Seq::<u8>::empty()
    };
    let second = if fields.temperature {
        let part = decimal_text(degrees) + deg_tag_bytes();
        if fields.integral {
            separator_bytes() + part
        } else {
            part
        }
    } else {
        Seq::<u8>::empty()
    };
    let third = if fields.speed {
        let part = decimal_digits(rpm as nat) + rpm_tag_bytes();
        if fields.integral || fields.temperature {
            separator_bytes() + part
        } else {
            part
        }
    } else {
        Seq::<u8>::empty()
    };
    first + second + third + seq![0x0au8]
}

/// Appends the bytes of `piece` to `line`.
fn append_bytes(line: &mut Vec<u8>, piece: &[u8])
    ensures
        final(line)@ == old(line)@ + piece@,
{
    let count: usize = piece.len();
    let mut j: usize = 0;
    while j < count
        invariant
            0 <= j <= count,
            count == piece@.len(),
            line@ == old(line)@ + piece@.subrange(0, j as int),
        decreases count - j,
    {
        line.push(*vstd::slice::slice_index_get(piece, j));
        j = j + 1;
        proof {
            assert(old(line)@ + piece@.subrange(0, j as int) =~= (old(line)@ + piece@.subrange(
                0,
                j as int - 1,
            )).push(piece@[j as int - 1]));
        }
    }
    proof {
        assert(piece@.subrange(0, count as int) =~= piece@);
    }
}

/// Appends the field separator.
fn push_separator(line: &mut Vec<u8>)
    ensures
        final(line)@ == old(line)@ + separator_bytes(),
{
    line.push(0x2c);
    line.push(0x20);
    proof {
        assert(line@ =~= old(line)@ + separator_bytes());
    }
}

/// Builds one telemetry line from a snapshot of the accumulator and the
/// current sensor readings, with the enabled fields in a fixed order.
pub fn telemetry_line(fields: &TelemetryFields, integral: i64, degrees: i64, rpm: u64) -> (r: Vec<
    u8,
>)
    ensures
        r@ == telemetry_line_bytes(*fields, integral as int, degrees as int, rpm as int),
{
    let mut line: Vec<u8> = Vec::new();
    assert(line@ =~= Seq::<u8>::empty());
    if fields.integral {
        let text = format_i64(integral);
        append_bytes(&mut line, text.as_slice());
    }
    let ghost first_done = line@;
    if fields.temperature {
        if fields.integral {
            push_separator(&mut line);
        }
        let text = format_i64(degrees);
        append_bytes(&mut line, text.as_slice());
        line.push(0x20);
        line.push(0x64);
        line.push(0x65);
        line.push(0x67);
    }
    let ghost second_done = line@;
    if fields.speed {
        if fields.integral || fields.temperature {
            push_separator(&mut line);
        }
        let text = format_u64(rpm);
        append_bytes(&mut line, text.as_slice());
        line.push(0x20);
        line.push(0x72);
        line.push(0x70);
        line.push(0x6d);
    }
    line.push(0x0a);
    proof {
        assert(line@ =~= telemetry_line_bytes(
            *fields,
            integral as int,
            degrees as int,
            rpm as int,
        ));
    }
    line
}

} // verus!

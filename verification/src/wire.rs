//! Integers on the wire: what a run of bytes at a position stands for.

use vstd::prelude::*;
use crate::error::DecodeError;
use crate::profile::{Endian, FieldWidth};

verus! {

/// The 16-bit value of two bytes in the order they are stored.
pub open spec fn word_value(first: u8, second: u8, endian: Endian) -> int {
    match endian {
        Endian::Little => first + 256 * second,
        Endian::Big => 256 * first + second,
    }
}

/// The value of the field of `width` that starts at `at`.
pub open spec fn field_value(bytes: Seq<u8>, at: int, width: FieldWidth, endian: Endian) -> int
    recommends
        0 <= at,
        at + width.spec_bytes() <= bytes.len(),
{
    match width {
        FieldWidth::Byte => bytes[at] as int,
        FieldWidth::Word => word_value(bytes[at], bytes[at + 1], endian),
    }
}

/// The 32-bit value of the four bytes that start at `at`.
pub open spec fn wide_value(bytes: Seq<u8>, at: int, endian: Endian) -> int
    recommends
        0 <= at,
        at + 4 <= bytes.len(),
{
    match endian {
        Endian::Little => bytes[at] + 256 * bytes[at + 1] + 65_536 * bytes[at + 2] + 16_777_216
            * bytes[at + 3],
        Endian::Big => 16_777_216 * bytes[at] + 65_536 * bytes[at + 1] + 256 * bytes[at + 2]
            + bytes[at + 3],
    }
}

/// The values of `count` fields of `width` that follow each other from `at`.
pub open spec fn run_values(
    bytes: Seq<u8>,
    at: int,
    count: nat,
    width: FieldWidth,
    endian: Endian,
) -> Seq<u16> {
    Seq::new(count, |i: int| field_value(bytes, at + i * width.spec_bytes(), width, endian) as u16)
}

/// The failure of a read that needs the buffer to reach `expected` bytes.
pub open spec fn truncated(expected: int, available: nat) -> DecodeError {
    DecodeError::TruncatedInput {
        expected_bytes: expected as u64,
        available_bytes: available as u64,
    }
}

/// What a read of bytes `at` to `end` gives: `value` where the buffer holds
/// them all, and else the truncation that names `end`.
pub open spec fn read_outcome<T>(available: nat, end: int, value: T) -> Result<T, DecodeError> {
    if end <= available {
        Ok(value)
    } else {
        Err(truncated(end, available))
    }
}

/// `u16::from_ne_bytes`: the two bytes read in the byte order of the machine
/// that runs the code. The machine decides which order that is; the value is
/// the one that little-endian or the one that big-endian reading gives.
#[verifier::external_body]
fn native_word(first: u8, second: u8) -> (value: u16)
    ensures
        value == word_value(first, second, Endian::Little) || value == word_value(
            first,
            second,
            Endian::Big,
        ),
{
    u16::from_ne_bytes([first, second])
}

/// The byte order of the machine that runs the decode.
pub fn native_endian() -> Endian {
    probe_endian(native_word(1, 0))
}

/// The byte order that reads the bytes 1, 0 as `probe`: little-endian where
/// they read as 1, big-endian where they read as anything else.
pub open spec fn spec_probe_endian(probe: u16) -> Endian {
    if probe == word_value(1, 0, Endian::Little) {
        Endian::Little
    } else {
        Endian::Big
    }
}

/// Settles a byte order from what the bytes 1, 0 were read as. For a probe
/// that either order can give, the result is the order that gives it.
pub fn probe_endian(probe: u16) -> (endian: Endian)
    ensures
        endian == spec_probe_endian(probe),
        probe == word_value(1, 0, Endian::Little) || probe == word_value(1, 0, Endian::Big)
            ==> word_value(1, 0, endian) == probe,
{
    if probe == 1 {
        Endian::Little
    } else {
        Endian::Big
    }
}

/// The 16-bit value of two bytes in the order they are stored.
pub fn compose_word(first: u8, second: u8, endian: Endian) -> (value: u16)
    ensures
        value == word_value(first, second, endian),
{
    match endian {
        Endian::Little => (second as u16) * 256 + (first as u16),
        Endian::Big => (first as u16) * 256 + (second as u16),
    }
}

/// Reads the field of `width` that starts at `at`.
pub fn read_field(bytes: &[u8], at: u64, width: FieldWidth, endian: Endian) -> (outcome: Result<
    u16,
    DecodeError,
>)
    requires
        at + width.spec_bytes() <= u64::MAX,
    ensures
        outcome == read_outcome(
            bytes@.len(),
            at + width.spec_bytes(),
            field_value(bytes@, at as int, width, endian) as u16,
        ),
        at + width.spec_bytes() <= bytes@.len() ==> outcome->Ok_0 == field_value(
            bytes@,
            at as int,
            width,
            endian,
        ),
{
    let available = bytes.len() as u64;
    let end = at + width.bytes();
    if end > available {
        return Err(DecodeError::TruncatedInput { expected_bytes: end, available_bytes: available });
    }
    let start = at as usize;
    match width {
        FieldWidth::Byte => Ok(bytes[start] as u16),
        FieldWidth::Word => Ok(compose_word(bytes[start], bytes[start + 1], endian)),
    }
}

/// Reads the 32-bit field that starts at `at`.
pub fn read_wide(bytes: &[u8], at: u64, endian: Endian) -> (outcome: Result<u32, DecodeError>)
    requires
        at + 4 <= u64::MAX,
    ensures
        outcome == read_outcome(
            bytes@.len(),
            at + 4,
            wide_value(bytes@, at as int, endian) as u32,
        ),
        at + 4 <= bytes@.len() ==> outcome->Ok_0 == wide_value(bytes@, at as int, endian),
{
    let available = bytes.len() as u64;
    let end = at + 4;
    if end > available {
        return Err(DecodeError::TruncatedInput { expected_bytes: end, available_bytes: available });
    }
    let start = at as usize;
    let b0 = bytes[start] as u32;
    let b1 = bytes[start + 1] as u32;
    let b2 = bytes[start + 2] as u32;
    let b3 = bytes[start + 3] as u32;
    match endian {
        Endian::Little => Ok(b0 + 256 * b1 + 65_536 * b2 + 16_777_216 * b3),
        Endian::Big => Ok(16_777_216 * b0 + 65_536 * b1 + 256 * b2 + b3),
    }
}

/// Reads `count` fields of `width` that follow each other from `at`. The run
/// is read whole or not at all: a buffer that ends inside it is truncated.
pub fn read_run(bytes: &[u8], at: u64, count: u32, width: FieldWidth, endian: Endian) -> (outcome:
    Result<Vec<u16>, DecodeError>)
    requires
        at + count * width.spec_bytes() <= u64::MAX,
    ensures
        match outcome {
            Ok(values) => at + count * width.spec_bytes() <= bytes@.len() && values@
                == run_values(bytes@, at as int, count as nat, width, endian),
            Err(fault) => at + count * width.spec_bytes() > bytes@.len() && fault == truncated(
                at + count * width.spec_bytes(),
                bytes@.len(),
            ),
        },
{
    let available = bytes.len() as u64;
    let size = width.bytes();
    assert(count * size == count * width.spec_bytes());
    let end = at + (count as u64) * size;
    if end > available {
        return Err(DecodeError::TruncatedInput { expected_bytes: end, available_bytes: available });
    }
    let mut values: Vec<u16> = Vec::new();
    let mut index: u32 = 0;
    let mut position: u64 = at;
    while index < count
        invariant
            index <= count,
            size == width.spec_bytes(),
            position == at + index * size,
            at + count * size <= bytes@.len(),
            at + count * size <= u64::MAX,
            values@.len() == index,
            forall|i: int|
                0 <= i < index ==> values@[i] == field_value(
                    bytes@,
                    at + i * size,
                    width,
                    endian,
                ),
        decreases count - index,
    {
        assert(position + size <= at + count * size) by (nonlinear_arith)
            requires
                position == at + index * size,
                index < count,
                size >= 0,
        ;
        let value = match read_field(bytes, position, width, endian) {
            Ok(value) => value,
            Err(fault) => return Err(fault),
        };
        values.push(value);
        assert(at + (index + 1) * size == position + size) by (nonlinear_arith)
            requires
                position == at + index * size,
        ;
        index = index + 1;
        position = position + size;
    }
    assert(values@ =~= run_values(bytes@, at as int, count as nat, width, endian));
    Ok(values)
}

} // verus!

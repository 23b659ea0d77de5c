//! Big-endian integers as they appear on the streaming wire.
//!
//! Every multi-byte field of a market-data frame is a two's-complement
//! integer in network byte order. The spec functions here say what such a
//! field is worth; the executable readers are proved against them.

use byteorder::{BigEndian, ByteOrder};
use vstd::prelude::*;
use vstd::slice::slice_subrange;

verus! {

/// The signed 16-bit value whose big-endian encoding is `b0`, `b1`.
pub open spec fn be_i16(b0: u8, b1: u8) -> i16 {
    let u = b0 as int * 0x100 + b1 as int;
    if u < 0x8000 {
        u as i16
    } else {
        (u - 0x1_0000) as i16
    }
}

/// The signed 32-bit value whose big-endian encoding is `b0`, `b1`, `b2`, `b3`.
pub open spec fn be_i32(b0: u8, b1: u8, b2: u8, b3: u8) -> i32 {
    let u = b0 as int * 0x100_0000 + b1 as int * 0x1_0000 + b2 as int * 0x100 + b3 as int;
    if u < 0x8000_0000 {
        u as i32
    } else {
        (u - 0x1_0000_0000) as i32
    }
}

/// The signed 16-bit field that starts at byte `at` of `bytes`.
pub open spec fn i16_at(bytes: Seq<u8>, at: int) -> i16
    recommends
        0 <= at,
        at + 2 <= bytes.len(),
{
    be_i16(bytes[at], bytes[at + 1])
}

/// The signed 32-bit field that starts at byte `at` of `bytes`.
pub open spec fn i32_at(bytes: Seq<u8>, at: int) -> i32
    recommends
        0 <= at,
        at + 4 <= bytes.len(),
{
    be_i32(bytes[at], bytes[at + 1], bytes[at + 2], bytes[at + 3])
}

/// Trusted: `byteorder::BigEndian::read_i16`.
///
/// The outside function takes the first two bytes of the slice as an unsigned
/// big-endian number and reinterprets it as `i16`; it panics on a slice
/// shorter than two bytes, which the precondition rules out.
#[verifier::external_body]
fn be_read_i16(buf: &[u8]) -> (value: i16)
    requires
        buf@.len() >= 2,
    ensures
        value == be_i16(buf@[0], buf@[1]),
{
    BigEndian::read_i16(buf)
}

/// Trusted: `byteorder::BigEndian::read_i32`.
///
/// The outside function takes the first four bytes of the slice as an
/// unsigned big-endian number and reinterprets it as `i32`; it panics on a
/// slice shorter than four bytes, which the precondition rules out.
#[verifier::external_body]
fn be_read_i32(buf: &[u8]) -> (value: i32)
    requires
        buf@.len() >= 4,
    ensures
        value == be_i32(buf@[0], buf@[1], buf@[2], buf@[3]),
{
    BigEndian::read_i32(buf)
}

/// Reads the signed 16-bit field that starts at byte `at`.
pub fn read_i16_at(bytes: &[u8], at: usize) -> (value: i16)
    requires
        at + 2 <= bytes@.len(),
    ensures
        value == i16_at(bytes@, at as int),
{
    let len = bytes.len();
    assert(at + 2 <= len);
    let field = slice_subrange(bytes, at, at + 2);
    be_read_i16(field)
}

/// Reads the signed 32-bit field that starts at byte `at`.
pub fn read_i32_at(bytes: &[u8], at: usize) -> (value: i32)
    requires
        at + 4 <= bytes@.len(),
    ensures
        value == i32_at(bytes@, at as int),
{
    let len = bytes.len();
    assert(at + 4 <= len);
    let field = slice_subrange(bytes, at, at + 4);
    be_read_i32(field)
}

/// Byte `index` of the big-endian encoding of `value`, byte 0 being the most
/// significant of the two.
pub open spec fn i16_byte(value: i16, index: int) -> u8 {
    let u = if value < 0 {
        value + 0x1_0000
    } else {
        value as int
    };
    if index == 0 {
        (u / 0x100) as u8
    } else {
        (u % 0x100) as u8
    }
}

/// Byte `index` of the big-endian encoding of `value`, byte 0 being the most
/// significant of the four.
pub open spec fn i32_byte(value: i32, index: int) -> u8 {
    let u = if value < 0 {
        value + 0x1_0000_0000
    } else {
        value as int
    };
    if index == 0 {
        (u / 0x100_0000) as u8
    } else if index == 1 {
        (u / 0x1_0000 % 0x100) as u8
    } else if index == 2 {
        (u / 0x100 % 0x100) as u8
    } else {
        (u % 0x100) as u8
    }
}

/// The big-endian encoding of a 16-bit value.
pub open spec fn i16_bytes(value: i16) -> Seq<u8> {
    seq![i16_byte(value, 0), i16_byte(value, 1)]
}

/// The big-endian encoding of a run of 32-bit values, one after the other.
pub open spec fn i32_words(values: Seq<i32>) -> Seq<u8> {
    Seq::new(4 * values.len(), |i: int| i32_byte(values[i / 4], i % 4))
}

/// Reading a 16-bit value back from its encoding gives the value.
pub proof fn lemma_i16_round_trip(value: i16)
    ensures
        be_i16(i16_byte(value, 0), i16_byte(value, 1)) == value,
{
}

/// Reading a 32-bit value back from its encoding gives the value.
pub proof fn lemma_i32_round_trip(value: i32)
    ensures
        be_i32(i32_byte(value, 0), i32_byte(value, 1), i32_byte(value, 2), i32_byte(value, 3))
            == value,
{
}

} // verus!

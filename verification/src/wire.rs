//! Wire readings in plain arithmetic: the value of a run of little-endian
//! bytes and the bits of a byte, written with sums, quotients and
//! remainders. The record layouts are stated over these, and the lemmas here
//! tie them to the byte helpers that the parsers use.
use vstd::prelude::*;

use crate::utils::{
    as_i16, as_i32, as_i64, as_i8, le_u16, le_u32, le_u64, spec_sub_byte_field,
    trailing_zero_count,
};

verus! {

/// The unsigned value of the `n` little-endian bytes of `b` from `off` on.
pub open spec fn le_bytes(b: Seq<u8>, off: int, n: nat) -> int
    decreases n,
{
    if n == 0 {
        0
    } else {
        b[off] as int + 256 * le_bytes(b, off + 1, (n - 1) as nat)
    }
}

/// The two's-complement value of the byte at `off`.
pub open spec fn le_signed8(b: Seq<u8>, off: int) -> int {
    if b[off] < 0x80 {
        b[off] as int
    } else {
        b[off] as int - 0x100
    }
}

/// The two's-complement value of the two little-endian bytes at `off`.
pub open spec fn le_signed16(b: Seq<u8>, off: int) -> int {
    let v = le_bytes(b, off, 2);
    if v < 0x8000 {
        v
    } else {
        v - 0x1_0000
    }
}

/// The two's-complement value of the four little-endian bytes at `off`.
pub open spec fn le_signed32(b: Seq<u8>, off: int) -> int {
    let v = le_bytes(b, off, 4);
    if v < 0x8000_0000 {
        v
    } else {
        v - 0x1_0000_0000
    }
}

/// The two's-complement value of the eight little-endian bytes at `off`.
pub open spec fn le_signed64(b: Seq<u8>, off: int) -> int {
    let v = le_bytes(b, off, 8);
    if v < 0x8000_0000_0000_0000 {
        v
    } else {
        v - 0x1_0000_0000_0000_0000
    }
}

/// `le_bytes` is below 256 to the power of its length.
proof fn lemma_le_bytes_bounds(b: Seq<u8>, off: int)
    requires
        0 <= off,
        off + 8 <= b.len(),
    ensures
        0 <= le_bytes(b, off, 2) < 0x1_0000,
        0 <= le_bytes(b, off, 4) < 0x1_0000_0000,
        0 <= le_bytes(b, off, 8) < 0x1_0000_0000_0000_0000,
        le_bytes(b, off, 4) == le_bytes(b, off, 2) + 0x1_0000 * le_bytes(b, off + 2, 2),
        le_bytes(b, off, 8) == le_bytes(b, off, 4) + 0x1_0000_0000 * le_bytes(b, off + 4, 4),
{
    reveal_with_fuel(le_bytes, 9);
}

/// The 16-bit readers give the value of two little-endian bytes.
pub proof fn lemma_le_16(b: Seq<u8>, off: int)
    requires
        0 <= off,
        off + 2 <= b.len(),
    ensures
        le_u16(b, off) as int == le_bytes(b, off, 2),
        as_i16(le_u16(b, off)) as int == le_signed16(b, off),
{
    reveal_with_fuel(le_bytes, 3);
}

/// The 32-bit readers give the value of four little-endian bytes.
pub proof fn lemma_le_32(b: Seq<u8>, off: int)
    requires
        0 <= off,
        off + 4 <= b.len(),
    ensures
        le_u32(b, off) as int == le_bytes(b, off, 4),
        as_i32(le_u32(b, off)) as int == le_signed32(b, off),
{
    reveal_with_fuel(le_bytes, 5);
    lemma_le_16(b, off);
    lemma_le_16(b, off + 2);
}

/// The 64-bit readers give the value of eight little-endian bytes.
pub proof fn lemma_le_64(b: Seq<u8>, off: int)
    requires
        0 <= off,
        off + 8 <= b.len(),
    ensures
        le_u64(b, off) as int == le_bytes(b, off, 8),
        as_i64(le_u64(b, off)) as int == le_signed64(b, off),
{
    lemma_le_bytes_bounds(b, off);
    lemma_le_32(b, off);
    lemma_le_32(b, off + 4);
    lemma_le_bytes_bounds(b, off);
}

/// The signed byte reader gives the two's-complement value of a byte.
pub proof fn lemma_le_8(b: Seq<u8>, off: int)
    requires
        0 <= off < b.len(),
    ensures
        as_i8(b[off]) as int == le_signed8(b, off),
{
}

/// Each bit field that the record layouts use is the quotient of the byte by
/// the field's lowest bit, modulo the field's width.
pub proof fn lemma_sub_byte_fields(x: u8)
    ensures
        spec_sub_byte_field(x, 0x01) == x % 2,
        spec_sub_byte_field(x, 0x02) == (x / 2) % 2,
        spec_sub_byte_field(x, 0x04) == (x / 4) % 2,
        spec_sub_byte_field(x, 0x08) == (x / 8) % 2,
        spec_sub_byte_field(x, 0x10) == (x / 16) % 2,
        spec_sub_byte_field(x, 0x20) == (x / 32) % 2,
        spec_sub_byte_field(x, 0x40) == (x / 64) % 2,
        spec_sub_byte_field(x, 0x80) == x / 128,
        spec_sub_byte_field(x, 0x03) == x % 4,
        spec_sub_byte_field(x, 0x06) == (x / 2) % 4,
        spec_sub_byte_field(x, 0x07) == x % 8,
        spec_sub_byte_field(x, 0x0E) == (x / 2) % 8,
        spec_sub_byte_field(x, 0x0F) == x % 16,
        spec_sub_byte_field(x, 0x30) == (x / 16) % 4,
        spec_sub_byte_field(x, 0x38) == (x / 8) % 8,
        spec_sub_byte_field(x, 0x3C) == (x / 4) % 16,
        spec_sub_byte_field(x, 0x3E) == (x / 2) % 32,
        spec_sub_byte_field(x, 0x60) == (x / 32) % 4,
        spec_sub_byte_field(x, 0x7F) == x % 128,
        spec_sub_byte_field(x, 0xC0) == x / 64,
        spec_sub_byte_field(x, 0xE0) == x / 32,
        spec_sub_byte_field(x, 0xFE) == x / 2,
{
    reveal(spec_sub_byte_field);
    assert(
        (x & 0x01) >> trailing_zero_count(0x01) == x % 2
        && (x & 0x02) >> trailing_zero_count(0x02) == (x / 2) % 2
        && (x & 0x04) >> trailing_zero_count(0x04) == (x / 4) % 2
        && (x & 0x08) >> trailing_zero_count(0x08) == (x / 8) % 2
        && (x & 0x10) >> trailing_zero_count(0x10) == (x / 16) % 2
        && (x & 0x20) >> trailing_zero_count(0x20) == (x / 32) % 2
        && (x & 0x40) >> trailing_zero_count(0x40) == (x / 64) % 2
        && (x & 0x80) >> trailing_zero_count(0x80) == x / 128
        && (x & 0x03) >> trailing_zero_count(0x03) == x % 4
        && (x & 0x06) >> trailing_zero_count(0x06) == (x / 2) % 4
        && (x & 0x07) >> trailing_zero_count(0x07) == x % 8
        && (x & 0x0E) >> trailing_zero_count(0x0E) == (x / 2) % 8
        && (x & 0x0F) >> trailing_zero_count(0x0F) == x % 16
        && (x & 0x30) >> trailing_zero_count(0x30) == (x / 16) % 4
        && (x & 0x38) >> trailing_zero_count(0x38) == (x / 8) % 8
        && (x & 0x3C) >> trailing_zero_count(0x3C) == (x / 4) % 16
        && (x & 0x3E) >> trailing_zero_count(0x3E) == (x / 2) % 32
        && (x & 0x60) >> trailing_zero_count(0x60) == (x / 32) % 4
        && (x & 0x7F) >> trailing_zero_count(0x7F) == x % 128
        && (x & 0xC0) >> trailing_zero_count(0xC0) == x / 64
        && (x & 0xE0) >> trailing_zero_count(0xE0) == x / 32
        && (x & 0xFE) >> trailing_zero_count(0xFE) == x / 2
    ) by (bit_vector);
}

} // verus!

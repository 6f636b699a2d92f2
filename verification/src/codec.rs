//! Byte-order decoding of fixed-size unsigned integers.
//!
//! Values are assembled from individual bytes, one function per supported
//! width, in the source's declared order (little-endian) or byte-swapped
//! (big-endian). Misapplying a byte swap to a non-integer value is impossible
//! by construction: only these widths exist.

use vstd::prelude::*;

verus! {

/// The value of two bytes read in little-endian order.
pub open spec fn le_u16(b0: u8, b1: u8) -> u16 {
    (b0 + b1 * 0x100) as u16
}

/// The value of two bytes read in big-endian order.
pub open spec fn be_u16(b0: u8, b1: u8) -> u16 {
    (b0 * 0x100 + b1) as u16
}

/// The value of four bytes read in little-endian order.
pub open spec fn le_u32(b0: u8, b1: u8, b2: u8, b3: u8) -> u32 {
    (b0 + b1 * 0x100 + b2 * 0x1_0000 + b3 * 0x100_0000) as u32
}

/// The value of four bytes read in big-endian order.
pub open spec fn be_u32(b0: u8, b1: u8, b2: u8, b3: u8) -> u32 {
    (b0 * 0x100_0000 + b1 * 0x1_0000 + b2 * 0x100 + b3) as u32
}

/// The value of eight bytes read in little-endian order.
pub open spec fn le_u64(s: Seq<u8>) -> u64
    recommends
        s.len() == 8,
{
    (s[0] + s[1] * 0x100 + s[2] * 0x1_0000 + s[3] * 0x100_0000 + s[4] * 0x1_0000_0000
        + s[5] * 0x100_0000_0000 + s[6] * 0x1_0000_0000_0000 + s[7] * 0x100_0000_0000_0000) as u64
}

/// The value of eight bytes read in big-endian order.
pub open spec fn be_u64(s: Seq<u8>) -> u64
    recommends
        s.len() == 8,
{
    (s[7] + s[6] * 0x100 + s[5] * 0x1_0000 + s[4] * 0x100_0000 + s[3] * 0x1_0000_0000
        + s[2] * 0x100_0000_0000 + s[1] * 0x1_0000_0000_0000 + s[0] * 0x100_0000_0000_0000) as u64
}

/// Assemble a `u16` from two little-endian bytes.
pub fn u16_from_le(b0: u8, b1: u8) -> (v: u16)
    ensures
        v == le_u16(b0, b1),
{
    b0 as u16 + b1 as u16 * 0x100
}

/// Assemble a `u16` from two big-endian bytes.
pub fn u16_from_be(b0: u8, b1: u8) -> (v: u16)
    ensures
        v == be_u16(b0, b1),
{
    b0 as u16 * 0x100 + b1 as u16
}

/// Assemble a `u32` from four little-endian bytes.
pub fn u32_from_le(b: &[u8; 4]) -> (v: u32)
    ensures
        v == le_u32(b[0], b[1], b[2], b[3]),
{
    b[0] as u32 + b[1] as u32 * 0x100 + b[2] as u32 * 0x1_0000 + b[3] as u32 * 0x100_0000
}

/// Assemble a `u32` from four big-endian bytes.
pub fn u32_from_be(b: &[u8; 4]) -> (v: u32)
    ensures
        v == be_u32(b[0], b[1], b[2], b[3]),
{
    b[0] as u32 * 0x100_0000 + b[1] as u32 * 0x1_0000 + b[2] as u32 * 0x100 + b[3] as u32
}

/// Assemble a `u64` from eight little-endian bytes.
pub fn u64_from_le(b: &[u8; 8]) -> (v: u64)
    ensures
        v == le_u64(b@),
{
    b[0] as u64 + b[1] as u64 * 0x100 + b[2] as u64 * 0x1_0000 + b[3] as u64 * 0x100_0000
        + b[4] as u64 * 0x1_0000_0000 + b[5] as u64 * 0x100_0000_0000
        + b[6] as u64 * 0x1_0000_0000_0000 + b[7] as u64 * 0x100_0000_0000_0000
}

/// Assemble a `u64` from eight big-endian bytes.
pub fn u64_from_be(b: &[u8; 8]) -> (v: u64)
    ensures
        v == be_u64(b@),
{
    b[7] as u64 + b[6] as u64 * 0x100 + b[5] as u64 * 0x1_0000 + b[4] as u64 * 0x100_0000
        + b[3] as u64 * 0x1_0000_0000 + b[2] as u64 * 0x100_0000_0000
        + b[1] as u64 * 0x1_0000_0000_0000 + b[0] as u64 * 0x100_0000_0000_0000
}

/// Byte-order correctness: for every supported width, a big-endian read of a
/// byte sequence yields the same value as a little-endian read of the
/// reversed sequence.
pub proof fn lemma_byte_order(b0: u8, b1: u8, b2: u8, b3: u8, s: Seq<u8>)
    requires
        s.len() == 8,
    ensures
        be_u16(b0, b1) == le_u16(b1, b0),
        be_u32(b0, b1, b2, b3) == le_u32(b3, b2, b1, b0),
        be_u64(s) == le_u64(s.reverse()),
{
    assert(s.reverse().len() == 8);
    assert(forall|i: int| 0 <= i < 8 ==> s.reverse()[i] == s[7 - i]);
}

} // verus!

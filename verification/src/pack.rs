//! Bit-packing of two 32-bit vector components into one 64-bit payload.
//!
//! The host's calling convention carries single numeric values only, so a
//! two-component vector is transported as one 64-bit pattern: the raw bits of
//! the first component in the high 32 bits, the raw bits of the second in the
//! low 32 bits.  This is a bit reinterpretation, not an arithmetic
//! combination: it is a stateless, lossless bijection between a pair of
//! 32-bit patterns and one 64-bit pattern, and the host must apply the
//! matching inverse split.  Floating-point components cross this module as
//! their raw bit patterns, which keeps the round trip exact for every
//! pattern, NaN payloads, infinities, signed zeros and subnormals included.

use vstd::prelude::*;

verus! {

/// A two-component vector carried as the raw bit patterns of its components.
#[derive(Clone, Copy, PartialEq, Eq, Structural, Debug)]
pub struct VectorBits {
    /// Raw bit pattern of the first (x) component.
    pub x: u32,
    /// Raw bit pattern of the second (y) component.
    pub y: u32,
}

/// The packed payload: first component's bits high, second component's bits
/// low.
pub open spec fn spec_pack(first: u32, second: u32) -> u64 {
    ((first as u64) << 32) | (second as u64)
}

/// The high half of a payload: the first component's bit pattern.
pub open spec fn spec_unpack_first(v: u64) -> u32 {
    (v >> 32) as u32
}

/// The low half of a payload: the second component's bit pattern.
pub open spec fn spec_unpack_second(v: u64) -> u32 {
    (v & 0xFFFF_FFFF) as u32
}

/// Packing is exact: splitting a packed payload returns the two component
/// patterns it was built from, for every pair of 32-bit patterns.
pub proof fn lemma_pack_roundtrip(first: u32, second: u32)
    ensures
        spec_unpack_first(spec_pack(first, second)) == first,
        spec_unpack_second(spec_pack(first, second)) == second,
{
    assert(((((first as u64) << 32) | (second as u64)) >> 32) as u32 == first) by (bit_vector);
    assert(((((first as u64) << 32) | (second as u64)) & 0xFFFF_FFFF) as u32 == second)
        by (bit_vector);
}

/// Packing is onto: every 64-bit payload is the packed form of its two
/// halves, so packing and splitting are a bijection.
pub proof fn lemma_unpack_roundtrip(v: u64)
    ensures
        spec_pack(spec_unpack_first(v), spec_unpack_second(v)) == v,
{
    assert(((((v >> 32) as u32) as u64) << 32) | (((v & 0xFFFF_FFFF) as u32) as u64) == v)
        by (bit_vector);
}

/// Combine two component bit patterns into the single payload handed to the
/// host.  Pure and total: no failure path.
pub fn pack(first: u32, second: u32) -> (r: u64)
    ensures
        r == spec_pack(first, second),
{
    ((first as u64) << 32) | (second as u64)
}

/// Split a payload back into the two component bit patterns it carries.
/// This is the inverse the host applies on its side of the boundary.
pub fn unpack(v: u64) -> (r: (u32, u32))
    ensures
        r.0 == spec_unpack_first(v),
        r.1 == spec_unpack_second(v),
        spec_pack(r.0, r.1) == v,
{
    proof {
        lemma_unpack_roundtrip(v);
    }
    ((v >> 32) as u32, (v & 0xFFFF_FFFF) as u32)
}

} // verus!

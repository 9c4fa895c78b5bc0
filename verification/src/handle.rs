//! Flattening of structured entity handles into single numeric identifiers.
//!
//! The allocator that owns colliders and rigid bodies identifies each entity
//! by a slot index together with a generation counter.  The host's calling
//! convention only carries single numeric values, so both halves are combined
//! into one 64-bit value with the generation in the high 32 bits and the
//! index in the low 32 bits.  The layout is a bijection: no two distinct
//! handles share a flattened value, and the original handle can always be
//! recovered.

use vstd::prelude::*;

verus! {

/// A structured entity handle: the raw parts of a collider or rigid-body
/// identifier as the allocator hands them out.
#[derive(Clone, Copy, PartialEq, Eq, Structural, Debug)]
pub struct EntityHandle {
    /// Slot index of the entity in the allocator's arena.
    pub index: u32,
    /// Generation counter distinguishing reuses of the same slot.
    pub generation: u32,
}

/// The flattened form of a handle: generation in the high 32 bits, index in
/// the low 32 bits.
pub open spec fn spec_flatten(h: EntityHandle) -> u64 {
    ((h.generation as u64) << 32) | (h.index as u64)
}

/// The inverse of [`spec_flatten`]: split a 64-bit value back into its two
/// 32-bit halves.
pub open spec fn spec_unflatten(v: u64) -> EntityHandle {
    EntityHandle { index: (v & 0xFFFF_FFFF) as u32, generation: (v >> 32) as u32 }
}

/// Flattening inverts: decoding a flattened handle yields the handle it was
/// made from, so flattening never conflates two distinct handles.
pub proof fn lemma_flatten_roundtrip(h: EntityHandle)
    ensures
        spec_unflatten(spec_flatten(h)) == h,
{
    let g = h.generation;
    let i = h.index;
    assert(((((g as u64) << 32) | (i as u64)) & 0xFFFF_FFFF) as u32 == i) by (bit_vector);
    assert(((((g as u64) << 32) | (i as u64)) >> 32) as u32 == g) by (bit_vector);
}

/// Flattening is injective on handles: equal flattened values can only come
/// from equal handles.
pub proof fn lemma_flatten_injective(h1: EntityHandle, h2: EntityHandle)
    ensures
        spec_flatten(h1) == spec_flatten(h2) ==> h1 == h2,
{
    lemma_flatten_roundtrip(h1);
    lemma_flatten_roundtrip(h2);
}

/// Combine a handle's index and generation into the single numeric identifier
/// handed to the host.  Total and deterministic: no failure path.
pub fn flatten(h: EntityHandle) -> (r: u64)
    ensures
        r == spec_flatten(h),
{
    ((h.generation as u64) << 32) | (h.index as u64)
}

/// Recover a handle from its flattened identifier.  This is the decoding the
/// allocator applies on its side of the boundary; it exactly inverts
/// [`flatten`].
pub fn unflatten(v: u64) -> (r: EntityHandle)
    ensures
        r == spec_unflatten(v),
        spec_flatten(r) == v,
{
    proof {
        assert(((((v >> 32) as u32) as u64) << 32) | (((v & 0xFFFF_FFFF) as u32) as u64) == v)
            by (bit_vector);
        assert((((v >> 32) as u32) as u64) << 32 == (v >> 32) << 32) by (bit_vector);
    }
    EntityHandle { index: (v & 0xFFFF_FFFF) as u32, generation: (v >> 32) as u32 }
}

} // verus!

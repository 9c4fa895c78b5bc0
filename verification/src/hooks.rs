//! The three per-pair decision hooks: encoding of their inputs for the host,
//! and interpretation of the host's answers into pipeline decisions.
//!
//! Once per candidate pair and per step the simulation core asks the host
//! whether a colliding pair gets contact response (contact pair filter),
//! whether a sensor overlap is reported (intersection pair filter), and
//! whether the solver contacts prepared for a pair are kept or discarded
//! (solver contact modifier).  The integration layer owns the host's bound
//! callables and performs the actual calls; it reports each call's outcome
//! back here as a plain value, `None` standing for every way the call can
//! fail (slot unresolvable, host raised, return value of the wrong type).
//!
//! The fallback policies differ on purpose and must not be unified: the two
//! filters fail closed (a pair collides, or an overlap is reported, only on
//! an explicit, successful, well-typed host decision), while the modifier
//! fails open (solver contacts the native pipeline already computed are only
//! discarded on an explicit, successful `false`).

use vstd::prelude::*;

use crate::handle::EntityHandle;
use crate::handle::spec_flatten;
use crate::handle::flatten;
use crate::pack::VectorBits;
use crate::pack::spec_pack;
use crate::pack::pack;

verus! {

/// The one solver-flags bit the constraint solver understands: compute
/// impulses between two rigid colliders.
pub const SOLVER_FLAG_COMPUTE_RIGID_IMPULSES: u32 = 0b001;

/// A bitmask is a valid solver-flags value when it holds no bit outside the
/// defined flags.
pub open spec fn spec_valid_solver_flags(bits: u32) -> bool {
    bits & !SOLVER_FLAG_COMPUTE_RIGID_IMPULSES == 0
}

/// What the simulation step knows about a candidate pair when a filter hook
/// runs: the two colliders, and the rigid body attached to each collider,
/// absent when a collider has none.
#[derive(Clone, Copy, Debug)]
pub struct PairFilterInput {
    /// Handle of the first collider of the pair.
    pub collider1: EntityHandle,
    /// Handle of the second collider of the pair.
    pub collider2: EntityHandle,
    /// Handle of the rigid body attached to the first collider, if any.
    pub rigid_body1: Option<EntityHandle>,
    /// Handle of the rigid body attached to the second collider, if any.
    pub rigid_body2: Option<EntityHandle>,
}

/// The values a filter hook call hands to the host: each handle flattened to
/// one number, an absent rigid body kept as an explicit "no value" and never
/// as a numeric sentinel that could alias a real identifier.
#[derive(Clone, Copy, Debug)]
pub struct HostPairArgs {
    /// Flattened identifier of the first collider.
    pub collider1: u64,
    /// Flattened identifier of the second collider.
    pub collider2: u64,
    /// Flattened identifier of the first rigid body, or "no value".
    pub rigid_body1: Option<u64>,
    /// Flattened identifier of the second rigid body, or "no value".
    pub rigid_body2: Option<u64>,
}

/// Flattening lifted to an optional handle: absence is preserved, never
/// encoded as a number.
pub open spec fn spec_flatten_opt(h: Option<EntityHandle>) -> Option<u64> {
    match h {
        Some(handle) => Some(spec_flatten(handle)),
        None => None,
    }
}

/// The encoding of a pair's identifiers for either filter hook.
pub open spec fn spec_pair_args(input: PairFilterInput) -> HostPairArgs {
    HostPairArgs {
        collider1: spec_flatten(input.collider1),
        collider2: spec_flatten(input.collider2),
        rigid_body1: spec_flatten_opt(input.rigid_body1),
        rigid_body2: spec_flatten_opt(input.rigid_body2),
    }
}

/// Encode a pair's identifiers for a filter hook call.  Both filters share
/// this shape.  A collider with no attached rigid body is encoded as the
/// explicit "no value" marker.
pub fn encode_pair_args(input: &PairFilterInput) -> (r: HostPairArgs)
    ensures
        r == spec_pair_args(*input),
        input.rigid_body1 is None ==> r.rigid_body1 is None,
        input.rigid_body2 is None ==> r.rigid_body2 is None,
{
    let rigid_body1 = match input.rigid_body1 {
        Some(handle) => Some(flatten(handle)),
        None => None,
    };
    let rigid_body2 = match input.rigid_body2 {
        Some(handle) => Some(flatten(handle)),
        None => None,
    };
    HostPairArgs {
        collider1: flatten(input.collider1),
        collider2: flatten(input.collider2),
        rigid_body1,
        rigid_body2,
    }
}

/// Turn the host's answer to a contact pair filter call into the pipeline
/// decision: `None` rejects the pair entirely, `Some(bits)` accepts it with
/// those solver flags.
///
/// The answer is `None` whenever the call could not be completed (slot
/// unresolvable, host raised, non-numeric return), and `Some(bits)` when the
/// host returned a number, truncated to a 32-bit bitmask.  The policy is
/// fail-closed: contact response requires an explicit, successful, well-typed
/// host decision, so a failed call and a bitmask holding undefined flag bits
/// both reject the pair.
pub fn interpret_pair_filter_answer(answer: Option<u32>) -> (r: Option<u32>)
    ensures
        answer is None ==> r is None,
        answer matches Some(bits) ==> r == (if spec_valid_solver_flags(bits) {
            Some(bits)
        } else {
            None::<u32>
        }),
        r matches Some(bits) ==> spec_valid_solver_flags(bits),
{
    match answer {
        None => None,
        Some(bits) => {
            if bits & !SOLVER_FLAG_COMPUTE_RIGID_IMPULSES == 0 {
                Some(bits)
            } else {
                None
            }
        },
    }
}

/// Turn the host's answer to an intersection pair filter call into the
/// pipeline decision: is the sensor overlap reported?
///
/// The answer is `None` whenever the call could not be completed or the
/// return value was not interpretable as a boolean.  The policy is
/// fail-closed: the overlap is reported only on an explicit, successful
/// `true`.
pub fn interpret_intersection_answer(answer: Option<bool>) -> (r: bool)
    ensures
        r == (answer == Some(true)),
        answer is None ==> !r,
{
    match answer {
        Some(b) => b,
        None => false,
    }
}

/// What the simulation step knows about a pair when the solver contact
/// modifier runs: the two colliders, the contact normal, and the solver
/// contact points prepared for the pair, in order, as component bit
/// patterns.
#[derive(Debug)]
pub struct ContactModificationInput {
    /// Handle of the first collider of the pair.
    pub collider1: EntityHandle,
    /// Handle of the second collider of the pair.
    pub collider2: EntityHandle,
    /// The pair's contact normal.
    pub normal: VectorBits,
    /// The position of each solver contact of the pair, in solver order.
    pub points: Vec<VectorBits>,
}

/// The values a modifier hook call hands to the host: the two flattened
/// collider identifiers, and three packed payloads carrying the normal and
/// the first two representative contact points.
#[derive(Clone, Copy, Debug)]
pub struct HostModifierArgs {
    /// Flattened identifier of the first collider.
    pub collider1: u64,
    /// Flattened identifier of the second collider.
    pub collider2: u64,
    /// The contact normal's two components, packed into one payload.
    pub normal: u64,
    /// The first solver contact point, packed; the origin when the pair has
    /// no solver contact.
    pub point1: u64,
    /// The second solver contact point, packed; the origin when the pair has
    /// fewer than two solver contacts.
    pub point2: u64,
}

/// The payload for the solver contact point at `i`: the point's packed
/// components, or the packed origin when fewer than `i + 1` contacts exist.
pub open spec fn spec_point_payload(points: Seq<VectorBits>, i: int) -> u64 {
    if i < points.len() {
        spec_pack(points[i].x, points[i].y)
    } else {
        spec_pack(0, 0)
    }
}

/// The encoding of a pair's geometry for the modifier hook.
pub open spec fn spec_modifier_args(input: ContactModificationInput) -> HostModifierArgs {
    HostModifierArgs {
        collider1: spec_flatten(input.collider1),
        collider2: spec_flatten(input.collider2),
        normal: spec_pack(input.normal.x, input.normal.y),
        point1: spec_point_payload(input.points@, 0),
        point2: spec_point_payload(input.points@, 1),
    }
}

/// Encode a pair's identifiers and geometry for the modifier hook call.
/// Each absent representative point defaults to the origin, whose components
/// have the all-zero bit pattern.
pub fn encode_modifier_args(input: &ContactModificationInput) -> (r: HostModifierArgs)
    ensures
        r == spec_modifier_args(*input),
{
    let origin = VectorBits { x: 0, y: 0 };
    let point1 = if input.points.len() >= 1 {
        input.points[0]
    } else {
        origin
    };
    let point2 = if input.points.len() >= 2 {
        input.points[1]
    } else {
        origin
    };
    HostModifierArgs {
        collider1: flatten(input.collider1),
        collider2: flatten(input.collider2),
        normal: pack(input.normal.x, input.normal.y),
        point1: pack(point1.x, point1.y),
        point2: pack(point2.x, point2.y),
    }
}

/// The first move of a modifier hook invocation: either skip without any
/// host call, or call the host with the encoded payload.
#[derive(Clone, Copy, Debug)]
pub enum ModifierStep {
    /// The modifier slot holds no callable: return immediately, without a
    /// host call and without touching the solver contacts.
    SkipInactive,
    /// The modifier slot is bound: call the host with these values.
    CallHost(HostModifierArgs),
}

/// Decide how a modifier hook invocation starts.  When the host declined to
/// install the modifier (`hook_bound` false), no host call is made and the
/// solver contacts stay untouched — a deliberate fast path that avoids the
/// marshaling cost.  Otherwise the host is called with the encoded payload.
pub fn begin_modify_solver_contacts(hook_bound: bool, input: &ContactModificationInput) -> (r:
    ModifierStep)
    ensures
        !hook_bound ==> r is SkipInactive,
        hook_bound ==> r == ModifierStep::CallHost(spec_modifier_args(*input)),
{
    if hook_bound {
        ModifierStep::CallHost(encode_modifier_args(input))
    } else {
        ModifierStep::SkipInactive
    }
}

/// Turn the host's answer to a modifier call into the "keep contacts"
/// decision.
///
/// The answer is `None` whenever the call could not be completed or the
/// return value was not interpretable as a boolean.  The policy is
/// fail-open, the opposite of the filters': the physically-computed solver
/// contacts are kept unless the host explicitly and successfully answered
/// `false`.
pub fn modifier_keeps_contacts(answer: Option<bool>) -> (r: bool)
    ensures
        r == (answer != Some(false)),
        answer is None ==> r,
{
    match answer {
        Some(false) => false,
        _ => true,
    }
}

/// Apply the host's modifier answer to a pair's solver-contacts collection:
/// an explicit, successful `false` vetoes the pair and clears the whole
/// collection, regardless of its prior size; every other answer — `true`, or
/// any failed call — leaves the collection exactly as the native pipeline
/// computed it.  Full clearing is the only mutation; no partial edit exists.
pub fn apply_modifier_answer<T>(contacts: &mut Vec<T>, answer: Option<bool>)
    ensures
        answer != Some(false) ==> final(contacts)@ == old(contacts)@,
        answer == Some(false) ==> final(contacts)@.len() == 0,
{
    if !modifier_keeps_contacts(answer) {
        contacts.clear();
    }
}

} // verus!

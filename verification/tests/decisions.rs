//! Tests for the three hook decision points: encoding, answer
//! interpretation, and the fallback policies.

use hook_bridge::handle::{flatten, EntityHandle};
use hook_bridge::hooks::{
    apply_modifier_answer, begin_modify_solver_contacts, encode_modifier_args, encode_pair_args,
    interpret_intersection_answer, interpret_pair_filter_answer, modifier_keeps_contacts,
    ContactModificationInput, ModifierStep, PairFilterInput, SOLVER_FLAG_COMPUTE_RIGID_IMPULSES,
};
use hook_bridge::pack::{pack, VectorBits};
use rapier2d::geometry::SolverFlags;

fn pair_input(
    c1: EntityHandle,
    c2: EntityHandle,
    rb1: Option<EntityHandle>,
    rb2: Option<EntityHandle>,
) -> PairFilterInput {
    PairFilterInput { collider1: c1, collider2: c2, rigid_body1: rb1, rigid_body2: rb2 }
}

fn handle(index: u32, generation: u32) -> EntityHandle {
    EntityHandle { index, generation }
}

#[test]
fn absent_rigid_bodies_encode_to_no_value() {
    let args = encode_pair_args(&pair_input(handle(3, 1), handle(4, 2), None, None));
    assert!(args.rigid_body1.is_none());
    assert!(args.rigid_body2.is_none());
}

#[test]
fn present_rigid_bodies_encode_flattened() {
    let rb1 = handle(10, 3);
    let args = encode_pair_args(&pair_input(handle(3, 1), handle(4, 2), Some(rb1), None));
    assert_eq!(args.collider1, flatten(handle(3, 1)));
    assert_eq!(args.collider2, flatten(handle(4, 2)));
    assert_eq!(args.rigid_body1, Some(flatten(rb1)));
    assert_eq!(args.rigid_body2, None);
}

#[test]
fn pair_filter_fail_closed() {
    // A call that raised, hit an unresolvable slot, or returned a
    // non-numeric value all reach the bridge as "no answer": reject.
    assert_eq!(interpret_pair_filter_answer(None), None);
}

#[test]
fn pair_filter_rejects_undefined_flag_bits() {
    assert_eq!(interpret_pair_filter_answer(Some(0b010)), None);
    assert_eq!(interpret_pair_filter_answer(Some(u32::MAX)), None);
    // The defined bits themselves pass through losslessly.
    assert_eq!(interpret_pair_filter_answer(Some(0)), Some(0));
    assert_eq!(
        interpret_pair_filter_answer(Some(SOLVER_FLAG_COMPUTE_RIGID_IMPULSES)),
        Some(SOLVER_FLAG_COMPUTE_RIGID_IMPULSES)
    );
}

#[test]
fn pair_filter_accepts_with_flags() {
    // Colliders 5 and 9, no rigid bodies; the host answers with the
    // single-bit solver-flags pattern 1: the pair is accepted with that
    // flags value.
    let args = encode_pair_args(&pair_input(handle(5, 0), handle(9, 0), None, None));
    assert_eq!(args.collider1, 5);
    assert_eq!(args.collider2, 9);
    assert!(args.rigid_body1.is_none());
    assert!(args.rigid_body2.is_none());
    let decision = interpret_pair_filter_answer(Some(1));
    assert_eq!(decision, Some(1));
    assert_eq!(
        decision.and_then(SolverFlags::from_bits),
        Some(SolverFlags::COMPUTE_RIGID_IMPULSES)
    );
}

#[test]
fn solver_flags_model_matches_native_flags() {
    // The validity mask the bridge enforces is exactly the set of flags the
    // native solver defines.
    assert_eq!(SolverFlags::all().bits(), SOLVER_FLAG_COMPUTE_RIGID_IMPULSES);
    assert!(SolverFlags::from_bits(0b010).is_none());
    assert_eq!(SolverFlags::from_bits(0), Some(SolverFlags::empty()));
    assert_eq!(SolverFlags::from_bits(1), Some(SolverFlags::COMPUTE_RIGID_IMPULSES));
}

#[test]
fn intersection_filter_fail_closed() {
    assert!(!interpret_intersection_answer(None));
    assert!(!interpret_intersection_answer(Some(false)));
    assert!(interpret_intersection_answer(Some(true)));
}

fn modifier_input(points: Vec<VectorBits>) -> ContactModificationInput {
    ContactModificationInput {
        collider1: handle(5, 0),
        collider2: handle(9, 0),
        normal: VectorBits { x: 0.0f32.to_bits(), y: 1.0f32.to_bits() },
        points,
    }
}

#[test]
fn modifier_absent_hook_skips_host_call() {
    let step = begin_modify_solver_contacts(false, &modifier_input(vec![]));
    assert!(matches!(step, ModifierStep::SkipInactive));
}

#[test]
fn modifier_bound_hook_calls_with_encoded_payload() {
    let input = modifier_input(vec![VectorBits { x: 3, y: 4 }]);
    let args = encode_modifier_args(&input);
    let step = begin_modify_solver_contacts(true, &input);
    match step {
        ModifierStep::CallHost(call) => {
            assert_eq!(call.collider1, args.collider1);
            assert_eq!(call.collider2, args.collider2);
            assert_eq!(call.normal, args.normal);
            assert_eq!(call.point1, args.point1);
            assert_eq!(call.point2, args.point2);
        }
        ModifierStep::SkipInactive => panic!("bound hook must reach the host"),
    }
}

#[test]
fn modifier_substitutes_origin_for_missing_points() {
    // One solver contact at (1.0, 2.0): the first payload carries it, the
    // second defaults to the origin.
    let one = VectorBits { x: 1.0f32.to_bits(), y: 2.0f32.to_bits() };
    let args = encode_modifier_args(&modifier_input(vec![one]));
    assert_eq!(args.point1, pack(1.0f32.to_bits(), 2.0f32.to_bits()));
    assert_eq!(args.point2, pack(0.0f32.to_bits(), 0.0f32.to_bits()));
    assert_eq!(f64::from_bits(args.point2), 0.0);

    // No solver contact at all: both payloads default.
    let empty = encode_modifier_args(&modifier_input(vec![]));
    assert_eq!(empty.point1, 0);
    assert_eq!(empty.point2, 0);

    // Two contacts: both are carried, in order.
    let two = encode_modifier_args(&modifier_input(vec![
        VectorBits { x: 1, y: 2 },
        VectorBits { x: 3, y: 4 },
    ]));
    assert_eq!(two.point1, pack(1, 2));
    assert_eq!(two.point2, pack(3, 4));
    assert_eq!(two.normal, pack(0.0f32.to_bits(), 1.0f32.to_bits()));
}

#[test]
fn modifier_fail_open() {
    // A failed call, or a non-boolean answer, keeps the contacts: the
    // opposite default from the filters.
    assert!(modifier_keeps_contacts(None));
    assert!(modifier_keeps_contacts(Some(true)));

    let mut contacts = vec![10u32, 20u32];
    apply_modifier_answer(&mut contacts, None);
    assert_eq!(contacts, vec![10, 20]);
    apply_modifier_answer(&mut contacts, Some(true));
    assert_eq!(contacts, vec![10, 20]);
}

#[test]
fn modifier_veto_clears_all_contacts() {
    assert!(!modifier_keeps_contacts(Some(false)));
    for n in 0..3usize {
        let mut contacts: Vec<u32> = (0..n as u32).collect();
        apply_modifier_answer(&mut contacts, Some(false));
        assert!(contacts.is_empty());
    }
}

//! The per-body reconciliation step and its fixed-point math.

use hand_physics::bones::{BoneInitState, Hand, MatchingType, PhysicsHandBone};
use hand_physics::math::{isqrt_u128, normalize, Vec3Fx, SCALE};
use hand_physics::reconcile::{update_physics_bone, CapsuleCollider, DynamicBoneBody,
    Velocity, BONE_COLLIDER_RADIUS, TICKS_PER_SECOND};

fn v(x: i64, y: i64, z: i64) -> Vec3Fx {
    Vec3Fx { x, y, z }
}

fn resting_body(init: BoneInitState) -> DynamicBoneBody {
    DynamicBoneBody {
        translation: v(0, 0, 0),
        forward: v(0, 0, -SCALE),
        collider: CapsuleCollider { a: v(0, 0, 0), b: v(0, 0, 0), radius: 0 },
        bone: PhysicsHandBone::ThumbMetacarpal,
        init_state: init,
        hand: Hand::Right,
        velocity: Velocity { linvel: v(0, 0, 0), angvel: v(0, 0, 0) },
    }
}

#[test]
fn test_isqrt_exact_values() {
    assert_eq!(isqrt_u128(0), 0);
    assert_eq!(isqrt_u128(1), 1);
    assert_eq!(isqrt_u128(15), 3);
    assert_eq!(isqrt_u128(16), 4);
    assert_eq!(isqrt_u128(400_000_000_000_000), 20_000_000);
    assert_eq!(isqrt_u128(400_000_000_000_001), 20_000_000);
    assert_eq!(isqrt_u128(u128::from(u64::MAX) * u128::from(u64::MAX)), u64::MAX);
}

#[test]
fn test_normalize_exact() {
    // a 3-4-5 triangle: (0.03, 0.04, 0) has length 0.05
    let d = v(30_000_000, 40_000_000, 0);
    let len = isqrt_u128(
        (d.x as i128 * d.x as i128 + d.y as i128 * d.y as i128) as u128,
    );
    assert_eq!(len, 50_000_000);
    assert_eq!(normalize(d, len), v(600_000_000, 800_000_000, 0));
}

#[test]
fn test_velocity_matching_idempotent_at_convergence() {
    // Body already at the tracked start, already facing the tracked end:
    // both computed velocities are exactly zero.
    let start = v(0, 0, 0);
    let end = v(0, 0, -20_000_000);
    let mut body = resting_body(BoneInitState::True);
    body.velocity = Velocity { linvel: v(7, 7, 7), angvel: v(7, 7, 7) };
    update_physics_bone(&mut body, start, end, MatchingType::VelocityMatching, TICKS_PER_SECOND);
    assert_eq!(body.velocity.linvel, v(0, 0, 0));
    assert_eq!(body.velocity.angvel, v(0, 0, 0));
    assert_eq!(body.translation, v(0, 0, 0));
    assert_eq!(body.forward, v(0, 0, -SCALE));
}

#[test]
fn test_degenerate_length_skips_body_unchanged() {
    // Tracked length below one millimeter: nothing on the body may move.
    let start = v(10_000_000, 20_000_000, 30_000_000);
    let end = v(10_000_000, 20_000_000, 30_999_999);
    let mut body = resting_body(BoneInitState::False);
    body.velocity = Velocity { linvel: v(1, 2, 3), angvel: v(4, 5, 6) };
    let before = body;
    update_physics_bone(&mut body, start, end, MatchingType::VelocityMatching, TICKS_PER_SECOND);
    assert_eq!(body, before);
    // An exactly collapsed direction is degenerate too.
    update_physics_bone(&mut body, start, start, MatchingType::PositionMatching, TICKS_PER_SECOND);
    assert_eq!(body, before);
}

#[test]
fn test_initialization_sizes_collider_once() {
    // First non-degenerate tick: the collider capsule runs from the local
    // origin to (0, 0, -length) with the fixed bone radius.
    let mut body = resting_body(BoneInitState::False);
    update_physics_bone(
        &mut body,
        v(0, 0, 0),
        v(0, 0, -20_000_000),
        MatchingType::VelocityMatching,
        TICKS_PER_SECOND,
    );
    assert_eq!(body.init_state, BoneInitState::True);
    assert_eq!(body.collider.a, v(0, 0, 0));
    assert_eq!(body.collider.b, v(0, 0, -20_000_000));
    assert_eq!(body.collider.radius, BONE_COLLIDER_RADIUS);
    // The initialization tick mutates nothing else.
    assert_eq!(body.velocity.linvel, v(0, 0, 0));
    assert_eq!(body.translation, v(0, 0, 0));

    // Later ticks measure twice the length; the collider must keep the
    // length measured on the initialization tick.
    let sized = body.collider;
    update_physics_bone(
        &mut body,
        v(0, 0, 0),
        v(0, 0, -40_000_000),
        MatchingType::VelocityMatching,
        TICKS_PER_SECOND,
    );
    assert_eq!(body.collider, sized);
    assert_eq!(body.init_state, BoneInitState::True);
    update_physics_bone(
        &mut body,
        v(0, 0, 0),
        v(0, 0, -5_000_000),
        MatchingType::PositionMatching,
        TICKS_PER_SECOND,
    );
    assert_eq!(body.collider, sized);
}

#[test]
fn test_straight_thumb_scenario() {
    // A straight-line tracked thumb: metacarpal at the origin, proximal at
    // (0, 0, -0.02).  The dynamic metacarpal body rests at the origin facing
    // +Z, with a 1/60 s tick.  The start coincides with the body, so the
    // linear velocity is exactly zero; the desired forward (0, 0, -1) is
    // exactly opposite the body's forward (0, 0, +1), and the cross product
    // of opposite vectors vanishes, so the angular velocity is zero as well.
    let start = v(0, 0, 0);
    let end = v(0, 0, -20_000_000);
    let mut body = resting_body(BoneInitState::True);
    body.forward = v(0, 0, SCALE);
    update_physics_bone(&mut body, start, end, MatchingType::VelocityMatching, 60);
    assert_eq!(body.velocity.linvel, v(0, 0, 0));
    assert_eq!(body.velocity.angvel, v(0, 0, 0));
}

#[test]
fn test_velocity_matching_linear_pull() {
    // Body 0.01 m from the tracked start along +X: the linear velocity must
    // carry it there in one tick, (start - body) * 60.
    let start = v(0, 0, 0);
    let end = v(0, 0, -20_000_000);
    let mut body = resting_body(BoneInitState::True);
    body.translation = v(10_000_000, 0, 0);
    update_physics_bone(&mut body, start, end, MatchingType::VelocityMatching, 60);
    assert_eq!(body.velocity.linvel, v(-600_000_000, 0, 0));
    // The transform itself is untouched: only velocities drive the body.
    assert_eq!(body.translation, v(10_000_000, 0, 0));
}

#[test]
fn test_velocity_matching_angular_pull() {
    // Body forward +X, desired forward -Z: their cross product is
    // (+X) x (-Z) = +Y at unit scale, so the angular velocity is 60 rad/s
    // around +Y.
    let start = v(0, 0, 0);
    let end = v(0, 0, -20_000_000);
    let mut body = resting_body(BoneInitState::True);
    body.forward = v(SCALE, 0, 0);
    update_physics_bone(&mut body, start, end, MatchingType::VelocityMatching, 60);
    assert_eq!(body.velocity.angvel, v(0, 60_000_000_000, 0));
    assert_eq!(body.velocity.linvel, v(0, 0, 0));
}

#[test]
fn test_position_matching_snaps_transform() {
    let start = v(1_000_000, 2_000_000, 3_000_000);
    let end = v(1_000_000, 2_000_000, -17_000_000);
    let mut body = resting_body(BoneInitState::True);
    update_physics_bone(&mut body, start, end, MatchingType::PositionMatching, 60);
    assert_eq!(body.translation, start);
    assert_eq!(body.forward, v(0, 0, -SCALE));
    // Position matching bypasses the simulator: no velocity is assigned.
    assert_eq!(body.velocity.linvel, v(0, 0, 0));
    assert_eq!(body.velocity.angvel, v(0, 0, 0));
}

//! The per-tick driver: table resolution, tracked-joint lookup, and the
//! skip rules, over a whole body set.

use hand_physics::bones::{BoneInitState, Hand, MatchingType, PhysicsHandBone};
use hand_physics::entities::{get_start_and_end_entities, HandResource, HandsResource};
use hand_physics::math::{Vec3Fx, SCALE};
use hand_physics::reconcile::{lookup_tracked, update_physics_hands, CapsuleCollider,
    DynamicBoneBody, TrackedJoint, Velocity};

fn v(x: i64, y: i64, z: i64) -> Vec3Fx {
    Vec3Fx { x, y, z }
}

fn body(bone: PhysicsHandBone, hand: Hand, init: BoneInitState) -> DynamicBoneBody {
    DynamicBoneBody {
        translation: v(0, 0, 0),
        forward: v(0, 0, -SCALE),
        collider: CapsuleCollider { a: v(0, 0, 0), b: v(0, 0, 0), radius: 0 },
        bone,
        init_state: init,
        hand,
        velocity: Velocity { linvel: v(0, 0, 0), angvel: v(0, 0, 0) },
    }
}

fn thumb_table() -> HandsResource {
    let mut right = HandResource::empty();
    right.record_bone_entity(PhysicsHandBone::ThumbMetacarpal, 10);
    right.record_bone_entity(PhysicsHandBone::ThumbProximal, 11);
    HandsResource { left: HandResource::empty(), right }
}

#[test]
fn test_record_and_resolve_entities() {
    let table = thumb_table();
    assert_eq!(
        get_start_and_end_entities(table.right, &PhysicsHandBone::ThumbMetacarpal),
        Some((10, 11))
    );
    // The palm has no span whatever the table holds.
    assert_eq!(get_start_and_end_entities(table.right, &PhysicsHandBone::Palm), None);
    // A span whose slots were never recorded resolves to unrecorded ids.
    assert_eq!(
        get_start_and_end_entities(table.left, &PhysicsHandBone::ThumbMetacarpal),
        Some((0, 0))
    );
}

#[test]
fn test_lookup_tracked_first_match() {
    let joints = vec![
        TrackedJoint { entity: 10, translation: v(1, 1, 1) },
        TrackedJoint { entity: 11, translation: v(2, 2, 2) },
        TrackedJoint { entity: 10, translation: v(3, 3, 3) },
    ];
    assert_eq!(lookup_tracked(&joints, 10), Some(v(1, 1, 1)));
    assert_eq!(lookup_tracked(&joints, 11), Some(v(2, 2, 2)));
    assert_eq!(lookup_tracked(&joints, 12), None);
    assert_eq!(lookup_tracked(&vec![], 10), None);
}

#[test]
fn test_update_physics_hands_steps_only_resolved_right_bodies() {
    let table = thumb_table();
    let joints = vec![
        TrackedJoint { entity: 10, translation: v(0, 0, 0) },
        TrackedJoint { entity: 11, translation: v(0, 0, -20_000_000) },
    ];
    let mut bodies = vec![
        // Steps: right hand, spanning bone, both entities tracked.
        body(PhysicsHandBone::ThumbMetacarpal, Hand::Right, BoneInitState::False),
        // Skipped: left-hand bodies are not processed.
        body(PhysicsHandBone::ThumbMetacarpal, Hand::Left, BoneInitState::False),
        // Skipped: the palm bounds no segment.
        body(PhysicsHandBone::Palm, Hand::Right, BoneInitState::False),
        // Skipped: its bone's entities were never recorded, and no tracked
        // joint carries the unrecorded id.
        body(PhysicsHandBone::IndexProximal, Hand::Right, BoneInitState::False),
    ];
    let before = bodies.clone();
    update_physics_hands(&mut bodies, &table, &joints, MatchingType::VelocityMatching, 60);

    // The resolved right thumb body took its initialization step.
    assert_eq!(bodies[0].init_state, BoneInitState::True);
    assert_eq!(bodies[0].collider.b, v(0, 0, -20_000_000));
    // Everything else is untouched.
    assert_eq!(bodies[1], before[1]);
    assert_eq!(bodies[2], before[2]);
    assert_eq!(bodies[3], before[3]);

    // A second tick velocity-matches the now-initialized body: it already
    // rests at the tracked start facing the tracked direction, so both
    // velocities stay zero.
    update_physics_hands(&mut bodies, &table, &joints, MatchingType::VelocityMatching, 60);
    assert_eq!(bodies[0].velocity.linvel, v(0, 0, 0));
    assert_eq!(bodies[0].velocity.angvel, v(0, 0, 0));
    assert_eq!(bodies[0].collider.b, v(0, 0, -20_000_000));
}

#[test]
fn test_update_physics_hands_pulls_displaced_body() {
    let table = thumb_table();
    let joints = vec![
        TrackedJoint { entity: 10, translation: v(0, 0, 0) },
        TrackedJoint { entity: 11, translation: v(0, 0, -20_000_000) },
    ];
    let mut displaced = body(PhysicsHandBone::ThumbMetacarpal, Hand::Right, BoneInitState::True);
    displaced.translation = v(10_000_000, 0, 0);
    let mut bodies = vec![displaced];
    update_physics_hands(&mut bodies, &table, &joints, MatchingType::VelocityMatching, 60);
    assert_eq!(bodies[0].velocity.linvel, v(-600_000_000, 0, 0));
    assert_eq!(bodies[0].velocity.angvel, v(0, 0, 0));
}

#[test]
fn test_update_physics_hands_skips_missing_tracked_entity() {
    let table = thumb_table();
    // Only the start entity is tracked this tick.
    let joints = vec![TrackedJoint { entity: 10, translation: v(0, 0, 0) }];
    let mut bodies = vec![body(PhysicsHandBone::ThumbMetacarpal, Hand::Right, BoneInitState::False)];
    let before = bodies.clone();
    update_physics_hands(&mut bodies, &table, &joints, MatchingType::VelocityMatching, 60);
    assert_eq!(bodies[0], before[0]);
}

#[test]
fn test_update_physics_hands_degenerate_skip() {
    let table = thumb_table();
    // Both joints tracked at (nearly) the same point: degenerate, skipped.
    let joints = vec![
        TrackedJoint { entity: 10, translation: v(5, 5, 5) },
        TrackedJoint { entity: 11, translation: v(5, 5, 6) },
    ];
    let mut bodies = vec![body(PhysicsHandBone::ThumbMetacarpal, Hand::Right, BoneInitState::False)];
    let before = bodies.clone();
    update_physics_hands(&mut bodies, &table, &joints, MatchingType::VelocityMatching, 60);
    assert_eq!(bodies[0], before[0]);
}

#[test]
fn test_update_physics_hands_empty_bodies() {
    let table = thumb_table();
    let joints = vec![TrackedJoint { entity: 10, translation: v(0, 0, 0) }];
    let mut bodies: Vec<DynamicBoneBody> = Vec::new();
    update_physics_hands(&mut bodies, &table, &joints, MatchingType::VelocityMatching, 60);
    assert!(bodies.is_empty());
}

#[test]
fn test_update_physics_hands_position_matching() {
    let table = thumb_table();
    let joints = vec![
        TrackedJoint { entity: 10, translation: v(1_000_000, 0, 0) },
        TrackedJoint { entity: 11, translation: v(1_000_000, 0, -20_000_000) },
    ];
    let mut bodies = vec![body(PhysicsHandBone::ThumbMetacarpal, Hand::Right, BoneInitState::True)];
    update_physics_hands(&mut bodies, &table, &joints, MatchingType::PositionMatching, 60);
    // The transform snaps to the tracked start, looking at the tracked end.
    assert_eq!(bodies[0].translation, v(1_000_000, 0, 0));
    assert_eq!(bodies[0].forward, v(0, 0, -SCALE));
    assert_eq!(bodies[0].velocity.linvel, v(0, 0, 0));
}

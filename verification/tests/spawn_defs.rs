//! Spawn definitions: collision filtering and initial body/entity values.

use hand_physics::bones::{BoneInitState, Hand, PhysicsHandBone};
use hand_physics::math::Vec3Fx;
use hand_physics::pose::get_default_right_hand;
use hand_physics::spawn::{collision_groups_for_hand, physics_body_def, tracked_spawn_params,
    ALL_GROUPS, FLOOR_MEMBERSHIP, LEFT_HAND_MEMBERSHIP, RIGHT_HAND_MEMBERSHIP,
    SPAWN_CAPSULE_HALF_HEIGHT};

/// The engine's pair test: two filtered bodies interact when each one's
/// membership meets the other's filter.
fn pair_collides(a: (u32, u32), b: (u32, u32)) -> bool {
    (a.0 & b.1) != 0 && (b.0 & a.1) != 0
}

#[test]
fn test_collision_group_values() {
    assert_eq!(collision_groups_for_hand(Hand::Left), (0x0001, 0xffff_fffa));
    assert_eq!(collision_groups_for_hand(Hand::Right), (0x0002, 0xffff_fff9));
    assert_eq!(LEFT_HAND_MEMBERSHIP, 1);
    assert_eq!(RIGHT_HAND_MEMBERSHIP, 2);
    assert_eq!(FLOOR_MEMBERSHIP, 4);
    assert_eq!(ALL_GROUPS, u32::MAX);
}

#[test]
fn test_collision_filtering() {
    let left = collision_groups_for_hand(Hand::Left);
    let right = collision_groups_for_hand(Hand::Right);
    // A hand's own joints do not collide with each other.
    assert!(!pair_collides(left, left));
    assert!(!pair_collides(right, right));
    // The two hands still collide with each other.
    assert!(pair_collides(left, right));
    // Both hands exclude the floor group from their filters.
    assert_eq!(left.1 & FLOOR_MEMBERSHIP, 0);
    assert_eq!(right.1 & FLOOR_MEMBERSHIP, 0);
    // Both hands still collide with an unfiltered scene body.
    let scene = (0x0008u32, ALL_GROUPS);
    assert!(pair_collides(left, scene));
    assert!(pair_collides(right, scene));
}

#[test]
fn test_physics_body_def_right_palm() {
    let def = physics_body_def(Hand::Right, 0);
    let palm = get_default_right_hand().inner[0];
    assert_eq!(def.translation, palm.position);
    assert_eq!(def.rotation, palm.orientation);
    assert_eq!(def.capsule_a, Vec3Fx { x: 0, y: -SPAWN_CAPSULE_HALF_HEIGHT, z: 0 });
    assert_eq!(def.capsule_b, Vec3Fx { x: 0, y: SPAWN_CAPSULE_HALF_HEIGHT, z: 0 });
    // half the palm's calibrated radius of 17_204_836
    assert_eq!(def.capsule_radius, 8_602_418);
    assert_eq!(def.linvel, Vec3Fx { x: 0, y: 0, z: 0 });
    assert_eq!(def.angvel, Vec3Fx { x: 0, y: 0, z: 0 });
    assert_eq!((def.membership, def.filter), collision_groups_for_hand(Hand::Right));
    assert_eq!(def.bone, PhysicsHandBone::Palm);
    assert_eq!(def.hand, Hand::Right);
    assert_eq!(def.init_state, BoneInitState::False);
}

#[test]
fn test_physics_body_def_bone_tags() {
    // Each body is tagged with the bone sharing its joint's canonical index.
    assert_eq!(physics_body_def(Hand::Left, 2).bone, PhysicsHandBone::ThumbMetacarpal);
    assert_eq!(physics_body_def(Hand::Right, 25).bone, PhysicsHandBone::LittleTip);
    assert_eq!(physics_body_def(Hand::Left, 2).membership, LEFT_HAND_MEMBERSHIP);
}

#[test]
fn test_tracked_spawn_params_thumb() {
    let params = tracked_spawn_params(&PhysicsHandBone::ThumbMetacarpal, &Hand::Right)
        .expect("thumb metacarpal spans two joints");
    let table = get_default_right_hand();
    let start = table.inner[2];
    let end = table.inner[3];
    assert_eq!(
        params.translation,
        Vec3Fx {
            x: end.position.x - start.position.x,
            y: end.position.y - start.position.y,
            z: end.position.z - start.position.z,
        }
    );
    assert_eq!(params.translation, Vec3Fx { x: 23_609_580, y: 22_857_900, z: 9_272_680 });
    assert_eq!(params.rotation, start.orientation);
    assert_eq!(params.mesh_radius, start.radius);
    assert_eq!(params.bone, PhysicsHandBone::ThumbMetacarpal);
    assert_eq!(params.hand, Hand::Right);
}

#[test]
fn test_tracked_spawn_params_terminal_none() {
    assert!(tracked_spawn_params(&PhysicsHandBone::Palm, &Hand::Left).is_none());
    assert!(tracked_spawn_params(&PhysicsHandBone::RingTip, &Hand::Right).is_none());
}

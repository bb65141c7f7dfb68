//! Startup spawn computations: what each tracked joint entity and each
//! dynamic bone body is created with.
//!
//! The engine-facing edge performs the actual entity creation; this module
//! computes, from the calibration tables, every plain value such an entity
//! carries — transforms, collider shape, collision-filter groups, tags —
//! and proves the collision-filter arrangement: a hand's own joints never
//! collide with each other or the floor, while the two hands still collide
//! with each other and with the rest of the scene.

use vstd::prelude::*;
use crate::bones::{BoneInitState, Hand, NameToHandJoint, PhysicsHandBone};
use crate::bones::spec_joint_index;
use crate::math::Vec3Fx;
use crate::math::{spec_vec_sub, vec_sub};
use crate::pose::{HandJoint, QuatFx};
use crate::pose::{get_start_and_end_joints, lemma_joint_data_wf, spec_joint_data,
    spec_start_and_end_joints};

verus! {

/// Collision-group bit of left-hand joint bodies.
pub const LEFT_HAND_MEMBERSHIP: u32 = 0x0001;

/// Collision-group bit of right-hand joint bodies.
pub const RIGHT_HAND_MEMBERSHIP: u32 = 0x0002;

/// Collision-group bit of the floor.
pub const FLOOR_MEMBERSHIP: u32 = 0x0004;

/// Every collision group.
pub const ALL_GROUPS: u32 = 0xffff_ffff;

/// Half the height of the capsule collider a dynamic joint body is spawned
/// with (0.0575 m in fixed-point units).
pub const SPAWN_CAPSULE_HALF_HEIGHT: i64 = 57_500_000;

/// The collision-group bit of one hand's joint bodies.
pub open spec fn spec_hand_membership(hand: Hand) -> u32 {
    match hand {
        Hand::Left => LEFT_HAND_MEMBERSHIP,
        Hand::Right => RIGHT_HAND_MEMBERSHIP,
    }
}

/// The interaction filter of one hand's joint bodies: every group except the
/// hand's own group and the floor's.
pub open spec fn spec_hand_filter(hand: Hand) -> u32 {
    match hand {
        Hand::Left => 0xffff_fffa,
        Hand::Right => 0xffff_fff9,
    }
}

/// Two collision-filtered bodies collide when each one's membership meets
/// the other's filter.
pub open spec fn groups_collide(m1: u32, f1: u32, m2: u32, f2: u32) -> bool {
    (m1 & f2) != 0 && (m2 & f1) != 0
}

/// Membership and interaction filter of one hand's joint bodies: the hand's
/// own group, filtering out that same group and the floor's.
pub fn collision_groups_for_hand(hand: Hand) -> (r: (u32, u32))
    ensures
        r.0 == spec_hand_membership(hand),
        r.1 == spec_hand_filter(hand),
{
    let membership: u32 = match hand {
        Hand::Left => LEFT_HAND_MEMBERSHIP,
        Hand::Right => RIGHT_HAND_MEMBERSHIP,
    };
    let filter: u32 = ALL_GROUPS & !membership & !FLOOR_MEMBERSHIP;
    proof {
        match hand {
            Hand::Left => {
                assert(0xffff_ffffu32 & !0x0001u32 & !0x0004u32 == 0xffff_fffau32) by (bit_vector);
            }
            Hand::Right => {
                assert(0xffff_ffffu32 & !0x0002u32 & !0x0004u32 == 0xffff_fff9u32) by (bit_vector);
            }
        }
    }
    (membership, filter)
}

/// The collision-filter arrangement of the spawned joint bodies: joints of
/// one hand never collide with each other or with the floor, while bodies of
/// the two different hands still collide.
pub proof fn lemma_collision_filtering()
    ensures
        forall|h: Hand| !groups_collide(
            #[trigger] spec_hand_membership(h), spec_hand_filter(h),
            spec_hand_membership(h), spec_hand_filter(h),
        ),
        forall|h: Hand| #[trigger] spec_hand_filter(h) & FLOOR_MEMBERSHIP == 0,
        groups_collide(
            spec_hand_membership(Hand::Left), spec_hand_filter(Hand::Left),
            spec_hand_membership(Hand::Right), spec_hand_filter(Hand::Right),
        ),
{
    assert(0x0001u32 & 0xffff_fffau32 == 0) by (bit_vector);
    assert(0x0002u32 & 0xffff_fff9u32 == 0) by (bit_vector);
    assert(0xffff_fffau32 & 0x0004u32 == 0) by (bit_vector);
    assert(0xffff_fff9u32 & 0x0004u32 == 0) by (bit_vector);
    assert(0x0001u32 & 0xffff_fff9u32 != 0) by (bit_vector);
    assert(0x0002u32 & 0xffff_fffau32 != 0) by (bit_vector);
    assert forall|h: Hand| !groups_collide(
        #[trigger] spec_hand_membership(h), spec_hand_filter(h),
        spec_hand_membership(h), spec_hand_filter(h),
    ) by {
        match h {
            Hand::Left => {}
            Hand::Right => {}
        }
    }
    assert forall|h: Hand| #[trigger] spec_hand_filter(h) & FLOOR_MEMBERSHIP == 0 by {
        match h {
            Hand::Left => {}
            Hand::Right => {}
        }
    }
}

/// Everything a dynamic joint body is created with.
#[derive(Clone, Copy, Debug, PartialEq, Eq, Structural)]
pub struct PhysicsBodyDef {
    /// Initial translation: the joint's calibrated position.
    pub translation: Vec3Fx,
    /// Initial rotation: the joint's calibrated orientation.
    pub rotation: QuatFx,
    /// One end of the capsule collider, in body-local coordinates.
    pub capsule_a: Vec3Fx,
    /// The other end of the capsule collider, in body-local coordinates.
    pub capsule_b: Vec3Fx,
    /// Radius of the capsule collider: half the joint's calibrated radius.
    pub capsule_radius: i64,
    /// Initial linear velocity (zero).
    pub linvel: Vec3Fx,
    /// Initial angular velocity (zero).
    pub angvel: Vec3Fx,
    /// Collision-group membership.
    pub membership: u32,
    /// Collision-interaction filter.
    pub filter: u32,
    /// The bone this body represents.
    pub bone: PhysicsHandBone,
    /// The hand this body belongs to.
    pub hand: Hand,
    /// Collider not yet sized from the tracked skeleton.
    pub init_state: BoneInitState,
}

/// The definition of the dynamic body spawned for one hand's joint at
/// canonical position `i`.
pub open spec fn spec_physics_body_def(hand: Hand, i: int) -> PhysicsBodyDef {
    let joint = spec_joint_data(hand, i);
    PhysicsBodyDef {
        translation: joint.position,
        rotation: joint.orientation,
        capsule_a: Vec3Fx { x: 0, y: (-SPAWN_CAPSULE_HALF_HEIGHT) as i64, z: 0 },
        capsule_b: Vec3Fx { x: 0, y: SPAWN_CAPSULE_HALF_HEIGHT, z: 0 },
        capsule_radius: (joint.radius / 2) as i64,
        linvel: Vec3Fx { x: 0, y: 0, z: 0 },
        angvel: Vec3Fx { x: 0, y: 0, z: 0 },
        membership: spec_hand_membership(hand),
        filter: spec_hand_filter(hand),
        bone: crate::bones::spec_bone_of_index(i),
        hand: hand,
        init_state: BoneInitState::False,
    }
}

/// Everything the dynamic body for one hand's joint is created with: the
/// calibrated pose, a capsule collider of half the joint's radius, zero
/// velocity, and the hand's collision groups.  The body is tagged with the
/// bone sharing the joint's canonical position.
pub fn physics_body_def(hand: Hand, joint_index: usize) -> (r: PhysicsBodyDef)
    requires
        joint_index < 26,
    ensures
        r == spec_physics_body_def(hand, joint_index as int),
{
    proof {
        lemma_joint_data_wf(hand, joint_index as int);
    }
    let joints = match hand {
        Hand::Left => crate::pose::get_default_left_hand(),
        Hand::Right => crate::pose::get_default_right_hand(),
    };
    let joint = joints.inner[joint_index];
    let (membership, filter) = collision_groups_for_hand(hand);
    let radius_half = (joint.radius as u64 / 2) as i64;
    PhysicsBodyDef {
        translation: joint.position,
        rotation: joint.orientation,
        capsule_a: Vec3Fx { x: 0, y: -SPAWN_CAPSULE_HALF_HEIGHT, z: 0 },
        capsule_b: Vec3Fx { x: 0, y: SPAWN_CAPSULE_HALF_HEIGHT, z: 0 },
        capsule_radius: radius_half,
        linvel: Vec3Fx { x: 0, y: 0, z: 0 },
        angvel: Vec3Fx { x: 0, y: 0, z: 0 },
        membership,
        filter,
        bone: NameToHandJoint::get_physics_bone_from_index(joint_index),
        hand,
        init_state: BoneInitState::False,
    }
}

/// Everything a tracked joint entity is created with.
#[derive(Clone, Copy, Debug, PartialEq, Eq, Structural)]
pub struct TrackedSpawnParams {
    /// Initial translation: the vector from the bone's start joint to its
    /// end joint.
    pub translation: Vec3Fx,
    /// Initial rotation: the start joint's calibrated orientation.
    pub rotation: QuatFx,
    /// Radius of the visual mesh: the start joint's calibrated radius.
    pub mesh_radius: i64,
    /// The bone this entity represents.
    pub bone: PhysicsHandBone,
    /// The hand this entity belongs to.
    pub hand: Hand,
}

/// The spawn parameters of the tracked entity for a bone, or `None` for a
/// bone with no physical extent.
pub open spec fn spec_tracked_spawn_params(bone: PhysicsHandBone, hand: Hand)
    -> Option<TrackedSpawnParams> {
    match spec_start_and_end_joints(bone, hand) {
        None => None,
        Some(pair) => Some(TrackedSpawnParams {
            translation: spec_vec_sub(pair.1.position, pair.0.position),
            rotation: pair.0.orientation,
            mesh_radius: pair.0.radius,
            bone: bone,
            hand: hand,
        }),
    }
}

/// The spawn parameters of the tracked entity for a bone: positioned along
/// the calibrated bone direction, oriented and sized by the start joint.
/// `None` for a bone with no physical extent, which spawns nothing.
pub fn tracked_spawn_params(bone: &PhysicsHandBone, hand: &Hand)
    -> (r: Option<TrackedSpawnParams>)
    ensures
        r == spec_tracked_spawn_params(*bone, *hand),
{
    match get_start_and_end_joints(bone, hand) {
        None => None,
        Some((joint_one, joint_two)) => {
            proof {
                match crate::bones::spec_bone_span(*bone) {
                    Some(pair) => {
                        lemma_joint_data_wf(*hand, spec_joint_index(pair.0));
                        lemma_joint_data_wf(*hand, spec_joint_index(pair.1));
                    }
                    None => {}
                }
            }
            let direction = vec_sub(joint_two.position, joint_one.position);
            Some(TrackedSpawnParams {
                translation: direction,
                rotation: joint_one.orientation,
                mesh_radius: joint_one.radius,
                bone: *bone,
                hand: *hand,
            })
        }
    }
}

} // verus!

//! The bone topology map: bone-to-joint spans and the joint-index inverse.

use hand_physics::bones::{NameToHandJoint, PhysicsHandBone};
use hand_physics::bones::bone_span;

const ALL_BONES: [PhysicsHandBone; 26] = [
    PhysicsHandBone::Palm,
    PhysicsHandBone::Wrist,
    PhysicsHandBone::ThumbMetacarpal,
    PhysicsHandBone::ThumbProximal,
    PhysicsHandBone::ThumbDistal,
    PhysicsHandBone::ThumbTip,
    PhysicsHandBone::IndexMetacarpal,
    PhysicsHandBone::IndexProximal,
    PhysicsHandBone::IndexIntermediate,
    PhysicsHandBone::IndexDistal,
    PhysicsHandBone::IndexTip,
    PhysicsHandBone::MiddleMetacarpal,
    PhysicsHandBone::MiddleProximal,
    PhysicsHandBone::MiddleIntermediate,
    PhysicsHandBone::MiddleDistal,
    PhysicsHandBone::MiddleTip,
    PhysicsHandBone::RingMetacarpal,
    PhysicsHandBone::RingProximal,
    PhysicsHandBone::RingIntermediate,
    PhysicsHandBone::RingDistal,
    PhysicsHandBone::RingTip,
    PhysicsHandBone::LittleMetacarpal,
    PhysicsHandBone::LittleProximal,
    PhysicsHandBone::LittleIntermediate,
    PhysicsHandBone::LittleDistal,
    PhysicsHandBone::LittleTip,
];

/// The finger (or root) a joint index belongs to.
fn finger_of_joint(i: usize) -> usize {
    match i {
        0 => 0,
        1 => 1,
        2..=5 => 2,
        6..=10 => 3,
        11..=15 => 4,
        16..=20 => 5,
        _ => 6,
    }
}

#[test]
fn test_bone_index_roundtrip() {
    for (i, bone) in ALL_BONES.iter().enumerate() {
        assert_eq!(NameToHandJoint::get_physics_bone_from_index(i), *bone);
    }
}

#[test]
fn test_bone_span_inverse_of_index() {
    // If bone B spans joints (i, i + 1), the bone at index i is B.
    for i in 0..26usize {
        let bone = NameToHandJoint::get_physics_bone_from_index(i);
        if let Some((start, end)) = bone_span(&bone) {
            assert_eq!(start.index(), i);
            assert_eq!(end.index(), i + 1);
            assert_eq!(NameToHandJoint::get_physics_bone_from_index(start.index()), bone);
        }
    }
}

#[test]
fn test_terminal_bones_have_no_span() {
    let terminals = [
        PhysicsHandBone::Palm,
        PhysicsHandBone::Wrist,
        PhysicsHandBone::ThumbTip,
        PhysicsHandBone::IndexTip,
        PhysicsHandBone::MiddleTip,
        PhysicsHandBone::RingTip,
        PhysicsHandBone::LittleTip,
    ];
    for bone in terminals.iter() {
        assert!(bone_span(bone).is_none());
    }
}

#[test]
fn test_spanning_bones_adjacent_within_finger() {
    let mut spanning = 0;
    for bone in ALL_BONES.iter() {
        if let Some((start, end)) = bone_span(bone) {
            spanning += 1;
            let si = start.index();
            let ei = end.index();
            assert_eq!(ei, si + 1);
            assert!(si < 26 && ei < 26);
            assert_eq!(finger_of_joint(si), finger_of_joint(ei));
        }
    }
    assert_eq!(spanning, 19);
}

#[test]
fn test_thumb_metacarpal_span() {
    let span = bone_span(&PhysicsHandBone::ThumbMetacarpal);
    assert_eq!(
        span,
        Some((NameToHandJoint::ThumbMetacarpal, NameToHandJoint::ThumbProximal))
    );
}

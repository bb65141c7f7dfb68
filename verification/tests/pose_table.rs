//! The joint pose table: calibration data queries.

use hand_physics::bones::{Hand, NameToHandJoint, PhysicsHandBone};
use hand_physics::math::Vec3Fx;
use hand_physics::pose::{get_default_left_hand, get_default_right_hand,
    get_start_and_end_joints};

const ALL_JOINTS: [NameToHandJoint; 26] = [
    NameToHandJoint::Palm,
    NameToHandJoint::Wrist,
    NameToHandJoint::ThumbMetacarpal,
    NameToHandJoint::ThumbProximal,
    NameToHandJoint::ThumbDistal,
    NameToHandJoint::ThumbTip,
    NameToHandJoint::IndexMetacarpal,
    NameToHandJoint::IndexProximal,
    NameToHandJoint::IndexIntermediate,
    NameToHandJoint::IndexDistal,
    NameToHandJoint::IndexTip,
    NameToHandJoint::MiddleMetacarpal,
    NameToHandJoint::MiddleProximal,
    NameToHandJoint::MiddleIntermediate,
    NameToHandJoint::MiddleDistal,
    NameToHandJoint::MiddleTip,
    NameToHandJoint::RingMetacarpal,
    NameToHandJoint::RingProximal,
    NameToHandJoint::RingIntermediate,
    NameToHandJoint::RingDistal,
    NameToHandJoint::RingTip,
    NameToHandJoint::LittleMetacarpal,
    NameToHandJoint::LittleProximal,
    NameToHandJoint::LittleIntermediate,
    NameToHandJoint::LittleDistal,
    NameToHandJoint::LittleTip,
];

#[test]
fn test_right_palm_calibration() {
    let hand = get_default_right_hand();
    let palm = hand.inner[0];
    assert_eq!(palm.position, Vec3Fx { x: 115_789_560, y: 1_032_229_800, z: -79_403_060 });
    assert!(palm.position_valid && palm.position_tracked);
    assert!(palm.orientation_valid && palm.orientation_tracked);
    assert_eq!(palm.radius, 17_204_836);
    assert_eq!(palm.orientation.x, -160_579_230);
    assert_eq!(palm.orientation.w, -155_349_310);
}

#[test]
fn test_left_wrist_calibration() {
    let hand = get_default_left_hand();
    let wrist = hand.inner[1];
    assert_eq!(wrist.position, Vec3Fx { x: -93_779_340, y: 973_401_300, z: -127_050_120 });
    assert_eq!(wrist.radius, 22_538_071);
}

#[test]
fn test_get_joint_data_matches_tables() {
    let right = get_default_right_hand();
    let left = get_default_left_hand();
    for (i, joint) in ALL_JOINTS.iter().enumerate() {
        assert_eq!(joint.get_joint_data(&Hand::Right), right.inner[i]);
        assert_eq!(joint.get_joint_data(&Hand::Left), left.inner[i]);
    }
}

#[test]
fn test_start_and_end_joints_thumb() {
    let pair = get_start_and_end_joints(&PhysicsHandBone::ThumbMetacarpal, &Hand::Right)
        .expect("thumb metacarpal spans two joints");
    let table = get_default_right_hand();
    assert_eq!(pair.0, table.inner[2]);
    assert_eq!(pair.1, table.inner[3]);
}

#[test]
fn test_start_and_end_joints_terminal_none() {
    assert!(get_start_and_end_joints(&PhysicsHandBone::Palm, &Hand::Right).is_none());
    assert!(get_start_and_end_joints(&PhysicsHandBone::Wrist, &Hand::Left).is_none());
    assert!(get_start_and_end_joints(&PhysicsHandBone::MiddleTip, &Hand::Right).is_none());
}

#[test]
fn test_hands_differ() {
    // The topology is hand-independent; the coordinate values are not.
    let right = get_default_right_hand();
    let left = get_default_left_hand();
    assert_ne!(right.inner[0].position, left.inner[0].position);
    assert_eq!(right.inner[0].radius, left.inner[0].radius);
}

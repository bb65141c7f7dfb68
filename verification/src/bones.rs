//! Hand topology: the 26 canonical joints, the 26 anatomical bone segments,
//! and the static map from each bone to the pair of joints that bound it.
//!
//! Joints and bones share one canonical ordering: palm, wrist, then four
//! joints for the thumb and five for each finger, metacarpal to tip.  The
//! bone at index `n` spans joints `n` and `n + 1` within its finger's run;
//! the palm, the wrist and the five tips bound no segment.

use vstd::prelude::*;

verus! {

/// Which hand a joint, bone or body belongs to.
#[derive(Clone, Copy, Debug, PartialEq, Eq, Structural)]
pub enum Hand {
    Left,
    Right,
}

/// The 26 anatomical bone segments, in the canonical joint order.
#[derive(Clone, Copy, Debug, PartialEq, Eq, Structural)]
pub enum PhysicsHandBone {
    Palm,
    Wrist,
    ThumbMetacarpal,
    ThumbProximal,
    ThumbDistal,
    ThumbTip,
    IndexMetacarpal,
    IndexProximal,
    IndexIntermediate,
    IndexDistal,
    IndexTip,
    MiddleMetacarpal,
    MiddleProximal,
    MiddleIntermediate,
    MiddleDistal,
    MiddleTip,
    RingMetacarpal,
    RingProximal,
    RingIntermediate,
    RingDistal,
    RingTip,
    LittleMetacarpal,
    LittleProximal,
    LittleIntermediate,
    LittleDistal,
    LittleTip,
}

/// Whether a dynamic bone body's collider has been sized from the tracked
/// skeleton yet (`True` once initialized).
#[derive(Clone, Copy, Debug, PartialEq, Eq, Structural)]
pub enum BoneInitState {
    True,
    False,
}

/// How the reconciliation step pulls a dynamic body toward its tracked pose:
/// by overwriting its transform, or by assigning velocities for the physics
/// engine to integrate.
#[derive(Clone, Copy, Debug, PartialEq, Eq, Structural)]
pub enum MatchingType {
    PositionMatching,
    VelocityMatching,
}

/// The 26 named joints, in the same canonical order as the bones.
#[derive(Clone, Copy, Debug, PartialEq, Eq, Structural)]
pub enum NameToHandJoint {
    Palm,
    Wrist,
    ThumbMetacarpal,
    ThumbProximal,
    ThumbDistal,
    ThumbTip,
    IndexMetacarpal,
    IndexProximal,
    IndexIntermediate,
    IndexDistal,
    IndexTip,
    MiddleMetacarpal,
    MiddleProximal,
    MiddleIntermediate,
    MiddleDistal,
    MiddleTip,
    RingMetacarpal,
    RingProximal,
    RingIntermediate,
    RingDistal,
    RingTip,
    LittleMetacarpal,
    LittleProximal,
    LittleIntermediate,
    LittleDistal,
    LittleTip,
}

/// Position of a joint in the canonical 0..25 ordering.
pub open spec fn spec_joint_index(j: NameToHandJoint) -> int {
    match j {
        NameToHandJoint::Palm => 0,
        NameToHandJoint::Wrist => 1,
        NameToHandJoint::ThumbMetacarpal => 2,
        NameToHandJoint::ThumbProximal => 3,
        NameToHandJoint::ThumbDistal => 4,
        NameToHandJoint::ThumbTip => 5,
        NameToHandJoint::IndexMetacarpal => 6,
        NameToHandJoint::IndexProximal => 7,
        NameToHandJoint::IndexIntermediate => 8,
        NameToHandJoint::IndexDistal => 9,
        NameToHandJoint::IndexTip => 10,
        NameToHandJoint::MiddleMetacarpal => 11,
        NameToHandJoint::MiddleProximal => 12,
        NameToHandJoint::MiddleIntermediate => 13,
        NameToHandJoint::MiddleDistal => 14,
        NameToHandJoint::MiddleTip => 15,
        NameToHandJoint::RingMetacarpal => 16,
        NameToHandJoint::RingProximal => 17,
        NameToHandJoint::RingIntermediate => 18,
        NameToHandJoint::RingDistal => 19,
        NameToHandJoint::RingTip => 20,
        NameToHandJoint::LittleMetacarpal => 21,
        NameToHandJoint::LittleProximal => 22,
        NameToHandJoint::LittleIntermediate => 23,
        NameToHandJoint::LittleDistal => 24,
        NameToHandJoint::LittleTip => 25,
    }
}

/// Position of a bone in the canonical 0..25 ordering.
pub open spec fn spec_bone_index(b: PhysicsHandBone) -> int {
    match b {
        PhysicsHandBone::Palm => 0,
        PhysicsHandBone::Wrist => 1,
        PhysicsHandBone::ThumbMetacarpal => 2,
        PhysicsHandBone::ThumbProximal => 3,
        PhysicsHandBone::ThumbDistal => 4,
        PhysicsHandBone::ThumbTip => 5,
        PhysicsHandBone::IndexMetacarpal => 6,
        PhysicsHandBone::IndexProximal => 7,
        PhysicsHandBone::IndexIntermediate => 8,
        PhysicsHandBone::IndexDistal => 9,
        PhysicsHandBone::IndexTip => 10,
        PhysicsHandBone::MiddleMetacarpal => 11,
        PhysicsHandBone::MiddleProximal => 12,
        PhysicsHandBone::MiddleIntermediate => 13,
        PhysicsHandBone::MiddleDistal => 14,
        PhysicsHandBone::MiddleTip => 15,
        PhysicsHandBone::RingMetacarpal => 16,
        PhysicsHandBone::RingProximal => 17,
        PhysicsHandBone::RingIntermediate => 18,
        PhysicsHandBone::RingDistal => 19,
        PhysicsHandBone::RingTip => 20,
        PhysicsHandBone::LittleMetacarpal => 21,
        PhysicsHandBone::LittleProximal => 22,
        PhysicsHandBone::LittleIntermediate => 23,
        PhysicsHandBone::LittleDistal => 24,
        PhysicsHandBone::LittleTip => 25,
    }
}

/// The bone at position `i` of the canonical ordering (meaningful for
/// `0 <= i < 26`).
pub open spec fn spec_bone_of_index(i: int) -> PhysicsHandBone {
    if i == 0 { PhysicsHandBone::Palm }
    else if i == 1 { PhysicsHandBone::Wrist }
    else if i == 2 { PhysicsHandBone::ThumbMetacarpal }
    else if i == 3 { PhysicsHandBone::ThumbProximal }
    else if i == 4 { PhysicsHandBone::ThumbDistal }
    else if i == 5 { PhysicsHandBone::ThumbTip }
    else if i == 6 { PhysicsHandBone::IndexMetacarpal }
    else if i == 7 { PhysicsHandBone::IndexProximal }
    else if i == 8 { PhysicsHandBone::IndexIntermediate }
    else if i == 9 { PhysicsHandBone::IndexDistal }
    else if i == 10 { PhysicsHandBone::IndexTip }
    else if i == 11 { PhysicsHandBone::MiddleMetacarpal }
    else if i == 12 { PhysicsHandBone::MiddleProximal }
    else if i == 13 { PhysicsHandBone::MiddleIntermediate }
    else if i == 14 { PhysicsHandBone::MiddleDistal }
    else if i == 15 { PhysicsHandBone::MiddleTip }
    else if i == 16 { PhysicsHandBone::RingMetacarpal }
    else if i == 17 { PhysicsHandBone::RingProximal }
    else if i == 18 { PhysicsHandBone::RingIntermediate }
    else if i == 19 { PhysicsHandBone::RingDistal }
    else if i == 20 { PhysicsHandBone::RingTip }
    else if i == 21 { PhysicsHandBone::LittleMetacarpal }
    else if i == 22 { PhysicsHandBone::LittleProximal }
    else if i == 23 { PhysicsHandBone::LittleIntermediate }
    else if i == 24 { PhysicsHandBone::LittleDistal }
    else { PhysicsHandBone::LittleTip }
}

/// The pair of joint names bounding a bone, or `None` for the seven bones
/// with no physical extent (palm, wrist and the five tips).
pub open spec fn spec_bone_span(b: PhysicsHandBone) -> Option<(NameToHandJoint, NameToHandJoint)> {
    match b {
        PhysicsHandBone::Palm => None,
        PhysicsHandBone::Wrist => None,
        PhysicsHandBone::ThumbMetacarpal =>
            Some((NameToHandJoint::ThumbMetacarpal, NameToHandJoint::ThumbProximal)),
        PhysicsHandBone::ThumbProximal =>
            Some((NameToHandJoint::ThumbProximal, NameToHandJoint::ThumbDistal)),
        PhysicsHandBone::ThumbDistal =>
            Some((NameToHandJoint::ThumbDistal, NameToHandJoint::ThumbTip)),
        PhysicsHandBone::ThumbTip => None,
        PhysicsHandBone::IndexMetacarpal =>
            Some((NameToHandJoint::IndexMetacarpal, NameToHandJoint::IndexProximal)),
        PhysicsHandBone::IndexProximal =>
            Some((NameToHandJoint::IndexProximal, NameToHandJoint::IndexIntermediate)),
        PhysicsHandBone::IndexIntermediate =>
            Some((NameToHandJoint::IndexIntermediate, NameToHandJoint::IndexDistal)),
        PhysicsHandBone::IndexDistal =>
            Some((NameToHandJoint::IndexDistal, NameToHandJoint::IndexTip)),
        PhysicsHandBone::IndexTip => None,
        PhysicsHandBone::MiddleMetacarpal =>
            Some((NameToHandJoint::MiddleMetacarpal, NameToHandJoint::MiddleProximal)),
        PhysicsHandBone::MiddleProximal =>
            Some((NameToHandJoint::MiddleProximal, NameToHandJoint::MiddleIntermediate)),
        PhysicsHandBone::MiddleIntermediate =>
            Some((NameToHandJoint::MiddleIntermediate, NameToHandJoint::MiddleDistal)),
        PhysicsHandBone::MiddleDistal =>
            Some((NameToHandJoint::MiddleDistal, NameToHandJoint::MiddleTip)),
        PhysicsHandBone::MiddleTip => None,
        PhysicsHandBone::RingMetacarpal =>
            Some((NameToHandJoint::RingMetacarpal, NameToHandJoint::RingProximal)),
        PhysicsHandBone::RingProximal =>
            Some((NameToHandJoint::RingProximal, NameToHandJoint::RingIntermediate)),
        PhysicsHandBone::RingIntermediate =>
            Some((NameToHandJoint::RingIntermediate, NameToHandJoint::RingDistal)),
        PhysicsHandBone::RingDistal =>
            Some((NameToHandJoint::RingDistal, NameToHandJoint::RingTip)),
        PhysicsHandBone::RingTip => None,
        PhysicsHandBone::LittleMetacarpal =>
            Some((NameToHandJoint::LittleMetacarpal, NameToHandJoint::LittleProximal)),
        PhysicsHandBone::LittleProximal =>
            Some((NameToHandJoint::LittleProximal, NameToHandJoint::LittleIntermediate)),
        PhysicsHandBone::LittleIntermediate =>
            Some((NameToHandJoint::LittleIntermediate, NameToHandJoint::LittleDistal)),
        PhysicsHandBone::LittleDistal =>
            Some((NameToHandJoint::LittleDistal, NameToHandJoint::LittleTip)),
        PhysicsHandBone::LittleTip => None,
    }
}

/// The seven bones with no physical extent.
pub open spec fn spec_bone_is_terminal(b: PhysicsHandBone) -> bool {
    b == PhysicsHandBone::Palm || b == PhysicsHandBone::Wrist
        || b == PhysicsHandBone::ThumbTip || b == PhysicsHandBone::IndexTip
        || b == PhysicsHandBone::MiddleTip || b == PhysicsHandBone::RingTip
        || b == PhysicsHandBone::LittleTip
}

/// The finger (or root) a joint index belongs to: 0 palm, 1 wrist, 2 thumb,
/// 3 index, 4 middle, 5 ring, 6 little.
pub open spec fn spec_finger_of_joint(i: int) -> int {
    if i == 0 { 0 }
    else if i == 1 { 1 }
    else if 2 <= i <= 5 { 2 }
    else if 6 <= i <= 10 { 3 }
    else if 11 <= i <= 15 { 4 }
    else if 16 <= i <= 20 { 5 }
    else { 6 }
}

impl NameToHandJoint {
    /// Position of this joint in the canonical 0..25 ordering.
    pub fn index(self) -> (r: usize)
        ensures
            r == spec_joint_index(self),
            r < 26,
    {
        match self {
            NameToHandJoint::Palm => 0,
            NameToHandJoint::Wrist => 1,
            NameToHandJoint::ThumbMetacarpal => 2,
            NameToHandJoint::ThumbProximal => 3,
            NameToHandJoint::ThumbDistal => 4,
            NameToHandJoint::ThumbTip => 5,
            NameToHandJoint::IndexMetacarpal => 6,
            NameToHandJoint::IndexProximal => 7,
            NameToHandJoint::IndexIntermediate => 8,
            NameToHandJoint::IndexDistal => 9,
            NameToHandJoint::IndexTip => 10,
            NameToHandJoint::MiddleMetacarpal => 11,
            NameToHandJoint::MiddleProximal => 12,
            NameToHandJoint::MiddleIntermediate => 13,
            NameToHandJoint::MiddleDistal => 14,
            NameToHandJoint::MiddleTip => 15,
            NameToHandJoint::RingMetacarpal => 16,
            NameToHandJoint::RingProximal => 17,
            NameToHandJoint::RingIntermediate => 18,
            NameToHandJoint::RingDistal => 19,
            NameToHandJoint::RingTip => 20,
            NameToHandJoint::LittleMetacarpal => 21,
            NameToHandJoint::LittleProximal => 22,
            NameToHandJoint::LittleIntermediate => 23,
            NameToHandJoint::LittleDistal => 24,
            NameToHandJoint::LittleTip => 25,
        }
    }

    /// The bone whose canonical position matches a joint index.  The index
    /// must be in range; an out-of-range index is a caller error.
    pub fn get_physics_bone_from_index(index: usize) -> (r: PhysicsHandBone)
        requires
            index < 26,
        ensures
            r == spec_bone_of_index(index as int),
    {
        match index {
            0 => PhysicsHandBone::Palm,
            1 => PhysicsHandBone::Wrist,
            2 => PhysicsHandBone::ThumbMetacarpal,
            3 => PhysicsHandBone::ThumbProximal,
            4 => PhysicsHandBone::ThumbDistal,
            5 => PhysicsHandBone::ThumbTip,
            6 => PhysicsHandBone::IndexMetacarpal,
            7 => PhysicsHandBone::IndexProximal,
            8 => PhysicsHandBone::IndexIntermediate,
            9 => PhysicsHandBone::IndexDistal,
            10 => PhysicsHandBone::IndexTip,
            11 => PhysicsHandBone::MiddleMetacarpal,
            12 => PhysicsHandBone::MiddleProximal,
            13 => PhysicsHandBone::MiddleIntermediate,
            14 => PhysicsHandBone::MiddleDistal,
            15 => PhysicsHandBone::MiddleTip,
            16 => PhysicsHandBone::RingMetacarpal,
            17 => PhysicsHandBone::RingProximal,
            18 => PhysicsHandBone::RingIntermediate,
            19 => PhysicsHandBone::RingDistal,
            20 => PhysicsHandBone::RingTip,
            21 => PhysicsHandBone::LittleMetacarpal,
            22 => PhysicsHandBone::LittleProximal,
            23 => PhysicsHandBone::LittleIntermediate,
            24 => PhysicsHandBone::LittleDistal,
            _ => PhysicsHandBone::LittleTip,
        }
    }
}

/// The pair of joint names bounding a bone, or `None` for a bone with no
/// physical extent.
pub fn bone_span(bone: &PhysicsHandBone) -> (r: Option<(NameToHandJoint, NameToHandJoint)>)
    ensures
        r == spec_bone_span(*bone),
{
    match bone {
        PhysicsHandBone::Palm => None,
        PhysicsHandBone::Wrist => None,
        PhysicsHandBone::ThumbMetacarpal =>
            Some((NameToHandJoint::ThumbMetacarpal, NameToHandJoint::ThumbProximal)),
        PhysicsHandBone::ThumbProximal =>
            Some((NameToHandJoint::ThumbProximal, NameToHandJoint::ThumbDistal)),
        PhysicsHandBone::ThumbDistal =>
            Some((NameToHandJoint::ThumbDistal, NameToHandJoint::ThumbTip)),
        PhysicsHandBone::ThumbTip => None,
        PhysicsHandBone::IndexMetacarpal =>
            Some((NameToHandJoint::IndexMetacarpal, NameToHandJoint::IndexProximal)),
        PhysicsHandBone::IndexProximal =>
            Some((NameToHandJoint::IndexProximal, NameToHandJoint::IndexIntermediate)),
        PhysicsHandBone::IndexIntermediate =>
            Some((NameToHandJoint::IndexIntermediate, NameToHandJoint::IndexDistal)),
        PhysicsHandBone::IndexDistal =>
            Some((NameToHandJoint::IndexDistal, NameToHandJoint::IndexTip)),
        PhysicsHandBone::IndexTip => None,
        PhysicsHandBone::MiddleMetacarpal =>
            Some((NameToHandJoint::MiddleMetacarpal, NameToHandJoint::MiddleProximal)),
        PhysicsHandBone::MiddleProximal =>
            Some((NameToHandJoint::MiddleProximal, NameToHandJoint::MiddleIntermediate)),
        PhysicsHandBone::MiddleIntermediate =>
            Some((NameToHandJoint::MiddleIntermediate, NameToHandJoint::MiddleDistal)),
        PhysicsHandBone::MiddleDistal =>
            Some((NameToHandJoint::MiddleDistal, NameToHandJoint::MiddleTip)),
        PhysicsHandBone::MiddleTip => None,
        PhysicsHandBone::RingMetacarpal =>
            Some((NameToHandJoint::RingMetacarpal, NameToHandJoint::RingProximal)),
        PhysicsHandBone::RingProximal =>
            Some((NameToHandJoint::RingProximal, NameToHandJoint::RingIntermediate)),
        PhysicsHandBone::RingIntermediate =>
            Some((NameToHandJoint::RingIntermediate, NameToHandJoint::RingDistal)),
        PhysicsHandBone::RingDistal =>
            Some((NameToHandJoint::RingDistal, NameToHandJoint::RingTip)),
        PhysicsHandBone::RingTip => None,
        PhysicsHandBone::LittleMetacarpal =>
            Some((NameToHandJoint::LittleMetacarpal, NameToHandJoint::LittleProximal)),
        PhysicsHandBone::LittleProximal =>
            Some((NameToHandJoint::LittleProximal, NameToHandJoint::LittleIntermediate)),
        PhysicsHandBone::LittleIntermediate =>
            Some((NameToHandJoint::LittleIntermediate, NameToHandJoint::LittleDistal)),
        PhysicsHandBone::LittleDistal =>
            Some((NameToHandJoint::LittleDistal, NameToHandJoint::LittleTip)),
        PhysicsHandBone::LittleTip => None,
    }
}

/// A bone that spans joints `(i, i + 1)` sits at position `i` of the
/// canonical ordering, and its two joints are adjacent within one finger's
/// run.
pub proof fn lemma_bone_span_adjacent(b: PhysicsHandBone)
    requires
        spec_bone_span(b) is Some,
    ensures
        spec_joint_index(spec_bone_span(b)->Some_0.1)
            == spec_joint_index(spec_bone_span(b)->Some_0.0) + 1,
        spec_bone_of_index(spec_joint_index(spec_bone_span(b)->Some_0.0)) == b,
        0 <= spec_joint_index(spec_bone_span(b)->Some_0.0) < 25,
        spec_finger_of_joint(spec_joint_index(spec_bone_span(b)->Some_0.0))
            == spec_finger_of_joint(spec_joint_index(spec_bone_span(b)->Some_0.1)),
{
}

/// A bone bounds no segment exactly when it is the palm, the wrist or a tip.
pub proof fn lemma_bone_span_none_iff_terminal(b: PhysicsHandBone)
    ensures
        spec_bone_span(b) is None <==> spec_bone_is_terminal(b),
{
}

} // verus!

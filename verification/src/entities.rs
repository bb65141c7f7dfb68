//! The hand entity table: per hand, the runtime identities of the tracked
//! joint entities, recorded once at startup by the tracked-hand spawner and
//! read thereafter by the reconciliation step.
//!
//! Entity identities are plain `u64` handles; the engine-facing edge maps
//! them to and from its own entity type.  A slot that was never recorded
//! holds `NO_ENTITY`.

use vstd::prelude::*;
use crate::bones::{PhysicsHandBone, spec_bone_span, spec_joint_index};

verus! {

/// The identity of a slot that was never recorded.
pub const NO_ENTITY: u64 = 0;

/// Tracked entity identities for the four thumb joints.
#[derive(Clone, Copy, Debug, PartialEq, Eq, Structural)]
pub struct ThumbEntities {
    pub metacarpal: u64,
    pub proximal: u64,
    pub distal: u64,
    pub tip: u64,
}

/// Tracked entity identities for the five joints of one finger.
#[derive(Clone, Copy, Debug, PartialEq, Eq, Structural)]
pub struct FingerEntities {
    pub metacarpal: u64,
    pub proximal: u64,
    pub intermediate: u64,
    pub distal: u64,
    pub tip: u64,
}

/// Tracked entity identities for the 26 joints of one hand.
#[derive(Clone, Copy, Debug, PartialEq, Eq, Structural)]
pub struct HandResource {
    pub palm: u64,
    pub wrist: u64,
    pub thumb: ThumbEntities,
    pub index: FingerEntities,
    pub middle: FingerEntities,
    pub ring: FingerEntities,
    pub little: FingerEntities,
}

/// Tracked entity identities for both hands.
#[derive(Clone, Copy, Debug, PartialEq, Eq, Structural)]
pub struct HandsResource {
    pub left: HandResource,
    pub right: HandResource,
}

/// The entity recorded for the joint at canonical position `i` (meaningful
/// for `0 <= i < 26`).
pub open spec fn spec_joint_entity(res: HandResource, i: int) -> u64 {
    if i == 0 { res.palm }
    else if i == 1 { res.wrist }
    else if i == 2 { res.thumb.metacarpal }
    else if i == 3 { res.thumb.proximal }
    else if i == 4 { res.thumb.distal }
    else if i == 5 { res.thumb.tip }
    else if i == 6 { res.index.metacarpal }
    else if i == 7 { res.index.proximal }
    else if i == 8 { res.index.intermediate }
    else if i == 9 { res.index.distal }
    else if i == 10 { res.index.tip }
    else if i == 11 { res.middle.metacarpal }
    else if i == 12 { res.middle.proximal }
    else if i == 13 { res.middle.intermediate }
    else if i == 14 { res.middle.distal }
    else if i == 15 { res.middle.tip }
    else if i == 16 { res.ring.metacarpal }
    else if i == 17 { res.ring.proximal }
    else if i == 18 { res.ring.intermediate }
    else if i == 19 { res.ring.distal }
    else if i == 20 { res.ring.tip }
    else if i == 21 { res.little.metacarpal }
    else if i == 22 { res.little.proximal }
    else if i == 23 { res.little.intermediate }
    else if i == 24 { res.little.distal }
    else { res.little.tip }
}

/// The entities of the two joints bounding a bone, or `None` for a bone with
/// no physical extent.
pub open spec fn spec_start_and_end_entities(res: HandResource, bone: PhysicsHandBone)
    -> Option<(u64, u64)> {
    match spec_bone_span(bone) {
        None => None,
        Some(pair) => Some((
            spec_joint_entity(res, spec_joint_index(pair.0)),
            spec_joint_entity(res, spec_joint_index(pair.1)),
        )),
    }
}

impl ThumbEntities {
    /// A thumb slot set with every joint unrecorded.
    pub fn empty() -> (r: ThumbEntities)
        ensures
            r == (ThumbEntities {
                metacarpal: NO_ENTITY,
                proximal: NO_ENTITY,
                distal: NO_ENTITY,
                tip: NO_ENTITY,
            }),
    {
        ThumbEntities { metacarpal: NO_ENTITY, proximal: NO_ENTITY, distal: NO_ENTITY, tip: NO_ENTITY }
    }
}

impl FingerEntities {
    /// A finger slot set with every joint unrecorded.
    pub fn empty() -> (r: FingerEntities)
        ensures
            r == (FingerEntities {
                metacarpal: NO_ENTITY,
                proximal: NO_ENTITY,
                intermediate: NO_ENTITY,
                distal: NO_ENTITY,
                tip: NO_ENTITY,
            }),
    {
        FingerEntities {
            metacarpal: NO_ENTITY,
            proximal: NO_ENTITY,
            intermediate: NO_ENTITY,
            distal: NO_ENTITY,
            tip: NO_ENTITY,
        }
    }
}

impl HandResource {
    /// A hand table with every joint unrecorded.
    pub fn empty() -> (r: HandResource)
        ensures
            forall|i: int| 0 <= i < 26 ==> spec_joint_entity(r, i) == NO_ENTITY,
    {
        HandResource {
            palm: NO_ENTITY,
            wrist: NO_ENTITY,
            thumb: ThumbEntities::empty(),
            index: FingerEntities::empty(),
            middle: FingerEntities::empty(),
            ring: FingerEntities::empty(),
            little: FingerEntities::empty(),
        }
    }

    /// Record the tracked entity for the bone's own joint slot (the joint
    /// sharing the bone's canonical position); every other slot is kept.
    pub fn record_bone_entity(&mut self, bone: PhysicsHandBone, id: u64)
        ensures
            spec_joint_entity(*final(self), crate::bones::spec_bone_index(bone)) == id,
            forall|i: int|
                0 <= i < 26 && i != crate::bones::spec_bone_index(bone)
                    ==> spec_joint_entity(*final(self), i) == spec_joint_entity(*old(self), i),
    {
        match bone {
            PhysicsHandBone::Palm => { self.palm = id; }
            PhysicsHandBone::Wrist => { self.wrist = id; }
            PhysicsHandBone::ThumbMetacarpal => { self.thumb.metacarpal = id; }
            PhysicsHandBone::ThumbProximal => { self.thumb.proximal = id; }
            PhysicsHandBone::ThumbDistal => { self.thumb.distal = id; }
            PhysicsHandBone::ThumbTip => { self.thumb.tip = id; }
            PhysicsHandBone::IndexMetacarpal => { self.index.metacarpal = id; }
            PhysicsHandBone::IndexProximal => { self.index.proximal = id; }
            PhysicsHandBone::IndexIntermediate => { self.index.intermediate = id; }
            PhysicsHandBone::IndexDistal => { self.index.distal = id; }
            PhysicsHandBone::IndexTip => { self.index.tip = id; }
            PhysicsHandBone::MiddleMetacarpal => { self.middle.metacarpal = id; }
            PhysicsHandBone::MiddleProximal => { self.middle.proximal = id; }
            PhysicsHandBone::MiddleIntermediate => { self.middle.intermediate = id; }
            PhysicsHandBone::MiddleDistal => { self.middle.distal = id; }
            PhysicsHandBone::MiddleTip => { self.middle.tip = id; }
            PhysicsHandBone::RingMetacarpal => { self.ring.metacarpal = id; }
            PhysicsHandBone::RingProximal => { self.ring.proximal = id; }
            PhysicsHandBone::RingIntermediate => { self.ring.intermediate = id; }
            PhysicsHandBone::RingDistal => { self.ring.distal = id; }
            PhysicsHandBone::RingTip => { self.ring.tip = id; }
            PhysicsHandBone::LittleMetacarpal => { self.little.metacarpal = id; }
            PhysicsHandBone::LittleProximal => { self.little.proximal = id; }
            PhysicsHandBone::LittleIntermediate => { self.little.intermediate = id; }
            PhysicsHandBone::LittleDistal => { self.little.distal = id; }
            PhysicsHandBone::LittleTip => { self.little.tip = id; }
        }
    }
}

impl HandsResource {
    /// A table with every slot of both hands unrecorded.
    pub fn empty() -> (r: HandsResource)
        ensures
            forall|i: int| 0 <= i < 26 ==> spec_joint_entity(r.left, i) == NO_ENTITY,
            forall|i: int| 0 <= i < 26 ==> spec_joint_entity(r.right, i) == NO_ENTITY,
    {
        HandsResource { left: HandResource::empty(), right: HandResource::empty() }
    }
}

/// The entities of the two joints bounding a bone, resolved against one
/// hand's table, or `None` for a bone with no physical extent.
pub fn get_start_and_end_entities(hand_res: HandResource, bone: &PhysicsHandBone)
    -> (r: Option<(u64, u64)>)
    ensures
        r == spec_start_and_end_entities(hand_res, *bone),
{
    match crate::bones::bone_span(bone) {
        None => None,
        Some((start, end)) => {
            let si = start.index();
            let ei = end.index();
            Some((joint_entity(hand_res, si), joint_entity(hand_res, ei)))
        }
    }
}

/// The entity recorded for the joint at canonical position `i`.
pub fn joint_entity(res: HandResource, i: usize) -> (r: u64)
    requires
        i < 26,
    ensures
        r == spec_joint_entity(res, i as int),
{
    match i {
        0 => res.palm,
        1 => res.wrist,
        2 => res.thumb.metacarpal,
        3 => res.thumb.proximal,
        4 => res.thumb.distal,
        5 => res.thumb.tip,
        6 => res.index.metacarpal,
        7 => res.index.proximal,
        8 => res.index.intermediate,
        9 => res.index.distal,
        10 => res.index.tip,
        11 => res.middle.metacarpal,
        12 => res.middle.proximal,
        13 => res.middle.intermediate,
        14 => res.middle.distal,
        15 => res.middle.tip,
        16 => res.ring.metacarpal,
        17 => res.ring.proximal,
        18 => res.ring.intermediate,
        19 => res.ring.distal,
        20 => res.ring.tip,
        21 => res.little.metacarpal,
        22 => res.little.proximal,
        23 => res.little.intermediate,
        24 => res.little.distal,
        _ => res.little.tip,
    }
}

} // verus!

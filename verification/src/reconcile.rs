//! The per-tick reconciliation step: pull each dynamic bone body toward its
//! tracked pose.
//!
//! Every fixed simulation tick, each dynamic body's bone is resolved to the
//! two tracked entities bounding it; from their current translations the
//! step either sizes the body's collider once (first tick) or computes the
//! linear and angular velocity that move the body toward the tracked pose
//! over one tick.  A bone with no physical extent, an unresolved tracked
//! entity, and a degenerate tracked length are each skipped silently for the
//! tick: transient tracking dropout is expected and self-corrects.

use vstd::prelude::*;
use crate::bones::{BoneInitState, Hand, MatchingType, PhysicsHandBone};
use crate::entities::{HandsResource, spec_start_and_end_entities, get_start_and_end_entities};
use crate::math::{Vec3Fx, SCALE};
use crate::math::{cross, div_trunc, isqrt_u128, len2, normalize, spec_cross, spec_len2,
    spec_unit, spec_vec_sub, sqrt_floor, tdiv, vec_bounded, vec_in_range, vec_sub,
    lemma_sqrt_floor_lower, lemma_sqrt_floor_upper};

verus! {

/// Fixed-point length below which the tracked bone direction is treated as
/// degenerate for the tick (one millimeter).
pub const DEGENERATE_LENGTH: i64 = 1_000_000;

/// Radius of the capsule collider a bone body is sized with on its
/// initialization tick (0.010 m).
pub const BONE_COLLIDER_RADIUS: i64 = 10_000_000;

/// Fixed simulation ticks per second: the reciprocal of the fixed timestep.
pub const TICKS_PER_SECOND: i64 = 60;

/// Linear and angular velocity of a dynamic body.
#[derive(Clone, Copy, Debug, PartialEq, Eq, Structural)]
pub struct Velocity {
    pub linvel: Vec3Fx,
    pub angvel: Vec3Fx,
}

/// A capsule collider: a segment between two body-local points, with a
/// radius.
#[derive(Clone, Copy, Debug, PartialEq, Eq, Structural)]
pub struct CapsuleCollider {
    pub a: Vec3Fx,
    pub b: Vec3Fx,
    pub radius: i64,
}

/// The reconciliation-relevant state of one dynamic joint body.  The
/// engine-facing edge reads these plain values from the simulated body each
/// tick and writes the velocity (and, on the initialization tick, the
/// collider) back.
#[derive(Clone, Copy, Debug, PartialEq, Eq, Structural)]
pub struct DynamicBoneBody {
    /// Current translation of the simulated body.
    pub translation: Vec3Fx,
    /// Current forward direction of the simulated body, at unit scale.
    pub forward: Vec3Fx,
    /// The body's collider shape.
    pub collider: CapsuleCollider,
    /// The bone this body represents.
    pub bone: PhysicsHandBone,
    /// Whether the collider has been sized from the tracked skeleton.
    pub init_state: BoneInitState,
    /// The hand this body belongs to.
    pub hand: Hand,
    /// The body's velocity, integrated by the physics engine.
    pub velocity: Velocity,
}

/// One tracked joint entity's identity and current translation, as read from
/// the engine each tick.
#[derive(Clone, Copy, Debug, PartialEq, Eq, Structural)]
pub struct TrackedJoint {
    pub entity: u64,
    pub translation: Vec3Fx,
}

/// A body whose translation lies in the working volume and whose forward
/// vector is at unit scale.
pub open spec fn wf_body(b: DynamicBoneBody) -> bool {
    vec_in_range(b.translation) && vec_bounded(b.forward, SCALE as int)
}

/// The tracked direction from `start` to `end` is too short to normalize
/// this tick.
pub open spec fn spec_degenerate(start: Vec3Fx, end: Vec3Fx) -> bool {
    spec_len2(spec_vec_sub(end, start)) < DEGENERATE_LENGTH * DEGENERATE_LENGTH
}

/// The unit forward direction from `start` toward `end`, at `SCALE`.
pub open spec fn spec_desired_forward(start: Vec3Fx, end: Vec3Fx) -> Vec3Fx {
    let d = spec_vec_sub(end, start);
    spec_unit(d, sqrt_floor(spec_len2(d)))
}

/// The linear velocity that carries `from` onto `to` in one tick of length
/// `1 / inv_dt` seconds.
pub open spec fn spec_linear_velocity(from: Vec3Fx, to: Vec3Fx, inv_dt: i64) -> Vec3Fx {
    Vec3Fx {
        x: ((to.x - from.x) * inv_dt) as i64,
        y: ((to.y - from.y) * inv_dt) as i64,
        z: ((to.z - from.z) * inv_dt) as i64,
    }
}

/// The angular velocity that rotates `forward` toward `desired` in one tick:
/// their cross product (rescaled from the product of two unit-scale vectors
/// back to unit scale) divided by the tick length.
pub open spec fn spec_angular_velocity(forward: Vec3Fx, desired: Vec3Fx, inv_dt: i64) -> Vec3Fx {
    let c = spec_cross(forward, desired);
    Vec3Fx {
        x: (tdiv(c.0, SCALE as int) * inv_dt) as i64,
        y: (tdiv(c.1, SCALE as int) * inv_dt) as i64,
        z: (tdiv(c.2, SCALE as int) * inv_dt) as i64,
    }
}

/// The collider a bone body is sized with on its initialization tick: a
/// capsule from the local origin to the local point `(0, 0, -len)`.
pub open spec fn spec_init_collider(len: int) -> CapsuleCollider {
    CapsuleCollider {
        a: Vec3Fx { x: 0, y: 0, z: 0 },
        b: Vec3Fx { x: 0, y: 0, z: (-len) as i64 },
        radius: BONE_COLLIDER_RADIUS,
    }
}

/// One reconciliation step of one body against the tracked translations of
/// its bone's two bounding joints.
pub open spec fn spec_bone_step(
    b: DynamicBoneBody,
    start: Vec3Fx,
    end: Vec3Fx,
    matching: MatchingType,
    inv_dt: i64,
) -> DynamicBoneBody {
    let d = spec_vec_sub(end, start);
    if spec_degenerate(start, end) {
        b
    } else {
        let len = sqrt_floor(spec_len2(d));
        match b.init_state {
            BoneInitState::False => DynamicBoneBody {
                collider: spec_init_collider(len),
                init_state: BoneInitState::True,
                ..b
            },
            BoneInitState::True => match matching {
                MatchingType::PositionMatching => DynamicBoneBody {
                    translation: start,
                    forward: spec_unit(d, len),
                    ..b
                },
                MatchingType::VelocityMatching => DynamicBoneBody {
                    velocity: Velocity {
                        linvel: spec_linear_velocity(b.translation, start, inv_dt),
                        angvel: spec_angular_velocity(b.forward, spec_unit(d, len), inv_dt),
                    },
                    ..b
                },
            },
        }
    }
}

/// Multiply a bounded value by a small positive factor, exact.
fn scale_i64(a: i64, m: i64) -> (r: i64)
    requires
        -16_000_000_000 <= a <= 16_000_000_000,
        1 <= m <= 1000,
    ensures
        r == a * m,
{
    proof {
        assert(-16_000_000_000_000 <= a * m <= 16_000_000_000_000) by (nonlinear_arith)
            requires -16_000_000_000 <= a <= 16_000_000_000, 1 <= m <= 1000;
    }
    a * m
}

/// `tdiv` of a bounded value by a positive divisor is bounded by the
/// quotient of the bounds.
proof fn lemma_tdiv_bound(a: int, d: int, b: int)
    requires
        0 < d,
        0 <= b,
        -b <= a <= b,
    ensures
        -(b / d) <= tdiv(a, d) <= b / d,
{
    if a >= 0 {
        vstd::arithmetic::div_mod::lemma_div_is_ordered(a, b, d);
        vstd::arithmetic::div_mod::lemma_div_pos_is_pos(a, d);
    } else {
        vstd::arithmetic::div_mod::lemma_div_is_ordered(-a, b, d);
        vstd::arithmetic::div_mod::lemma_div_pos_is_pos(-a, d);
    }
}

/// One reconciliation step of one dynamic bone body, given the current
/// tracked translations of its bone's two bounding joints.
///
/// If the tracked direction is degenerate the body is left untouched.
/// Otherwise an uninitialized body has its collider sized to the measured
/// bone length, once; an initialized body is pulled toward the tracked pose
/// by the chosen matching mode.
pub fn update_physics_bone(
    body: &mut DynamicBoneBody,
    start: Vec3Fx,
    end: Vec3Fx,
    matching: MatchingType,
    inv_dt: i64,
)
    requires
        wf_body(*old(body)),
        vec_in_range(start),
        vec_in_range(end),
        1 <= inv_dt <= 1000,
    ensures
        *final(body) == spec_bone_step(*old(body), start, end, matching, inv_dt),
        wf_body(*final(body)),
{
    let direction = vec_sub(end, start);
    let l2 = len2(direction);
    let threshold = (DEGENERATE_LENGTH as u128) * (DEGENERATE_LENGTH as u128);
    if l2 < threshold {
        return;
    }
    let len = isqrt_u128(l2);
    proof {
        lemma_sqrt_floor_lower(l2 as int, len as int, 1_000_000);
        lemma_sqrt_floor_upper(l2 as int, len as int, 28_000_000_000);
    }
    match body.init_state {
        BoneInitState::False => {
            body.collider = CapsuleCollider {
                a: Vec3Fx { x: 0, y: 0, z: 0 },
                b: Vec3Fx { x: 0, y: 0, z: -(len as i64) },
                radius: BONE_COLLIDER_RADIUS,
            };
            body.init_state = BoneInitState::True;
        }
        BoneInitState::True => {
            match matching {
                MatchingType::PositionMatching => {
                    body.translation = start;
                    body.forward = normalize(direction, len);
                }
                MatchingType::VelocityMatching => {
                    body.velocity.linvel = Vec3Fx {
                        x: scale_i64(start.x - body.translation.x, inv_dt),
                        y: scale_i64(start.y - body.translation.y, inv_dt),
                        z: scale_i64(start.z - body.translation.z, inv_dt),
                    };
                    let desired_forward = normalize(direction, len);
                    let (cx, cy, cz) = cross(body.forward, desired_forward);
                    proof {
                        lemma_tdiv_bound(cx as int, SCALE as int, 2_000_000_000_000_000_000);
                        lemma_tdiv_bound(cy as int, SCALE as int, 2_000_000_000_000_000_000);
                        lemma_tdiv_bound(cz as int, SCALE as int, 2_000_000_000_000_000_000);
                    }
                    body.velocity.angvel = Vec3Fx {
                        x: scale_i64(div_trunc(cx, SCALE), inv_dt),
                        y: scale_i64(div_trunc(cy, SCALE), inv_dt),
                        z: scale_i64(div_trunc(cz, SCALE), inv_dt),
                    };
                }
            }
        }
    }
}

/// The current translation recorded for a tracked entity, by a first-match
/// scan of the tick's tracked joints.
pub open spec fn spec_lookup(tracked_joints: Seq<TrackedJoint>, id: u64) -> Option<Vec3Fx>
    decreases tracked_joints.len(),
{
    if tracked_joints.len() == 0 {
        None
    } else if tracked_joints[0].entity == id {
        Some(tracked_joints[0].translation)
    } else {
        spec_lookup(tracked_joints.drop_first(), id)
    }
}

/// Find the current translation of a tracked entity.
pub fn lookup_tracked(tracked_joints: &Vec<TrackedJoint>, id: u64) -> (r: Option<Vec3Fx>)
    ensures
        r == spec_lookup(tracked_joints@, id),
        r is Some ==> exists|j: int|
            0 <= j < tracked_joints@.len() && #[trigger] tracked_joints@[j].entity == id
                && tracked_joints@[j].translation == r->Some_0,
{
    let n = tracked_joints.len();
    let mut k: usize = 0;
    proof {
        assert(tracked_joints@.skip(0) =~= tracked_joints@);
    }
    while k < n
        invariant
            k <= n == tracked_joints@.len(),
            spec_lookup(tracked_joints@, id) == spec_lookup(tracked_joints@.skip(k as int), id),
            forall|j: int| 0 <= j < k ==> #[trigger] tracked_joints@[j].entity != id,
        decreases n - k,
    {
        let t = tracked_joints[k];
        if t.entity == id {
            proof {
                assert(tracked_joints@.skip(k as int)[0] == tracked_joints@[k as int]);
            }
            return Some(t.translation);
        }
        proof {
            assert(tracked_joints@.skip(k as int).drop_first() =~= tracked_joints@.skip(k as int + 1));
        }
        k += 1;
    }
    proof {
        assert(tracked_joints@.skip(n as int).len() == 0);
    }
    None
}

/// The reconciliation step applied to one body for one tick: left-hand
/// bodies are skipped, a bone with no span is skipped, an unresolved tracked
/// entity is skipped, and otherwise the body steps against the two tracked
/// translations.
pub open spec fn spec_hand_step(
    b: DynamicBoneBody,
    res: HandsResource,
    tracked_joints: Seq<TrackedJoint>,
    matching: MatchingType,
    inv_dt: i64,
) -> DynamicBoneBody {
    if b.hand == Hand::Left {
        b
    } else {
        let table = res.right;
        match spec_start_and_end_entities(table, b.bone) {
            None => b,
            Some(pair) => {
                let s = spec_lookup(tracked_joints, pair.0);
                let e = spec_lookup(tracked_joints, pair.1);
                if s is Some && e is Some {
                    spec_bone_step(b, s->Some_0, e->Some_0, matching, inv_dt)
                } else {
                    b
                }
            }
        }
    }
}

/// One fixed tick of the reconciliation over every dynamic bone body.
///
/// Each right-hand body is resolved against the hand entity table and the
/// tick's tracked translations and stepped; left-hand bodies, bones with no
/// span, and bodies whose tracked entities cannot be resolved this tick are
/// left untouched.
pub fn update_physics_hands(
    bodies: &mut Vec<DynamicBoneBody>,
    hands_res: &HandsResource,
    tracked_joints: &Vec<TrackedJoint>,
    matching: MatchingType,
    inv_dt: i64,
)
    requires
        forall|i: int| 0 <= i < old(bodies)@.len() ==> wf_body(#[trigger] old(bodies)@[i]),
        forall|j: int| 0 <= j < tracked_joints@.len()
            ==> vec_in_range(#[trigger] tracked_joints@[j].translation),
        1 <= inv_dt <= 1000,
    ensures
        final(bodies)@.len() == old(bodies)@.len(),
        forall|i: int| 0 <= i < old(bodies)@.len()
            ==> final(bodies)@[i] == spec_hand_step(
                #[trigger] old(bodies)@[i], *hands_res, tracked_joints@, matching, inv_dt),
        forall|i: int| 0 <= i < final(bodies)@.len() ==> wf_body(#[trigger] final(bodies)@[i]),
{
    let n = bodies.len();
    let mut k: usize = 0;
    while k < n
        invariant
            k <= n == bodies@.len() == old(bodies)@.len(),
            forall|i: int| 0 <= i < old(bodies)@.len() ==> wf_body(#[trigger] old(bodies)@[i]),
            forall|j: int| 0 <= j < tracked_joints@.len()
                ==> vec_in_range(#[trigger] tracked_joints@[j].translation),
            1 <= inv_dt <= 1000,
            forall|i: int| 0 <= i < k
                ==> bodies@[i] == spec_hand_step(
                    #[trigger] old(bodies)@[i], *hands_res, tracked_joints@, matching, inv_dt),
            forall|i: int| k <= i < n ==> bodies@[i] == #[trigger] old(bodies)@[i],
            forall|i: int| 0 <= i < n ==> wf_body(#[trigger] bodies@[i]),
        decreases n - k,
    {
        let b = bodies[k];
        if b.hand == Hand::Left {
            k += 1;
            continue;
        }
        let table = match b.hand {
            Hand::Left => hands_res.left,
            Hand::Right => hands_res.right,
        };
        match get_start_and_end_entities(table, &b.bone) {
            None => {}
            Some((start_entity, end_entity)) => {
                let start_opt = lookup_tracked(tracked_joints, start_entity);
                let end_opt = lookup_tracked(tracked_joints, end_entity);
                match (start_opt, end_opt) {
                    (Some(start), Some(end)) => {
                        let mut stepped = b;
                        update_physics_bone(&mut stepped, start, end, matching, inv_dt);
                        bodies[k] = stepped;
                    }
                    _ => {}
                }
            }
        }
        k += 1;
    }
}

/// Velocity matching is idempotent at convergence: a body already at the
/// tracked start translation, already facing the desired forward direction,
/// is assigned exactly zero linear and angular velocity.
pub proof fn lemma_velocity_matching_idempotent(
    b: DynamicBoneBody,
    start: Vec3Fx,
    end: Vec3Fx,
    inv_dt: i64,
)
    requires
        b.init_state == BoneInitState::True,
        !spec_degenerate(start, end),
        b.translation == start,
        b.forward == spec_desired_forward(start, end),
        1 <= inv_dt <= 1000,
    ensures
        ({
            let stepped = spec_bone_step(b, start, end, MatchingType::VelocityMatching, inv_dt);
            stepped.velocity.linvel == (Vec3Fx { x: 0, y: 0, z: 0 })
                && stepped.velocity.angvel == (Vec3Fx { x: 0, y: 0, z: 0 })
                && stepped.translation == b.translation
                && stepped.forward == b.forward
                && stepped.collider == b.collider
        }),
{
    crate::math::lemma_cross_self_zero(b.forward);
}

/// A degenerate tracked direction leaves the body entirely unchanged for
/// the tick: no transform, collider, state or velocity mutation.
pub proof fn lemma_degenerate_skip(
    b: DynamicBoneBody,
    start: Vec3Fx,
    end: Vec3Fx,
    matching: MatchingType,
    inv_dt: i64,
)
    requires
        spec_degenerate(start, end),
    ensures
        spec_bone_step(b, start, end, matching, inv_dt) == b,
{
}

/// An initialized body's collider and initialization state are never
/// changed by a reconciliation step, whatever the tracked input.
pub proof fn lemma_initialized_collider_fixed(
    b: DynamicBoneBody,
    start: Vec3Fx,
    end: Vec3Fx,
    matching: MatchingType,
    inv_dt: i64,
)
    requires
        b.init_state == BoneInitState::True,
    ensures
        spec_bone_step(b, start, end, matching, inv_dt).collider == b.collider,
        spec_bone_step(b, start, end, matching, inv_dt).init_state == BoneInitState::True,
{
}

/// Initialization is one-shot: the first non-degenerate step sizes the
/// collider to the bone length measured on that tick, and any later step —
/// whatever length the tracked skeleton measures then — leaves that collider
/// exactly as sized.
pub proof fn lemma_initialization_one_shot(
    b: DynamicBoneBody,
    s1: Vec3Fx,
    e1: Vec3Fx,
    m1: MatchingType,
    dt1: i64,
    s2: Vec3Fx,
    e2: Vec3Fx,
    m2: MatchingType,
    dt2: i64,
)
    requires
        b.init_state == BoneInitState::False,
        !spec_degenerate(s1, e1),
    ensures
        ({
            let once = spec_bone_step(b, s1, e1, m1, dt1);
            let twice = spec_bone_step(once, s2, e2, m2, dt2);
            once.init_state == BoneInitState::True
                && once.collider == spec_init_collider(
                    sqrt_floor(spec_len2(spec_vec_sub(e1, s1))))
                && twice.collider == once.collider
                && twice.init_state == BoneInitState::True
        }),
{
    let once = spec_bone_step(b, s1, e1, m1, dt1);
    lemma_initialized_collider_fixed(once, s2, e2, m2, dt2);
}

} // verus!

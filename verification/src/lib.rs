//! Verified core of a VR hand-presence physics library.
//!
//! Tracked hand-joint poses arrive from an XR runtime; physics-simulated
//! rigid bodies represent the hand's bones.  Every fixed simulation tick the
//! reconciliation step pulls each dynamic bone toward its tracked pose by
//! assigning linear and angular velocities, so that the physics engine can
//! reconcile the pull with collision constraints instead of teleporting.
//!
//! All geometry is carried in fixed-point coordinates: one unit is one
//! billionth of a meter, held in an `i64`.  The engine-facing edge (entity
//! spawning, queries, rendering) converts between these plain values and the
//! engine's own types.

pub mod bones;
pub mod entities;
pub mod math;
pub mod pose;
pub mod reconcile;
pub mod spawn;

pub use bones::BoneInitState;
pub use bones::Hand;
pub use bones::MatchingType;
pub use bones::NameToHandJoint;
pub use bones::PhysicsHandBone;
pub use entities::FingerEntities;
pub use entities::HandResource;
pub use entities::HandsResource;
pub use entities::ThumbEntities;
pub use entities::get_start_and_end_entities;
pub use math::Vec3Fx;
pub use pose::HandJoint;
pub use pose::HandJoints;
pub use pose::QuatFx;
pub use pose::get_default_left_hand;
pub use pose::get_default_right_hand;
pub use pose::get_start_and_end_joints;
pub use reconcile::CapsuleCollider;
pub use reconcile::DynamicBoneBody;
pub use reconcile::TrackedJoint;
pub use reconcile::Velocity;
pub use reconcile::update_physics_bone;
pub use reconcile::update_physics_hands;
pub use spawn::PhysicsBodyDef;
pub use spawn::TrackedSpawnParams;
pub use spawn::collision_groups_for_hand;
pub use spawn::physics_body_def;
pub use spawn::tracked_spawn_params;

//! Plain records of physics-query answers.
//!
//! Ray casts run in the physics engine against a read-only snapshot of the
//! world as of tick start; their answers enter the core as a list of hits
//! ordered by distance along the ray. The core only reads these values and is
//! verified for every possible answer.

use vstd::prelude::*;
use crate::math::Vec3;

verus! {

/// One collider hit by a ray, as the physics backend reports it.
#[derive(Clone, Copy, Debug, PartialEq, Eq, Structural)]
pub struct RayHit {
    /// Id of the collider that was hit.
    pub collider: u64,
    /// Id of the rigid body the collider belongs to.
    pub body: u64,
    /// Whether the collider is a solid triangle mesh (level geometry).
    pub trimesh: bool,
    /// Where the ray hit, in milli-units.
    pub position: Vec3,
    /// Surface normal at the hit, in milli-units (not necessarily unit).
    pub normal: Vec3,
}

} // verus!

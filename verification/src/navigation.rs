//! Thin per-frame navigation adapter.
//!
//! The navigation-mesh solver is an external service: each tick the engine
//! forwards the bot's goal to it and reads back an updated steering position.
//! The adapter turns that answer into a desired movement direction — or no
//! direction when the bot is already standing on it. When no navigation mesh
//! is available this tick the adapter is skipped and the bot falls back to
//! moving straight toward its raw goal.

use vstd::prelude::*;
use crate::math::Vec3;
use crate::math::in_world;
use crate::math::normalize_milli;
use crate::math::spec_normalize_milli;
use crate::math::spec_sqr_len;
use crate::perception::Target;

verus! {

/// The movement goal: the target's position when one is held, else the
/// point of interest.
pub open spec fn spec_goal(target: Option<Target>, poi: Vec3) -> Vec3 {
    match target {
        Some(t) => t.position,
        None => poi,
    }
}

/// The raw look vector, from the body toward the goal.
pub open spec fn spec_look(goal: Vec3, position: Vec3) -> Vec3 {
    Vec3 {
        x: (goal.x - position.x) as i64,
        y: (goal.y - position.y) as i64,
        z: (goal.z - position.z) as i64,
    }
}

/// The milli-normalized direction from `position` toward `to`; `None` for
/// the stationary case.
pub open spec fn spec_dir(to: Vec3, position: Vec3) -> Option<Vec3> {
    let d = spec_look(to, position);
    if spec_sqr_len(d) == 0 {
        None
    } else {
        Some(spec_normalize_milli(d))
    }
}

/// One adapter step: the desired movement direction toward the steering
/// position the navigation-mesh query returned — or straight toward the raw
/// goal when no navigation mesh was available — milli-normalized, or `None`
/// when the bot already stands there.
pub fn steer_direction(nav_steering: Option<Vec3>, goal: Vec3, position: Vec3) -> (dir: Option<
    Vec3,
>)
    requires
        in_world(goal),
        in_world(position),
        nav_steering matches Some(p) ==> in_world(p),
    ensures
        dir == spec_dir(
            match nav_steering {
                Some(p) => p,
                None => goal,
            },
            position,
        ),
        dir matches Some(d) ==> crate::math::norm_bounded(d),
{
    let steer = match nav_steering {
        Some(p) => p,
        None => goal,
    };
    normalize_milli(steer.sub(position))
}

} // verus!

//! Outbound gameplay messages.
//!
//! The core never mutates other entities directly: damage, sounds, shots and
//! effects are queued as messages for an ordered processing stage outside the
//! core. Amounts are integer hit points; gains and rolloff factors are in
//! thousandths; positions and radii are in milli-units.

use vstd::prelude::*;
use crate::math::Vec3;

verus! {

/// A visual effect kind the core can request.
#[derive(Clone, Copy, Debug, PartialEq, Eq, Structural)]
pub enum EffectKind {
    ItemAppear,
}

/// One outbound request to the gameplay-message bus.
#[derive(Clone, Copy, Debug, PartialEq)]
pub enum Message {
    ShootWeapon { weapon: usize, initial_velocity: Vec3, direction: Option<Vec3> },
    DamageActor { actor: u64, who: u64, amount: i64 },
    PlaySound {
        path: &'static str,
        position: Vec3,
        gain_milli: u64,
        rolloff_milli: u64,
        radius_mu: i64,
    },
    CreateEffect { kind: EffectKind, position: Vec3 },
}

} // verus!

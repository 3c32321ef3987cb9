//! Control core for autonomous bot agents in a first-person-shooter game.
//!
//! The crate covers per-tick decision making (target selection, point-of-interest
//! tracking, weapon selection, steering toward a goal) and the three-layer
//! animation-blending state machine (locomotion, combat, dying) that turns those
//! decisions into poses and discrete gameplay events.
//!
//! All quantities are plain integers in fixed-point units: world positions in
//! milli-units, time in milliseconds, angles in milli-degrees. The engine
//! services that the core consumes (asset loading, physics ray casts,
//! navigation-mesh queries, the scene graph) are black boxes: their answers
//! enter each tick as plain values and the decisions taken on them are verified.

pub mod animation;
pub mod bot;
pub mod item;
pub mod machine;
pub mod machines;
pub mod math;
pub mod message;
pub mod navigation;
pub mod perception;
pub mod physics;
pub mod weapon;

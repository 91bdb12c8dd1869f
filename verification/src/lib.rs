//! Combat resolution core of a top-down arena shooter.
//!
//! The engine around this crate (rendering, audio, physics stepping, input
//! polling) is an unverified collaborator. This library owns the semantics of
//! combat: health bookkeeping, hit classification, knockback, the post-hit
//! invulnerability window, the weapon and projectile lifecycle, and the
//! enemy population spawner.
//!
//! Durations are counted in integer time units of 1/600 of a second. That
//! granularity keeps both the 60 Hz logic frame (10 units) and the
//! tenth-of-a-second timings used throughout the game (60 units) exact.
//! Positions and distances are counted in milli-pixels, so fractional
//! movement per frame stays exact as well.
//!
//! Module map: [`geom`] holds the fixed-point plane arithmetic; [`health`]
//! the vitality ledgers; [`combat`] knockback, hit boxes and the collision
//! event classifier; [`player`] the intent snapshot, player movement and
//! the invulnerability window; [`weapons`] the firing state machine and
//! the projectile kinds; [`enemies`] the chasers and the population
//! spawner; [`game`] the session clocks and lifetimes; and [`world`] the
//! per-tick pipeline that drives them in the fixed order.
use vstd::prelude::*;

pub mod combat;
pub mod enemies;
pub mod game;
pub mod geom;
pub mod health;
pub mod physics;
pub mod player;
mod random;
pub mod weapons;
pub mod world;

verus! {

/// Number of time units in one second.
pub const TIME_UNITS_PER_SECOND: u32 = 600;

/// Duration of one 60 Hz logic frame, in time units.
pub const FRAME_TIME_UNITS: u32 = 10;

/// Longest tick the simulation accepts: one hour of elapsed time. A
/// single frame is a few units; the cap only keeps movement arithmetic
/// inside machine bounds.
pub const MAX_TICK_UNITS: u32 = 2_160_000;

} // verus!

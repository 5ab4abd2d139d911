//! Core simulation of a small 2D arcade game: a player sprite dodges roaming
//! enemies and falling meteors inside a bounded window.
//!
//! All quantities are exact fixed-point integers:
//! - positions and velocities are measured in micro-pixels (`MICRO` per pixel),
//! - direction vectors are scaled by `MILLI` (a unit vector has length ~`MILLI`),
//! - time is measured in milliseconds.
//!
//! With these units one simulation step is exact integer arithmetic:
//! a direction component (scale `MILLI`) times a speed (pixels per second)
//! times an elapsed time (milliseconds) is a displacement in micro-pixels,
//! with no rounding anywhere.

use vstd::prelude::*;

pub mod math;
pub mod timer;
pub mod world;
pub mod movement;
pub mod collision;
pub mod spawn;
pub mod game;

verus! {

/// Direction-vector scale: a unit direction has length about `MILLI`.
pub const MILLI: i64 = 1000;

/// Micro-pixels per pixel: positions are stored in units of 1/`MICRO` pixel.
pub const MICRO: i64 = 1000000;

/// Player speed, in pixels per second.
pub const PLAYER_SPEED: i64 = 70;

/// Enemy speed, in pixels per second.
pub const ENEMY_SPEED: i64 = 70;

/// Side of the player (and meteor) sprite, in pixels.
pub const SPRITE_SIZE: i64 = 64;

/// Side of the enemy sprite, in pixels.
pub const ENEMY_SIZE: i64 = 108;

/// Number of enemies created at startup.
pub const NUM_ENEMIES: usize = 4;

/// Period of the enemy spawn timer, in milliseconds.
pub const ENEMY_SPAWN_TIME_MS: u64 = 5000;

/// Period of the meteor spawn timer, in milliseconds.
pub const METEOR_SPAWN_TIME_MS: u64 = 10000;

/// A meteor spawns at most this many pixels above the top window edge.
pub const METEOR_OFFSET: i64 = 20;

/// Meteor fall speed, in pixels per second.
pub const METEOR_SPEED: i64 = 200;

/// Largest elapsed time a single tick may report, in milliseconds.
pub const ELAPSED_MAX_MS: u64 = 1000000;

/// Coordinates are kept within this many micro-pixels of the origin, so that
/// squared distances and displacements stay far from any integer overflow.
pub const COORD_LIMIT: i64 = 0x10000000000000;

} // verus!

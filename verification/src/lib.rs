//! Simulation core of a side-scrolling platformer: fixed-timestep physics
//! and collision for one actor against static axis-aligned platforms, a
//! procedural level-generation policy bounded by jump reachability, a
//! scrolling window that spawns and prunes world entities, and a small
//! game-flow state machine.
//!
//! All world-space lengths are held in thousandths of a pixel and all
//! durations in milliseconds, so that sub-pixel physics (half-pixel
//! gravity, fractional grace periods) stays exact in integer arithmetic.
//! The rendering and input layer converts at the boundary.
use vstd::prelude::*;

pub mod geom;
pub mod config;
pub mod entities;
pub mod player;
pub mod collide;
pub mod spawn;
pub mod world;
pub mod laws;

verus! {

/// Side of the player's square hitbox, in thousandths of a pixel (32 px).
pub const PLAYER_SIZE: i64 = 32_000;

/// Side of a coin's square hitbox (16 px).
pub const COIN_SIZE: i64 = 16_000;

/// Width of a small platform (128 px).
pub const SMALL_WIDTH: i64 = 128_000;

/// Width of a big platform (256 px).
pub const BIG_WIDTH: i64 = 256_000;

/// Height of every platform (32 px).
pub const PLATFORM_HEIGHT: i64 = 32_000;

/// Smallest horizontal gap the spawner may leave between platforms (120 px).
pub const MIN_GAP: i64 = 120_000;

/// Hard upper bound on the spawner's gap, whatever the jump physics allow (220 px).
pub const GAP_CAP: i64 = 220_000;

/// Top of the playable vertical band for platforms (150 px).
pub const BAND_MIN: i64 = 150_000;

/// Bottom of the playable vertical band for platforms (400 px).
pub const BAND_MAX: i64 = 400_000;

/// Largest vertical step between consecutive spawned platforms (80 px).
pub const Y_STEP: i64 = 80_000;

/// How far behind the camera an entity may trail before it is pruned (100 px).
pub const PRUNE_MARGIN: i64 = 100_000;

/// A spawned coin floats this far above its platform's top (16 px).
pub const COIN_RISE: i64 = 16_000;

/// Magnitude bound on every coordinate, velocity, timer and score held in
/// a well-formed world; chosen so that the handful of additions one tick
/// performs stays far away from `i64` overflow.
pub const STATE_BOUND: i64 = 0x1000_0000_0000;

/// Looser magnitude bound accepted by the individual simulation steps, so
/// that values derived within one tick (integrated positions, the camera,
/// freshly spawned platforms) still qualify as arguments.
pub const CALC_BOUND: i64 = 0x4_0000_0000_0000;

} // verus!

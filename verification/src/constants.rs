//! Simulation constants, in fixed-point milliunits (one thousandth of a
//! world unit) and milliseconds.

use vstd::prelude::*;

verus! {

/// Downward pull subtracted from the vertical velocity while airborne, in
/// milliunits per second.
pub const GRAVITY: i64 = 50_000;

/// Fixed per-tick decay of the vertical velocity while airborne, in
/// milliunits per second.
pub const VERTICAL_DAMPING: i64 = 5_000;

/// Upward velocity given to a grounded actor that jumps, in milliunits per
/// second.
pub const JUMP_IMPULSE: i64 = 300_000;

/// Horizontal walking speed handed to the input layer, in milliunits per
/// second.
pub const WALK_SPEED: i64 = 50_000;

/// Horizontal de-penetration nudge applied per side contact: one world unit,
/// in milliunits.
pub const COLLISION_NUDGE: i64 = 1_000;

/// Longest simulation tick accepted by the integrator, in milliseconds.
pub const MAX_TICK_MILLIS: i64 = 60_000;

/// Largest velocity magnitude accepted by the integrator, in milliunits per
/// second.
pub const MAX_SPEED: i64 = 1_000_000_000;

/// Most pending collision results the integrator accepts in one tick.
pub const MAX_PENDING_COLLISIONS: usize = 1_000_000;

} // verus!

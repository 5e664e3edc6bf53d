//! Physics data: velocities, world positions, axis-aligned boxes, the actor's
//! collider with its per-tick pending collision list, and the collision
//! result classification.

use vstd::prelude::*;
use crate::coords::COORD_LIMIT;

verus! {

/// Largest world-coordinate magnitude, in milliunits, accepted by collision
/// detection and motion integration. Wide enough to hold every coordinate the
/// map loader can emit.
pub const WORLD_LIMIT: i64 = 0x4000_0000_0000;

/// Side of the actor's box on which an overlap with a static box sits, or
/// full containment of one box in the other.
#[derive(Clone, Copy, PartialEq, Eq, Structural, Debug)]
pub enum Collision {
    Left,
    Right,
    Top,
    Bottom,
    FullOverlap,
}

/// Velocity in milliunits per second; positive y points upward.
#[derive(Clone, Copy, PartialEq, Eq, Structural, Debug)]
pub struct Velocity {
    pub x: i64,
    pub y: i64,
}

/// World position of a box center, in milliunits.
#[derive(Clone, Copy, PartialEq, Eq, Structural, Debug)]
pub struct Position {
    pub x: i64,
    pub y: i64,
}

/// Axis-aligned box: center position and half-extents, in milliunits.
#[derive(Clone, Copy, PartialEq, Eq, Structural, Debug)]
pub struct Aabb {
    pub x: i64,
    pub y: i64,
    pub half_width: i64,
    pub half_height: i64,
}

/// Whether a box's center and half-extents are small enough for overlap
/// arithmetic without overflow.
pub open spec fn aabb_wf(b: Aabb) -> bool {
    &&& -WORLD_LIMIT <= b.x <= WORLD_LIMIT
    &&& -WORLD_LIMIT <= b.y <= WORLD_LIMIT
    &&& 0 <= b.half_width <= COORD_LIMIT
    &&& 0 <= b.half_height <= COORD_LIMIT
}

/// The actor's collider: box half-extents plus the tick's pending collision
/// results, appended by the detector and consumed then cleared by the
/// integrator.
#[derive(Clone, Debug)]
pub struct Collider {
    pub half_width: i64,
    pub half_height: i64,
    pub collision: Vec<Collision>,
}

impl Collider {
    /// Whether the half-extents are small enough for overlap arithmetic.
    pub open spec fn wf(self) -> bool {
        0 <= self.half_width <= COORD_LIMIT && 0 <= self.half_height <= COORD_LIMIT
    }

    /// The actor's box when its collider is centered at (`x`, `y`).
    pub open spec fn spec_aabb_at(self, x: i64, y: i64) -> Aabb {
        Aabb { x, y, half_width: self.half_width, half_height: self.half_height }
    }
}

} // verus!

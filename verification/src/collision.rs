//! Axis-aligned overlap test and side classification. `collide(a, b)` names
//! the side of box `b` that box `a` overlaps: `Left` means `a` sits toward
//! `b`'s left face. When both boxes straddle each other on an axis the axis
//! offers no side; when neither axis offers one, the overlap is full
//! containment. When both axes offer a side, the shallower penetration wins,
//! the horizontal side on a tie.

use vstd::prelude::*;
use crate::physics::{Aabb, Collision, aabb_wf};

verus! {

/// Whether two boxes overlap with positive area: strict on every edge, so
/// boxes that merely touch do not collide.
pub open spec fn spec_overlapping(a: Aabb, b: Aabb) -> bool {
    &&& a.x - a.half_width < b.x + b.half_width
    &&& a.x + a.half_width > b.x - b.half_width
    &&& a.y - a.half_height < b.y + b.half_height
    &&& a.y + a.half_height > b.y - b.half_height
}

/// Horizontal side of `b` that `a` penetrates, with the penetration depth:
/// `Left` when `a`'s right edge reaches past `b`'s left edge but not past its
/// right, `Right` symmetrically; none when either box straddles the other on
/// this axis.
pub open spec fn spec_x_side(a: Aabb, b: Aabb) -> Option<(Collision, int)> {
    let a_min = a.x - a.half_width;
    let a_max = a.x + a.half_width;
    let b_min = b.x - b.half_width;
    let b_max = b.x + b.half_width;
    if a_min < b_min && a_max > b_min && a_max < b_max {
        Some((Collision::Left, a_max - b_min))
    } else if a_min > b_min && a_min < b_max && a_max > b_max {
        Some((Collision::Right, b_max - a_min))
    } else {
        None
    }
}

/// Vertical side of `b` that `a` penetrates, with the penetration depth:
/// `Bottom` when `a` reaches up past `b`'s bottom edge, `Top` symmetrically;
/// none when either box straddles the other on this axis.
pub open spec fn spec_y_side(a: Aabb, b: Aabb) -> Option<(Collision, int)> {
    let a_min = a.y - a.half_height;
    let a_max = a.y + a.half_height;
    let b_min = b.y - b.half_height;
    let b_max = b.y + b.half_height;
    if a_min < b_min && a_max > b_min && a_max < b_max {
        Some((Collision::Bottom, a_max - b_min))
    } else if a_min > b_min && a_min < b_max && a_max > b_max {
        Some((Collision::Top, b_max - a_min))
    } else {
        None
    }
}

/// Classification of the overlap of `a` against `b`: no result when the boxes
/// do not overlap; the single penetrated side when only one axis offers one;
/// the side of shallower penetration when both do, the horizontal side on a
/// tie; full containment when neither axis offers a side.
pub open spec fn spec_collide(a: Aabb, b: Aabb) -> Option<Collision> {
    if spec_overlapping(a, b) {
        match (spec_x_side(a, b), spec_y_side(a, b)) {
            (Option::None, Option::None) => Some(Collision::FullOverlap),
            (Option::Some(xs), Option::None) => Some(xs.0),
            (Option::None, Option::Some(ys)) => Some(ys.0),
            (Option::Some(xs), Option::Some(ys)) => if ys.1 < xs.1 {
                Some(ys.0)
            } else {
                Some(xs.0)
            },
        }
    } else {
        None
    }
}

/// Overlap-test and classify box `a` against box `b`.
pub fn collide(a: &Aabb, b: &Aabb) -> (r: Option<Collision>)
    requires
        aabb_wf(*a),
        aabb_wf(*b),
    ensures
        r == spec_collide(*a, *b),
{
    let a_min_x = a.x - a.half_width;
    let a_max_x = a.x + a.half_width;
    let b_min_x = b.x - b.half_width;
    let b_max_x = b.x + b.half_width;
    let a_min_y = a.y - a.half_height;
    let a_max_y = a.y + a.half_height;
    let b_min_y = b.y - b.half_height;
    let b_max_y = b.y + b.half_height;
    if !(a_min_x < b_max_x && a_max_x > b_min_x && a_min_y < b_max_y && a_max_y > b_min_y) {
        return None;
    }
    let x_side: Option<(Collision, i64)> = if a_min_x < b_min_x && a_max_x > b_min_x && a_max_x
        < b_max_x {
        Some((Collision::Left, a_max_x - b_min_x))
    } else if a_min_x > b_min_x && a_min_x < b_max_x && a_max_x > b_max_x {
        Some((Collision::Right, b_max_x - a_min_x))
    } else {
        None
    };
    let y_side: Option<(Collision, i64)> = if a_min_y < b_min_y && a_max_y > b_min_y && a_max_y
        < b_max_y {
        Some((Collision::Bottom, a_max_y - b_min_y))
    } else if a_min_y > b_min_y && a_min_y < b_max_y && a_max_y > b_max_y {
        Some((Collision::Top, b_max_y - a_min_y))
    } else {
        None
    };
    match (x_side, y_side) {
        (Option::None, Option::None) => Some(Collision::FullOverlap),
        (Option::Some(xs), Option::None) => Some(xs.0),
        (Option::None, Option::Some(ys)) => Some(ys.0),
        (Option::Some(xs), Option::Some(ys)) => if ys.1 < xs.1 {
            Some(ys.0)
        } else {
            Some(xs.0)
        },
    }
}

} // verus!

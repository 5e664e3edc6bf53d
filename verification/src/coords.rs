//! Conversion between tile-map coordinates (origin at the top-left corner,
//! y growing downward) and world coordinates (origin at the map center,
//! y growing upward). All lengths are in fixed-point milliunits: one
//! thousandth of a world unit.

use vstd::prelude::*;

verus! {

/// Largest magnitude, in milliunits, accepted for a source coordinate or an
/// extent handed to the coordinate conversion.
pub const COORD_LIMIT: i64 = 0x1000_0000_0000;

/// Whether a source coordinate or extent is small enough for conversion
/// without overflow.
pub open spec fn in_coord_range(v: int) -> bool {
    -COORD_LIMIT <= v <= COORD_LIMIT
}

/// World x of a box whose top-left corner sits at tile-map x `tiled_x`, for a
/// box `width` wide on a map `map_width` wide: shift the origin from the map's
/// left edge to its center and move from the corner to the box center.
pub open spec fn spec_tiled_to_world_x(tiled_x: int, width: int, map_width: int) -> int {
    tiled_x - map_width / 2 + width / 2
}

/// World y of a box whose top-left corner sits at tile-map y `tiled_y`, for a
/// box `height` tall on a map `map_height` tall: flip the axis to grow upward,
/// shift the origin to the map center, and move to the box center.
pub open spec fn spec_tiled_to_world_y(tiled_y: int, height: int, map_height: int) -> int {
    -tiled_y + map_height / 2 - height / 2
}

/// Tile-map x recovered from a world x: the inverse of the conversion above
/// for the same box and map widths.
pub open spec fn spec_world_to_tiled_x(world_x: int, width: int, map_width: int) -> int {
    world_x + map_width / 2 - width / 2
}

/// Tile-map y recovered from a world y: the inverse of the conversion above
/// for the same box and map heights.
pub open spec fn spec_world_to_tiled_y(world_y: int, height: int, map_height: int) -> int {
    -world_y + map_height / 2 - height / 2
}

/// Convert a box's top-left tile-map position to its world-space center.
/// Every caller that places geometry goes through this one routine, so tiles
/// and free-form objects agree on the mapping.
pub fn tiled_to_world_coord(tiled_x: i64, tiled_y: i64, width: i64, height: i64, map_width: i64, map_height: i64) -> (r: (i64, i64))
    requires
        in_coord_range(tiled_x as int),
        in_coord_range(tiled_y as int),
        0 <= width <= COORD_LIMIT,
        0 <= height <= COORD_LIMIT,
        0 <= map_width <= COORD_LIMIT,
        0 <= map_height <= COORD_LIMIT,
    ensures
        r.0 == spec_tiled_to_world_x(tiled_x as int, width as int, map_width as int),
        r.1 == spec_tiled_to_world_y(tiled_y as int, height as int, map_height as int),
{
    (tiled_x - map_width / 2 + width / 2, -tiled_y + map_height / 2 - height / 2)
}

/// Recover a box's top-left tile-map position from its world-space center,
/// for the same box size and map size.
pub fn world_to_tiled_coord(world_x: i64, world_y: i64, width: i64, height: i64, map_width: i64, map_height: i64) -> (r: (i64, i64))
    requires
        -3 * COORD_LIMIT <= world_x <= 3 * COORD_LIMIT,
        -3 * COORD_LIMIT <= world_y <= 3 * COORD_LIMIT,
        0 <= width <= COORD_LIMIT,
        0 <= height <= COORD_LIMIT,
        0 <= map_width <= COORD_LIMIT,
        0 <= map_height <= COORD_LIMIT,
    ensures
        r.0 == spec_world_to_tiled_x(world_x as int, width as int, map_width as int),
        r.1 == spec_world_to_tiled_y(world_y as int, height as int, map_height as int),
{
    (world_x + map_width / 2 - width / 2, -world_y + map_height / 2 - height / 2)
}

/// Law: the conversion is self-inverse. Converting a tile-map position to
/// world space and back through the inverse formula recovers the original
/// position, for arbitrary box and map dimensions.
pub proof fn lemma_coord_round_trip(tiled_x: int, tiled_y: int, width: int, height: int, map_width: int, map_height: int)
    ensures
        spec_world_to_tiled_x(spec_tiled_to_world_x(tiled_x, width, map_width), width, map_width)
            == tiled_x,
        spec_world_to_tiled_y(spec_tiled_to_world_y(tiled_y, height, map_height), height, map_height)
            == tiled_y,
{
}

} // verus!

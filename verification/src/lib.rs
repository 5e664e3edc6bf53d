//! Verified core of a tile-based 2D platformer: decoding of packed tile
//! identifiers, tile-grid to world coordinate conversion, level geometry
//! construction, axis-aligned collision classification, and per-tick motion
//! integration. Rendering, input mapping and file loading live outside this
//! library and hand it plain values.

pub mod collision;
pub mod constants;
pub mod coords;
pub mod map;
pub mod movement;
pub mod physics;
pub mod player;
pub mod tile;

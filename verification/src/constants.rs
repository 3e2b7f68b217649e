//! The tuning constants of the dungeon and the display.

use vstd::prelude::*;

verus! {

/// The largest width or height a tile map may have. Bounded so that
/// `width * height` always fits an `i32` and a `usize`.
pub const MAX_MAP_DIMENSION: i32 = 46340;

/// How many room placement attempts the dungeon generator makes per map.
pub const MAP_MAX_ROOMS: i32 = 30;

/// The smallest width and height a generated room may have.
pub const MAP_MIN_ROOM_SIZE: i32 = 6;

/// The largest width and height a generated room may have.
pub const MAP_MAX_ROOM_SIZE: i32 = 10;

/// How many window pixels one terminal tile occupies on each axis.
pub const TILES_PER_PIXEL: i32 = 8;

} // verus!

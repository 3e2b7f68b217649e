//! The tiles of the map grid: walkable floors and blocking walls.

use vstd::prelude::*;

verus! {

/// The possible kinds of tiles that can appear on a tile map.
#[derive(Debug, Copy, Clone, PartialEq, Eq, Structural)]
pub enum MapTileType {
    /// A standard, walkable tile, which makes up the floor of the map.
    Floor,
    /// An impassable tile, marking the position it occupies as not walkable.
    /// Serves as the default barrier on the map.
    Wall,
}

/// One cell of the map grid: a display glyph together with the kind that
/// decides whether the cell blocks movement and sight.
#[derive(Debug, Copy, Clone, PartialEq, Eq, Structural)]
pub struct MapTile {
    /// The symbol used when rendering the tile.
    pub glyph: char,
    /// The kind of the tile, used to evaluate collision.
    pub kind: MapTileType,
}

impl MapTile {
    /// A walkable floor tile with the passed `glyph`, as a spec value.
    pub open spec fn floor_spec(glyph: char) -> Self {
        MapTile { glyph, kind: MapTileType::Floor }
    }

    /// An impassable wall tile with the passed `glyph`, as a spec value.
    pub open spec fn wall_spec(glyph: char) -> Self {
        MapTile { glyph, kind: MapTileType::Wall }
    }

    /// Creates a new walkable floor tile with the passed `glyph`.
    pub fn floor(glyph: char) -> (r: Self)
        ensures
            r.glyph == glyph,
            r.kind == MapTileType::Floor,
            r == MapTile::floor_spec(glyph),
    {
        Self { glyph, kind: MapTileType::Floor }
    }

    /// Creates a new impassable wall tile with the passed `glyph`.
    pub fn wall(glyph: char) -> (r: Self)
        ensures
            r.glyph == glyph,
            r.kind == MapTileType::Wall,
            r == MapTile::wall_spec(glyph),
    {
        Self { glyph, kind: MapTileType::Wall }
    }

    /// Whether actors can be placed on the tile, or whether it blocks the
    /// space it occupies.
    pub fn has_collision(&self) -> (r: bool)
        ensures
            r == (self.kind == MapTileType::Wall),
    {
        match self.kind {
            MapTileType::Wall => true,
            MapTileType::Floor => false,
        }
    }
}

impl Default for MapTile {
    /// The default tile is a wall rendered as `#`: a freshly created map is
    /// solid rock until the generator carves rooms out of it.
    fn default() -> (r: Self)
        ensures
            r.glyph == '#',
            r.kind == MapTileType::Wall,
    {
        Self { glyph: '#', kind: MapTileType::Wall }
    }
}

} // verus!

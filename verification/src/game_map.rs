//! The tile map of one level: the room list, the tile grid, and the
//! seen/visible tracking grids, with the map's well-formedness invariant.

use vstd::prelude::*;

verus! {

use crate::constants::MAX_MAP_DIMENSION;
use crate::dimension::Dimension2d;
use crate::generator::TileMapLayoutGenerator;
use crate::position::Position2d;
use crate::rectangle::Rectangle;
use crate::tile::{MapTile, MapTileType};

/// Converting a grid coordinate to its row-major index stays inside the
/// backing storage of a `width` by `height` grid.
pub proof fn lemma_world_index_in_range(width: int, height: int, x: int, y: int)
    requires
        0 < width,
        0 <= x < width,
        0 <= y < height,
    ensures
        0 <= y * width + x < width * height,
{
    assert(y * width + x < width * height) by (nonlinear_arith)
        requires
            0 < width,
            0 <= x < width,
            0 <= y < height,
    {
    }
    assert(0 <= y * width) by (nonlinear_arith)
        requires
            0 < width,
            0 <= y,
    {
    }
}

/// The area of a map with both dimensions at most `MAX_MAP_DIMENSION` fits
/// comfortably in an `i32` and in a `usize`.
pub proof fn lemma_area_bounded(width: int, height: int)
    requires
        0 < width <= MAX_MAP_DIMENSION,
        0 < height <= MAX_MAP_DIMENSION,
    ensures
        0 < width * height <= 0x7fff_ffff,
{
    assert(0 < width * height <= 46340 * 46340) by (nonlinear_arith)
        requires
            0 < width <= 46340,
            0 < height <= 46340,
    {
    }
}

/// Distinct grid coordinates convert to distinct row-major indices.
pub proof fn lemma_world_index_injective(width: int, x1: int, y1: int, x2: int, y2: int)
    requires
        0 < width,
        0 <= x1 < width,
        0 <= x2 < width,
        !(x1 == x2 && y1 == y2),
    ensures
        y1 * width + x1 != y2 * width + x2,
{
    if y1 == y2 {
    } else {
        assert(y1 * width + x1 != y2 * width + x2) by (nonlinear_arith)
            requires
                0 < width,
                0 <= x1 < width,
                0 <= x2 < width,
                y1 != y2,
        {
        }
    }
}

/// Converts the passed `index` position to its row-major place in the linear
/// tile storage of a map with the given `width`.
pub fn convert_world_index<P: Position2d>(width: i32, index: &P) -> (r: usize)
    requires
        0 < width,
        0 <= index.pos_x() < width,
        0 <= index.pos_y(),
        index.pos_y() * width + index.pos_x() <= usize::MAX,
    ensures
        r as int == index.pos_y() * width + index.pos_x(),
{
    proof {
        assert(0 <= index.pos_y() * width) by (nonlinear_arith)
            requires
                0 < width,
                0 <= index.pos_y(),
        {
        }
    }
    (index.y_coordinate() as usize) * (width as usize) + (index.x_coordinate() as usize)
}

/// Well-formedness of a room list for a map of the given dimensions: every
/// room lies inside the map with the border ring untouched, and no two
/// distinct rooms collide.
pub open spec fn rooms_wf(rooms: Seq<Rectangle>, width: int, height: int) -> bool {
    &&& forall|i: int|
        0 <= i < rooms.len() ==> (#[trigger] rooms[i]).in_map_bounds(width, height)
    &&& forall|i: int, j: int|
        0 <= i < rooms.len() && 0 <= j < rooms.len() && i != j ==> !(#[trigger] rooms[i]).collides_with(
            #[trigger] rooms[j],
        )
}

/// A map making up one level of the game, which the player can traverse and
/// explore.
///
/// It owns the level geometry: a row-major vector of tiles, the list of
/// generated rooms, and two parallel boolean grids that track which tiles the
/// player has ever seen and which ones are currently visible.
#[derive(Debug, Clone)]
pub struct GameMap {
    /// The real width of the map.
    pub width: i32,
    /// The real height of the map.
    pub height: i32,
    /// All rooms on the map, in the order the generator accepted them.
    pub rooms: Vec<Rectangle>,
    /// All tiles which make up the map, as a row-major linear vector.
    pub tiles: Vec<MapTile>,
    /// Per tile: whether it was inside the player's field of view at least
    /// once during the level's lifetime.
    pub seen_tiles: Vec<bool>,
    /// Per tile: whether it is inside the player's field of view right now.
    pub visible_tiles: Vec<bool>,
}

impl GameMap {
    /// The rooms of the map, as a mathematical sequence.
    pub open spec fn rooms_seq(self) -> Seq<Rectangle> {
        self.rooms@
    }

    /// The row-major index of the coordinate `(x, y)`.
    pub open spec fn world_index(self, x: int, y: int) -> int {
        y * self.width + x
    }

    /// Whether `(x, y)` addresses a cell of the backing tile storage.
    pub open spec fn in_tile_range(self, x: int, y: int) -> bool {
        0 <= x < self.width && 0 <= y < self.height
    }

    /// Whether `(x, y)` counts as inside the map for gameplay purposes. The
    /// outermost column and row are deliberately excluded, consistent with
    /// the unbroken border ring the generator reserves.
    pub open spec fn in_bounds(self, x: int, y: int) -> bool {
        0 <= x < self.width - 1 && 0 <= y < self.height - 1
    }

    /// The tile stored at `(x, y)`.
    pub open spec fn tile_at_spec(self, x: int, y: int) -> MapTile {
        self.tiles@[self.world_index(x, y)]
    }

    /// Whether the tile at `(x, y)` blocks movement and sight.
    pub open spec fn blocked(self, x: int, y: int) -> bool {
        self.tile_at_spec(x, y).kind == MapTileType::Wall
    }

    /// Whether the tile at `(x, y)` has been seen by the player before.
    pub open spec fn seen_spec(self, x: int, y: int) -> bool {
        self.seen_tiles@[self.world_index(x, y)]
    }

    /// Whether the tile at `(x, y)` is currently visible to the player.
    pub open spec fn visible_spec(self, x: int, y: int) -> bool {
        self.visible_tiles@[self.world_index(x, y)]
    }

    /// Well-formedness of the map: the dimensions are positive and small
    /// enough for index arithmetic, the three grids cover exactly
    /// `width * height` cells, and the recorded room list is itself well
    /// formed for these dimensions.
    pub open spec fn wf(self) -> bool {
        &&& 0 < self.width <= MAX_MAP_DIMENSION
        &&& 0 < self.height <= MAX_MAP_DIMENSION
        &&& self.tiles@.len() == self.width * self.height
        &&& self.seen_tiles@.len() == self.width * self.height
        &&& self.visible_tiles@.len() == self.width * self.height
        &&& rooms_wf(self.rooms@, self.width as int, self.height as int)
    }

    /// Every generated room lies inside the map: its bounds satisfy
    /// `0 <= left < right <= width - 1` and `0 <= bottom < top <= height - 1`.
    pub proof fn lemma_rooms_in_bounds(self)
        requires
            self.wf(),
        ensures
            forall|i: int|
                0 <= i < self.rooms_seq().len() ==> (#[trigger] self.rooms_seq()[i]).in_map_bounds(
                    self.width as int,
                    self.height as int,
                ),
    {
    }

    /// No two generated rooms overlap: every pair of distinct recorded rooms
    /// fails the rectangle collision predicate.
    pub proof fn lemma_rooms_disjoint(self)
        requires
            self.wf(),
        ensures
            forall|i: int, j: int|
                0 <= i < self.rooms_seq().len() && 0 <= j < self.rooms_seq().len() && i != j
                    ==> !(#[trigger] self.rooms_seq()[i]).collides_with(
                    #[trigger] self.rooms_seq()[j],
                ),
    {
    }

    /// On a well formed map, an in-range coordinate's row-major index
    /// addresses a cell of each of the three grids.
    proof fn lemma_tile_index(self, x: int, y: int)
        requires
            self.wf(),
            self.in_tile_range(x, y),
        ensures
            0 <= self.world_index(x, y) < self.tiles@.len(),
            self.world_index(x, y) < self.seen_tiles@.len(),
            self.world_index(x, y) < self.visible_tiles@.len(),
            self.world_index(x, y) <= usize::MAX,
    {
        lemma_world_index_in_range(self.width as int, self.height as int, x, y);
        lemma_area_bounded(self.width as int, self.height as int);
    }

    /// Creates a new map with the passed `dimension`, made of solid wall,
    /// and lets the passed `generator` carve its layout and record its rooms.
    /// Initially no tile is seen and none is visible.
    pub fn new<D: Dimension2d, G: TileMapLayoutGenerator>(dimension: &D, generator: &G) -> (r:
        GameMap)
        requires
            0 < dimension.dim_width() <= MAX_MAP_DIMENSION,
            0 < dimension.dim_height() <= MAX_MAP_DIMENSION,
            generator.accepts(dimension.dim_width(), dimension.dim_height()),
        ensures
            r.wf(),
            r.width as int == dimension.dim_width(),
            r.height as int == dimension.dim_height(),
            generator.yields_room() ==> r.rooms_seq().len() >= 1,
            r.rooms_seq().len() <= crate::constants::MAP_MAX_ROOMS,
            forall|x: int, y: int| r.in_tile_range(x, y) ==> !#[trigger] r.seen_spec(x, y),
            forall|x: int, y: int| r.in_tile_range(x, y) ==> !#[trigger] r.visible_spec(x, y),
            forall|x: int, y: int|
                r.in_tile_range(x, y) && crate::generator::rooms_carve(r.rooms_seq(), x, y)
                    ==> #[trigger] r.tile_at_spec(x, y) == MapTile::floor_spec('.'),
            forall|x: int, y: int|
                r.in_tile_range(x, y) && generator.carves_extra(
                    dimension.dim_width(),
                    dimension.dim_height(),
                    x,
                    y,
                ) ==> #[trigger] r.tile_at_spec(x, y) == MapTile::floor_spec('.'),
            forall|x: int, y: int|
                r.in_tile_range(x, y) && !crate::generator::rooms_carve(r.rooms_seq(), x, y)
                    && !generator.carves_extra(dimension.dim_width(), dimension.dim_height(), x, y)
                    ==> #[trigger] r.tile_at_spec(x, y) == MapTile::wall_spec('#'),
            forall|x: int, y: int|
                r.in_tile_range(x, y) && (x == 0 || x == r.width - 1 || y == 0 || y == r.height
                    - 1) ==> #[trigger] r.tile_at_spec(x, y) == MapTile::wall_spec('#'),
    {
        let width = dimension.width();
        let height = dimension.height();
        proof {
            lemma_area_bounded(width as int, height as int);
        }
        let area = dimension.area();

        let mut map = GameMap {
            width,
            height,
            rooms: Vec::new(),
            tiles: fill_tiles(area),
            seen_tiles: fill_bool(area),
            visible_tiles: fill_bool(area),
        };
        proof {
            assert forall|x: int, y: int| map.in_tile_range(x, y) implies #[trigger] map.tile_at_spec(
                x,
                y,
            ) == MapTile::wall_spec('#') by {
                lemma_world_index_in_range(map.width as int, map.height as int, x, y);
            }
        }
        let ghost base = map;

        generator.generate_layout(&mut map);
        proof {
            assert forall|x: int, y: int|
                map.in_tile_range(x, y) && !crate::generator::rooms_carve(map.rooms_seq(), x, y)
                    && !generator.carves_extra(base.width as int, base.height as int, x, y) implies #[trigger] map.tile_at_spec(
                x,
                y,
            ) == MapTile::wall_spec('#') by {
                assert(map.tile_at_spec(x, y) == base.tile_at_spec(x, y));
            }
            assert forall|x: int, y: int|
                map.in_tile_range(x, y) && (x == 0 || x == map.width - 1 || y == 0 || y
                    == map.height - 1) implies #[trigger] map.tile_at_spec(x, y)
                == MapTile::wall_spec('#') by {
                assert(map.tile_at_spec(x, y) == base.tile_at_spec(x, y));
            }
        }

        proof {
            assert forall|x: int, y: int| map.in_tile_range(x, y) implies !#[trigger] map.seen_spec(
                x,
                y,
            ) by {
                lemma_world_index_in_range(map.width as int, map.height as int, x, y);
            }
            assert forall|x: int, y: int| map.in_tile_range(x, y) implies !#[trigger] map.visible_spec(
                x,
                y,
            ) by {
                lemma_world_index_in_range(map.width as int, map.height as int, x, y);
            }
        }
        map
    }

    /// An immutable reference to all the rooms on the map.
    pub fn rooms(&self) -> (r: &Vec<Rectangle>)
        ensures
            r@ == self.rooms_seq(),
    {
        &self.rooms
    }

    /// Records an accepted room. Only the dungeon generator adds rooms, and
    /// only ones that keep the map well formed.
    pub(crate) fn push_room(&mut self, room: Rectangle)
        requires
            old(self).wf(),
            room.in_map_bounds(old(self).width as int, old(self).height as int),
            forall|i: int|
                0 <= i < old(self).rooms_seq().len() ==> !(#[trigger] old(self).rooms_seq()[i]).collides_with(room),
        ensures
            final(self).wf(),
            final(self).rooms_seq() == old(self).rooms_seq().push(room),
            final(self).width == old(self).width,
            final(self).height == old(self).height,
            final(self).tiles@ == old(self).tiles@,
            final(self).seen_tiles@ == old(self).seen_tiles@,
            final(self).visible_tiles@ == old(self).visible_tiles@,
    {
        self.rooms.push(room);
        proof {
            let rs = self.rooms@;
            let n = rs.len() - 1;
            assert(rs == old(self).rooms_seq().push(room));
            assert(rs[n] == room);
            assert forall|i: int, j: int|
                0 <= i < rs.len() && 0 <= j < rs.len() && i != j implies !(#[trigger] rs[i]).collides_with(
                #[trigger] rs[j],
            ) by {
                if i < n && j < n {
                    assert(rs[i] == old(self).rooms_seq()[i]);
                    assert(rs[j] == old(self).rooms_seq()[j]);
                } else if i == n {
                    assert(rs[j] == old(self).rooms_seq()[j]);
                    crate::rectangle::lemma_collision_symmetric(rs[i], rs[j]);
                } else {
                    assert(rs[i] == old(self).rooms_seq()[i]);
                }
            }
            assert forall|i: int| 0 <= i < rs.len() implies (#[trigger] rs[i]).in_map_bounds(
                self.width as int,
                self.height as int,
            ) by {
                if i < n {
                    assert(rs[i] == old(self).rooms_seq()[i]);
                }
            }
            assert(rooms_wf(rs, self.width as int, self.height as int));
        }
    }

    /// An immutable reference to the tile at the given `index` position.
    pub fn get_tile_at<P: Position2d>(&self, index: &P) -> (r: &MapTile)
        requires
            self.wf(),
            self.in_tile_range(index.pos_x(), index.pos_y()),
        ensures
            *r == self.tile_at_spec(index.pos_x(), index.pos_y()),
    {
        proof {
            self.lemma_tile_index(index.pos_x(), index.pos_y());
        }
        let i = convert_world_index(self.width, index);
        &self.tiles[i]
    }

    /// Sets the passed `tile` at the given `index` position, leaving every
    /// other tile unchanged.
    pub fn set_tile_at<P: Position2d>(&mut self, index: &P, tile: MapTile)
        requires
            old(self).wf(),
            old(self).in_tile_range(index.pos_x(), index.pos_y()),
        ensures
            final(self).wf(),
            final(self).width == old(self).width,
            final(self).height == old(self).height,
            final(self).rooms_seq() == old(self).rooms_seq(),
            final(self).seen_tiles@ == old(self).seen_tiles@,
            final(self).visible_tiles@ == old(self).visible_tiles@,
            final(self).tile_at_spec(index.pos_x(), index.pos_y()) == tile,
            forall|x: int, y: int|
                old(self).in_tile_range(x, y) && !(x == index.pos_x() && y == index.pos_y())
                    ==> #[trigger] final(self).tile_at_spec(x, y) == old(self).tile_at_spec(x, y),
    {
        proof {
            self.lemma_tile_index(index.pos_x(), index.pos_y());
        }
        let i = convert_world_index(self.width, index);
        self.tiles[i] = tile;
        proof {
            assert forall|x: int, y: int|
                old(self).in_tile_range(x, y) && !(x == index.pos_x() && y == index.pos_y()) implies #[trigger] self.tile_at_spec(
                x,
                y,
            ) == old(self).tile_at_spec(x, y) by {
                lemma_world_index_in_range(self.width as int, self.height as int, x, y);
                lemma_world_index_injective(
                    self.width as int,
                    x,
                    y,
                    index.pos_x(),
                    index.pos_y(),
                );
            }
        }
    }

    /// Checks if the tile at the passed `index` position blocks movement.
    pub fn tile_has_collision<P: Position2d>(&self, index: &P) -> (r: bool)
        requires
            self.wf(),
            self.in_tile_range(index.pos_x(), index.pos_y()),
        ensures
            r == self.blocked(index.pos_x(), index.pos_y()),
    {
        self.get_tile_at(index).has_collision()
    }

    /// Checks if the tile at the given `index` position has been seen by the
    /// player at any point.
    pub fn is_tile_seen<P: Position2d>(&self, index: &P) -> (r: bool)
        requires
            self.wf(),
            self.in_tile_range(index.pos_x(), index.pos_y()),
        ensures
            r == self.seen_spec(index.pos_x(), index.pos_y()),
    {
        proof {
            self.lemma_tile_index(index.pos_x(), index.pos_y());
        }
        let i = convert_world_index(self.width, index);
        self.seen_tiles[i]
    }

    /// Marks the tile at the passed `index` position as seen. Idempotent:
    /// a tile once seen stays seen.
    pub fn mark_tile_as_seen<P: Position2d>(&mut self, index: &P)
        requires
            old(self).wf(),
            old(self).in_tile_range(index.pos_x(), index.pos_y()),
        ensures
            final(self).wf(),
            final(self).width == old(self).width,
            final(self).height == old(self).height,
            final(self).rooms_seq() == old(self).rooms_seq(),
            final(self).tiles@ == old(self).tiles@,
            final(self).visible_tiles@ == old(self).visible_tiles@,
            final(self).seen_spec(index.pos_x(), index.pos_y()),
            forall|x: int, y: int|
                old(self).in_tile_range(x, y) && !(x == index.pos_x() && y == index.pos_y())
                    ==> #[trigger] final(self).seen_spec(x, y) == old(self).seen_spec(x, y),
    {
        proof {
            self.lemma_tile_index(index.pos_x(), index.pos_y());
        }
        let i = convert_world_index(self.width, index);
        self.seen_tiles[i] = true;
        proof {
            assert forall|x: int, y: int|
                old(self).in_tile_range(x, y) && !(x == index.pos_x() && y == index.pos_y()) implies #[trigger] self.seen_spec(
                x,
                y,
            ) == old(self).seen_spec(x, y) by {
                lemma_world_index_in_range(self.width as int, self.height as int, x, y);
                lemma_world_index_injective(
                    self.width as int,
                    x,
                    y,
                    index.pos_x(),
                    index.pos_y(),
                );
            }
        }
    }

    /// Checks if the tile at the given `index` position is currently inside
    /// the player's field of view.
    pub fn is_tile_visible<P: Position2d>(&self, index: &P) -> (r: bool)
        requires
            self.wf(),
            self.in_tile_range(index.pos_x(), index.pos_y()),
        ensures
            r == self.visible_spec(index.pos_x(), index.pos_y()),
    {
        proof {
            self.lemma_tile_index(index.pos_x(), index.pos_y());
        }
        let i = convert_world_index(self.width, index);
        self.visible_tiles[i]
    }

    /// Marks the tile at the passed `index` position as visible. Idempotent:
    /// visibility is only withdrawn by `reset_visible_tiles`.
    pub fn mark_tile_as_visible<P: Position2d>(&mut self, index: &P)
        requires
            old(self).wf(),
            old(self).in_tile_range(index.pos_x(), index.pos_y()),
        ensures
            final(self).wf(),
            final(self).width == old(self).width,
            final(self).height == old(self).height,
            final(self).rooms_seq() == old(self).rooms_seq(),
            final(self).tiles@ == old(self).tiles@,
            final(self).seen_tiles@ == old(self).seen_tiles@,
            final(self).visible_spec(index.pos_x(), index.pos_y()),
            forall|x: int, y: int|
                old(self).in_tile_range(x, y) && !(x == index.pos_x() && y == index.pos_y())
                    ==> #[trigger] final(self).visible_spec(x, y) == old(self).visible_spec(x, y),
    {
        proof {
            self.lemma_tile_index(index.pos_x(), index.pos_y());
        }
        let i = convert_world_index(self.width, index);
        self.visible_tiles[i] = true;
        proof {
            assert forall|x: int, y: int|
                old(self).in_tile_range(x, y) && !(x == index.pos_x() && y == index.pos_y()) implies #[trigger] self.visible_spec(
                x,
                y,
            ) == old(self).visible_spec(x, y) by {
                lemma_world_index_in_range(self.width as int, self.height as int, x, y);
                lemma_world_index_injective(
                    self.width as int,
                    x,
                    y,
                    index.pos_x(),
                    index.pos_y(),
                );
            }
        }
    }

    /// Clears the whole visible grid, so that tiles which left the player's
    /// field of view stop being visible while remaining seen.
    pub fn reset_visible_tiles(&mut self)
        requires
            old(self).wf(),
        ensures
            final(self).wf(),
            final(self).width == old(self).width,
            final(self).height == old(self).height,
            final(self).rooms_seq() == old(self).rooms_seq(),
            final(self).tiles@ == old(self).tiles@,
            final(self).seen_tiles@ == old(self).seen_tiles@,
            forall|x: int, y: int|
                old(self).in_tile_range(x, y) ==> !#[trigger] final(self).visible_spec(x, y),
    {
        let n = self.visible_tiles.len();
        self.visible_tiles = fill_bool(n);
        proof {
            assert forall|x: int, y: int| old(self).in_tile_range(x, y) implies !#[trigger] self.visible_spec(
                x,
                y,
            ) by {
                lemma_world_index_in_range(self.width as int, self.height as int, x, y);
            }
        }
    }
}

impl Dimension2d for GameMap {
    open spec fn dim_width(&self) -> int {
        self.width as int
    }

    open spec fn dim_height(&self) -> int {
        self.height as int
    }

    fn width(&self) -> i32 {
        self.width
    }

    fn height(&self) -> i32 {
        self.height
    }
}

/// A vector of `n` copies of `false`.
pub(crate) fn fill_bool(n: usize) -> (r: Vec<bool>)
    ensures
        r@.len() == n,
        forall|i: int| 0 <= i < n ==> !r@[i],
{
    let mut v: Vec<bool> = Vec::new();
    let mut i: usize = 0;
    while i < n
        invariant
            i <= n,
            v@.len() == i,
            forall|j: int| 0 <= j < i ==> !v@[j],
        decreases n - i,
    {
        v.push(false);
        i = i + 1;
    }
    v
}

/// A vector of `n` default (wall) tiles.
pub(crate) fn fill_tiles(n: usize) -> (r: Vec<MapTile>)
    ensures
        r@.len() == n,
        forall|i: int| 0 <= i < n ==> #[trigger] r@[i] == MapTile::wall_spec('#'),
{
    let mut v: Vec<MapTile> = Vec::new();
    let mut i: usize = 0;
    while i < n
        invariant
            i <= n,
            v@.len() == i,
            forall|j: int| 0 <= j < i ==> #[trigger] v@[j] == MapTile::wall_spec('#'),
        decreases n - i,
    {
        v.push(MapTile::default());
        i = i + 1;
    }
    v
}

} // verus!

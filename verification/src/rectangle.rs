//! Axis-aligned rectangles: the rooms of the dungeon, their collision
//! test, and the carving of rooms and corridors into the tile map.

use vstd::prelude::*;

verus! {

use crate::dimension::Dimension2d;
use crate::game_map::GameMap;
use crate::position::Position2d;
use crate::tile::MapTile;

/// A two-dimensional rectangular box in the cartesian coordinate system,
/// used by the dungeon generator to describe rooms.
///
/// The interior that a room contributes to the map is the block
/// `(left + 1 .. right) x (bottom + 1 .. top)`, so the stored bounds form the
/// wall ring around the walkable part.
#[derive(Debug, Copy, Clone, PartialEq, Eq, Structural)]
pub struct Rectangle {
    /// The left most coordinate of the rectangle on the horizontal x-axis.
    pub left: i32,
    /// The lowest coordinate of the rectangle on the vertical y-axis.
    pub bottom: i32,
    /// The right most coordinate of the rectangle on the horizontal x-axis.
    pub right: i32,
    /// The highest coordinate of the rectangle on the vertical y-axis.
    pub top: i32,
}

impl Rectangle {
    /// Whether this rectangle and `other` overlap at any point. The
    /// comparisons are inclusive on all four sides, so rectangles that merely
    /// touch along an edge deliberately count as colliding.
    pub open spec fn collides_with(self, other: Rectangle) -> bool {
        &&& self.left <= other.right
        &&& self.right >= other.left
        &&& self.bottom <= other.top
        &&& self.top >= other.bottom
    }

    /// Whether the rectangle lies inside a map of the given dimensions with
    /// its outermost border column and row left untouched.
    pub open spec fn in_map_bounds(self, width: int, height: int) -> bool {
        &&& 0 <= self.left < self.right <= width - 1
        &&& 0 <= self.bottom < self.top <= height - 1
    }

    /// The center of the rectangle: the midpoint of its horizontal and of its
    /// vertical bounds, rounded down.
    pub open spec fn center_spec(self) -> (int, int) {
        ((self.left + self.right) / 2, (self.bottom + self.top) / 2)
    }

    /// Creates a new rectangle at the given `origin` with the passed
    /// `dimension`.
    pub fn new<P: Position2d, D: Dimension2d>(origin: P, dimension: D) -> (r: Self)
        requires
            i32::MIN <= origin.pos_x() + dimension.dim_width() <= i32::MAX,
            i32::MIN <= origin.pos_y() + dimension.dim_height() <= i32::MAX,
        ensures
            r.left as int == origin.pos_x(),
            r.bottom as int == origin.pos_y(),
            r.right as int == origin.pos_x() + dimension.dim_width(),
            r.top as int == origin.pos_y() + dimension.dim_height(),
    {
        Self {
            left: origin.x_coordinate(),
            bottom: origin.y_coordinate(),
            right: origin.x_coordinate() + dimension.width(),
            top: origin.y_coordinate() + dimension.height(),
        }
    }

    /// Checks if the passed rectangle and the calling one overlap at any
    /// point.
    pub fn collides(&self, other: &Rectangle) -> (r: bool)
        ensures
            r == self.collides_with(*other),
    {
        self.left <= other.right
            && self.right >= other.left
            && self.bottom <= other.top
            && self.top >= other.bottom
    }

    /// The center coordinate of the rectangle.
    pub fn center(&self) -> (r: [i32; 2])
        requires
            0 <= self.left + self.right,
            0 <= self.bottom + self.top,
            self.left + self.right <= i32::MAX,
            self.bottom + self.top <= i32::MAX,
        ensures
            r[0] as int == self.center_spec().0,
            r[1] as int == self.center_spec().1,
    {
        [(self.left + self.right) / 2, (self.bottom + self.top) / 2]
    }
}

impl Rectangle {
    /// Whether `(x, y)` lies in the interior that `add_to_map` carves:
    /// strictly inside the rectangle's bounds on both axes.
    pub open spec fn carves(self, x: int, y: int) -> bool {
        self.left < x < self.right && self.bottom < y < self.top
    }

    /// Carves this rectangle into the passed map as a room the player can
    /// traverse: every tile strictly inside the bounds becomes a floor, the
    /// bounds themselves are left standing as the room's wall ring.
    pub fn add_to_map(&self, map: &mut GameMap)
        requires
            old(map).wf(),
            0 <= self.left <= self.right,
            self.right < old(map).width,
            0 <= self.bottom <= self.top,
            self.top < old(map).height,
        ensures
            final(map).wf(),
            final(map).width == old(map).width,
            final(map).height == old(map).height,
            final(map).rooms_seq() == old(map).rooms_seq(),
            final(map).seen_tiles@ == old(map).seen_tiles@,
            final(map).visible_tiles@ == old(map).visible_tiles@,
            forall|x: int, y: int|
                self.carves(x, y) ==> #[trigger] final(map).tile_at_spec(x, y) == MapTile::floor_spec('.'),
            forall|x: int, y: int|
                old(map).in_tile_range(x, y) && !self.carves(x, y)
                    ==> #[trigger] final(map).tile_at_spec(x, y) == old(map).tile_at_spec(x, y),
    {
        let mut x: i32 = self.left + 1;
        while x < self.right
            invariant
                map.wf(),
                map.width == old(map).width,
                map.height == old(map).height,
                map.rooms_seq() == old(map).rooms_seq(),
                map.seen_tiles@ == old(map).seen_tiles@,
                map.visible_tiles@ == old(map).visible_tiles@,
                self.left < x <= self.right || x == self.left + 1,
                0 <= self.left <= self.right,
                self.right < map.width,
                0 <= self.bottom <= self.top,
                self.top < map.height,
                forall|a: int, b: int|
                    self.carves(a, b) && a < x ==> #[trigger] map.tile_at_spec(a, b)
                        == MapTile::floor_spec('.'),
                forall|a: int, b: int|
                    old(map).in_tile_range(a, b) && !(self.carves(a, b) && a < x)
                        ==> #[trigger] map.tile_at_spec(a, b) == old(map).tile_at_spec(a, b),
            decreases self.right - x,
        {
            let mut y: i32 = self.bottom + 1;
            while y < self.top
                invariant
                    map.wf(),
                    map.width == old(map).width,
                    map.height == old(map).height,
                    map.rooms_seq() == old(map).rooms_seq(),
                    map.seen_tiles@ == old(map).seen_tiles@,
                    map.visible_tiles@ == old(map).visible_tiles@,
                    self.left < x < self.right,
                    self.bottom < y <= self.top || y == self.bottom + 1,
                    0 <= self.left <= self.right,
                    self.right < map.width,
                    0 <= self.bottom <= self.top,
                    self.top < map.height,
                    forall|a: int, b: int|
                        self.carves(a, b) && (a < x || (a == x && b < y))
                            ==> #[trigger] map.tile_at_spec(a, b) == MapTile::floor_spec('.'),
                    forall|a: int, b: int|
                        old(map).in_tile_range(a, b) && !(self.carves(a, b) && (a < x || (a == x
                            && b < y))) ==> #[trigger] map.tile_at_spec(a, b) == old(map).tile_at_spec(
                            a,
                            b,
                        ),
                decreases self.top - y,
            {
                map.set_tile_at(&(x, y), MapTile::floor('.'));
                y = y + 1;
            }
            x = x + 1;
        }
    }

    /// Connects this rectangle's room with the passed one by an L-shaped
    /// corridor: a horizontal run at the other room's center row, followed by
    /// a vertical run at this room's center column, both carved to floor.
    pub fn connect(&self, other: &Rectangle, map: &mut GameMap)
        requires
            old(map).wf(),
            self.in_map_bounds(old(map).width as int, old(map).height as int),
            other.in_map_bounds(old(map).width as int, old(map).height as int),
        ensures
            final(map).wf(),
            final(map).width == old(map).width,
            final(map).height == old(map).height,
            final(map).rooms_seq() == old(map).rooms_seq(),
            final(map).seen_tiles@ == old(map).seen_tiles@,
            final(map).visible_tiles@ == old(map).visible_tiles@,
            forall|x: int, y: int|
                corridor_l(*other, *self, x, y) ==> #[trigger] final(map).tile_at_spec(x, y)
                    == MapTile::floor_spec('.'),
            forall|x: int, y: int|
                old(map).in_tile_range(x, y) && !corridor_l(*other, *self, x, y)
                    ==> #[trigger] final(map).tile_at_spec(x, y) == old(map).tile_at_spec(x, y),
    {
        let end = self.center();
        let start = other.center();
        let x_end = end[0];
        let y_end = end[1];
        let x_start = start[0];
        let y_start = start[1];
        let x_lo = if x_start < x_end { x_start } else { x_end };
        let x_hi = if x_start < x_end { x_end } else { x_start };
        let y_lo = if y_start < y_end { y_start } else { y_end };
        let y_hi = if y_start < y_end { y_end } else { y_start };

        let mut x: i32 = x_lo;
        while x <= x_hi
            invariant
                map.wf(),
                map.width == old(map).width,
                map.height == old(map).height,
                map.rooms_seq() == old(map).rooms_seq(),
                map.seen_tiles@ == old(map).seen_tiles@,
                map.visible_tiles@ == old(map).visible_tiles@,
                x_end as int == self.center_spec().0,
                y_end as int == self.center_spec().1,
                x_start as int == other.center_spec().0,
                y_start as int == other.center_spec().1,
                x_lo == if x_start < x_end { x_start } else { x_end },
                x_hi == if x_start < x_end { x_end } else { x_start },
                0 <= x_lo,
                x_hi < map.width,
                0 <= y_start < map.height,
                x_lo <= x <= x_hi + 1,
                forall|a: int, b: int|
                    x_lo <= a < x && b == y_start ==> #[trigger] map.tile_at_spec(a, b)
                        == MapTile::floor_spec('.'),
                forall|a: int, b: int|
                    old(map).in_tile_range(a, b) && !(x_lo <= a < x && b == y_start)
                        ==> #[trigger] map.tile_at_spec(a, b) == old(map).tile_at_spec(a, b),
            decreases x_hi + 1 - x,
        {
            map.set_tile_at(&(x, y_start), MapTile::floor('.'));
            x = x + 1;
        }

        let ghost mid = *map;
        let mut y: i32 = y_lo;
        while y <= y_hi
            invariant
                map.wf(),
                map.width == mid.width,
                map.height == mid.height,
                map.rooms_seq() == mid.rooms_seq(),
                map.seen_tiles@ == mid.seen_tiles@,
                map.visible_tiles@ == mid.visible_tiles@,
                x_end as int == self.center_spec().0,
                y_end as int == self.center_spec().1,
                y_start as int == other.center_spec().1,
                y_lo == if y_start < y_end { y_start } else { y_end },
                y_hi == if y_start < y_end { y_end } else { y_start },
                0 <= y_lo,
                y_hi < map.height,
                0 <= x_end < map.width,
                y_lo <= y <= y_hi + 1,
                forall|a: int, b: int|
                    a == x_end && y_lo <= b < y ==> #[trigger] map.tile_at_spec(a, b)
                        == MapTile::floor_spec('.'),
                forall|a: int, b: int|
                    mid.in_tile_range(a, b) && !(a == x_end && y_lo <= b < y)
                        ==> #[trigger] map.tile_at_spec(a, b) == mid.tile_at_spec(a, b),
            decreases y_hi + 1 - y,
        {
            map.set_tile_at(&(x_end, y), MapTile::floor('.'));
            y = y + 1;
        }
    }
}

/// The set of cells of the L-shaped corridor that connects the center of
/// `from` to the center of `to`: the horizontal run lies on `from`'s center
/// row and spans both centers' columns inclusively, the vertical run lies on
/// `to`'s center column and spans both centers' rows inclusively.
pub open spec fn corridor_l(from: Rectangle, to: Rectangle, x: int, y: int) -> bool {
    let xs = from.center_spec().0;
    let ys = from.center_spec().1;
    let xe = to.center_spec().0;
    let ye = to.center_spec().1;
    ||| (min_int(xs, xe) <= x <= max_int(xs, xe) && y == ys)
    ||| (x == xe && min_int(ys, ye) <= y <= max_int(ys, ye))
}

/// The smaller of two integers.
pub open spec fn min_int(a: int, b: int) -> int {
    if a < b {
        a
    } else {
        b
    }
}

/// The larger of two integers.
pub open spec fn max_int(a: int, b: int) -> int {
    if a < b {
        b
    } else {
        a
    }
}

/// Rectangle collision is symmetric: whenever `a` collides with `b`, `b`
/// also collides with `a`.
pub proof fn lemma_collision_symmetric(a: Rectangle, b: Rectangle)
    ensures
        a.collides_with(b) == b.collides_with(a),
{
}

} // verus!

//! Grid positions: the `Position2d` abstraction over anything with an
//! integer `x` and `y` coordinate, and the concrete `Coord2d` type.

use vstd::prelude::*;

verus! {

use vstd::math::{max, min};

/// Describes a position in two-dimensional space, consisting of an `x` and a
/// `y` coordinate on a grid of whole numbers.
pub trait Position2d: Sized {
    /// The location on the horizontal x-axis, as a mathematical integer.
    spec fn pos_x(&self) -> int;

    /// The location on the vertical y-axis, as a mathematical integer.
    spec fn pos_y(&self) -> int;

    /// The location on the horizontal x-axis.
    fn x_coordinate(&self) -> (r: i32)
        ensures
            r as int == self.pos_x(),
    ;

    /// The location on the vertical y-axis.
    fn y_coordinate(&self) -> (r: i32)
        ensures
            r as int == self.pos_y(),
    ;

    /// Both coordinates as an array of fixed length two, `x` first.
    fn as_array(&self) -> (r: [i32; 2])
        ensures
            r[0] as int == self.pos_x(),
            r[1] as int == self.pos_y(),
    {
        [self.x_coordinate(), self.y_coordinate()]
    }

    /// Both coordinates as a tuple, `x` first.
    fn as_tuple(&self) -> (r: (i32, i32))
        ensures
            r.0 as int == self.pos_x(),
            r.1 as int == self.pos_y(),
    {
        (self.x_coordinate(), self.y_coordinate())
    }
}

/// The componentwise difference between `position` and `other`, obtained by
/// subtracting the coordinates of `other` from those of `position`.
pub fn delta<P: Position2d, Q: Position2d>(position: &P, other: &Q) -> (r: [i32; 2])
    requires
        i32::MIN <= position.pos_x() - other.pos_x() <= i32::MAX,
        i32::MIN <= position.pos_y() - other.pos_y() <= i32::MAX,
    ensures
        r[0] as int == position.pos_x() - other.pos_x(),
        r[1] as int == position.pos_y() - other.pos_y(),
{
    [
        position.x_coordinate() - other.x_coordinate(),
        position.y_coordinate() - other.y_coordinate(),
    ]
}

impl Position2d for (i32, i32) {
    open spec fn pos_x(&self) -> int {
        self.0 as int
    }

    open spec fn pos_y(&self) -> int {
        self.1 as int
    }

    fn x_coordinate(&self) -> i32 {
        self.0
    }

    fn y_coordinate(&self) -> i32 {
        self.1
    }
}

impl Position2d for [i32; 2] {
    open spec fn pos_x(&self) -> int {
        self[0] as int
    }

    open spec fn pos_y(&self) -> int {
        self[1] as int
    }

    fn x_coordinate(&self) -> i32 {
        self[0]
    }

    fn y_coordinate(&self) -> i32 {
        self[1]
    }
}

/// A concrete grid coordinate, used for the location of actors and tiles.
#[derive(Debug, Copy, Clone, PartialEq, Eq, Structural)]
pub struct Coord2d {
    /// The location of the coordinate on the horizontal x-axis.
    pub x: i32,
    /// The location of the coordinate on the vertical y-axis.
    pub y: i32,
}

impl Coord2d {
    /// Creates a new coordinate at the passed `x` and `y` locations.
    pub fn new(x: i32, y: i32) -> (r: Self)
        ensures
            r.x == x,
            r.y == y,
    {
        Self { x, y }
    }

    /// Creates a new coordinate from any other kind of position.
    pub fn from_position<P: Position2d>(position: &P) -> (r: Self)
        requires
            i32::MIN <= position.pos_x() <= i32::MAX,
            i32::MIN <= position.pos_y() <= i32::MAX,
        ensures
            r.x as int == position.pos_x(),
            r.y as int == position.pos_y(),
    {
        Coord2d::new(position.x_coordinate(), position.y_coordinate())
    }

    /// The position one step above this one on the vertical y-axis, clamped
    /// so that the result never exceeds `upper_bound`.
    pub fn up(&self, upper_bound: i32) -> (r: Self)
        ensures
            r.x == self.x,
            r.y as int == min(self.y + 1, upper_bound as int),
    {
        if self.y < upper_bound {
            Coord2d::new(self.x, self.y + 1)
        } else {
            Coord2d::new(self.x, upper_bound)
        }
    }

    /// The position one step to the left on the horizontal x-axis, clamped
    /// so that the result never goes below `lower_bound`.
    pub fn left(&self, lower_bound: i32) -> (r: Self)
        ensures
            r.x as int == max(self.x - 1, lower_bound as int),
            r.y == self.y,
    {
        if self.x > lower_bound {
            Coord2d::new(self.x - 1, self.y)
        } else {
            Coord2d::new(lower_bound, self.y)
        }
    }

    /// The position one step below this one on the vertical y-axis, clamped
    /// so that the result never goes below `lower_bound`.
    pub fn down(&self, lower_bound: i32) -> (r: Self)
        ensures
            r.x == self.x,
            r.y as int == max(self.y - 1, lower_bound as int),
    {
        if self.y > lower_bound {
            Coord2d::new(self.x, self.y - 1)
        } else {
            Coord2d::new(self.x, lower_bound)
        }
    }

    /// The position one step to the right on the horizontal x-axis, clamped
    /// so that the result never exceeds `upper_bound`.
    pub fn right(&self, upper_bound: i32) -> (r: Self)
        ensures
            r.x as int == min(self.x + 1, upper_bound as int),
            r.y == self.y,
    {
        if self.x < upper_bound {
            Coord2d::new(self.x + 1, self.y)
        } else {
            Coord2d::new(upper_bound, self.y)
        }
    }
}

impl Position2d for Coord2d {
    open spec fn pos_x(&self) -> int {
        self.x as int
    }

    open spec fn pos_y(&self) -> int {
        self.y as int
    }

    fn x_coordinate(&self) -> i32 {
        self.x
    }

    fn y_coordinate(&self) -> i32 {
        self.y
    }
}

} // verus!

//! Two-dimensional extents: the `Dimension2d` abstraction over anything
//! with an integer width and height.

use vstd::prelude::*;

verus! {

use crate::position::Position2d;

/// Describes a two-dimensional area defined by a horizontal width and a
/// vertical height.
pub trait Dimension2d: Sized {
    /// The horizontal width, as a mathematical integer.
    spec fn dim_width(&self) -> int;

    /// The vertical height, as a mathematical integer.
    spec fn dim_height(&self) -> int;

    /// The horizontal width of the dimension.
    fn width(&self) -> (r: i32)
        ensures
            r as int == self.dim_width(),
    ;

    /// The vertical height of the dimension.
    fn height(&self) -> (r: i32)
        ensures
            r as int == self.dim_height(),
    ;

    /// The center of the area: half the width paired with half the height,
    /// both rounded down.
    fn center(&self) -> (r: [i32; 2])
        requires
            0 <= self.dim_width(),
            0 <= self.dim_height(),
        ensures
            r[0] as int == self.dim_width() / 2,
            r[1] as int == self.dim_height() / 2,
    {
        [self.width() / 2, self.height() / 2]
    }

    /// The number of grid cells the area covers.
    fn area(&self) -> (r: usize)
        requires
            0 <= self.dim_width(),
            0 <= self.dim_height(),
            self.dim_width() * self.dim_height() <= usize::MAX,
        ensures
            r as int == self.dim_width() * self.dim_height(),
    {
        (self.width() as usize) * (self.height() as usize)
    }

    /// Checks whether `position` lies inside the area. The outermost column
    /// and row, at `width - 1` and `height - 1`, deliberately count as out of
    /// bounds: the dungeon generator reserves them for an unbroken border.
    fn is_in_bounds<P: Position2d>(&self, position: &P) -> (r: bool)
        requires
            0 <= self.dim_width(),
            0 <= self.dim_height(),
        ensures
            r == (0 <= position.pos_x() < self.dim_width() - 1
                && 0 <= position.pos_y() < self.dim_height() - 1),
    {
        let x = position.x_coordinate();
        let y = position.y_coordinate();
        0 <= x && x < self.width() - 1 && 0 <= y && y < self.height() - 1
    }
}

impl Dimension2d for (i32, i32) {
    open spec fn dim_width(&self) -> int {
        self.0 as int
    }

    open spec fn dim_height(&self) -> int {
        self.1 as int
    }

    fn width(&self) -> i32 {
        self.0
    }

    fn height(&self) -> i32 {
        self.1
    }
}

impl Dimension2d for [i32; 2] {
    open spec fn dim_width(&self) -> int {
        self[0] as int
    }

    open spec fn dim_height(&self) -> int {
        self[1] as int
    }

    fn width(&self) -> i32 {
        self[0]
    }

    fn height(&self) -> i32 {
        self[1]
    }
}

} // verus!

//! The display window configuration and the terminal size derived from it.

use vstd::prelude::*;

verus! {

use crate::constants::TILES_PER_PIXEL;
use crate::dimension::Dimension2d;

/// Configuration of the game's display window, as loaded from the window
/// configuration file: its size in pixels, whether it may be resized, and a
/// numeric monitor position code that the platform layer interprets.
#[derive(Debug, Copy, Clone, PartialEq, Eq, Structural, Hash)]
pub struct WindowConfig {
    /// The width of the window in pixels.
    pub width: i32,
    /// The height of the window in pixels.
    pub height: i32,
    /// Whether the window is resizable.
    pub resizeable: bool,
    /// The monitor position code of the window.
    pub position: i32,
}

impl WindowConfig {
    /// Creates a new window configuration with the passed `dimension`,
    /// resize behaviour and position code.
    pub fn new<D: Dimension2d>(dimension: D, resizeable: bool, position: i32) -> (r: Self)
        requires
            i32::MIN <= dimension.dim_width() <= i32::MAX,
            i32::MIN <= dimension.dim_height() <= i32::MAX,
        ensures
            r.width as int == dimension.dim_width(),
            r.height as int == dimension.dim_height(),
            r.resizeable == resizeable,
            r.position == position,
    {
        Self { width: dimension.width(), height: dimension.height(), resizeable, position }
    }

    /// The dimension of the terminal displayed in the window, in tiles:
    /// the pixel size divided by the pixels per tile.
    pub fn terminal_size(&self) -> (r: [i32; 2])
        requires
            0 <= self.width,
            0 <= self.height,
        ensures
            r[0] as int == self.width as int / TILES_PER_PIXEL as int,
            r[1] as int == self.height as int / TILES_PER_PIXEL as int,
    {
        [self.width / TILES_PER_PIXEL, self.height / TILES_PER_PIXEL]
    }

    /// The name of the file this configuration is loaded from.
    pub fn file_name() -> (r: &'static str)
        ensures
            r@ == "window.json"@,
    {
        "window.json"
    }
}

} // verus!

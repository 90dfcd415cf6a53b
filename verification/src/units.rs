//! Fixed-point pixel arithmetic and the world's constants.

use vstd::prelude::*;

verus! {

/// Fixed-point resolution: this many units make one pixel.
pub const SUBPIXELS: i64 = 65_536;

/// Largest magnitude a coordinate or a speed may have on entry to the
/// simulation, in subpixels.
pub const LIMIT: i64 = 0x100_0000_0000;

/// Window width in pixels.
pub const WIDTH: u16 = 1280;

/// Window height in pixels.
pub const HEIGHT: u16 = 720;

/// Downward acceleration per tick: half a pixel.
pub const GRAVITY: i64 = 32_768;

/// A position in the window, in subpixels. `y` grows downwards.
#[derive(Clone, Copy, Debug, PartialEq, Eq, Structural)]
pub struct Point2 {
    pub x: i64,
    pub y: i64,
}

/// A displacement per tick, in subpixels.
#[derive(Clone, Copy, Debug, PartialEq, Eq, Structural)]
pub struct Vector2 {
    pub x: i64,
    pub y: i64,
}

/// `|v| <= LIMIT`.
pub open spec fn within_limit(v: int) -> bool {
    -LIMIT <= v <= LIMIT
}

/// Whole pixels as subpixels.
pub open spec fn spec_pixels(px: int) -> int {
    px * SUBPIXELS
}

/// Whole pixels as subpixels.
pub fn pixels(px: i32) -> (r: i64)
    ensures
        r == spec_pixels(px as int),
{
    (px as i64) * SUBPIXELS
}

impl Point2 {
    /// Both coordinates are within [`LIMIT`].
    pub open spec fn in_range(self) -> bool {
        within_limit(self.x as int) && within_limit(self.y as int)
    }

    pub fn new(x: i64, y: i64) -> (p: Point2)
        ensures
            p == (Point2 { x, y }),
    {
        Point2 { x, y }
    }
}

impl Vector2 {
    /// Both components are within [`LIMIT`].
    pub open spec fn in_range(self) -> bool {
        within_limit(self.x as int) && within_limit(self.y as int)
    }

    pub fn new(x: i64, y: i64) -> (v: Vector2)
        ensures
            v == (Vector2 { x, y }),
    {
        Vector2 { x, y }
    }
}

} // verus!

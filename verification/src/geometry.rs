//! Coordinates, units and the window rectangle.
//!
//! A coordinate is an `i64` number of subpixels; one pixel is
//! `SUBPIXELS_PER_PIXEL` subpixels. Time is measured in microseconds.
//! With one million subpixels per pixel and one million microseconds per
//! second, a speed of `s` pixels per second is exactly `s` subpixels per
//! microsecond, so per-frame displacements are exact products.

use vstd::prelude::*;

verus! {

/// Subpixels in one pixel.
pub const SUBPIXELS_PER_PIXEL: i64 = 1_000_000;

/// Microseconds in one second.
pub const MICROS_PER_SECOND: i64 = 1_000_000;

/// Largest magnitude a coordinate may have, in subpixels. Keeping
/// coordinates within this bound leaves room for any single frame's
/// displacement without overflowing `i64`.
pub const MAX_COORD: i64 = 1_000_000_000_000_000_000;

/// Longest frame a movement step accepts, in microseconds (ten seconds).
pub const MAX_FRAME_MICROS: u64 = 10_000_000;

/// A position in space: `x` and `y` in subpixels, plus the depth layer `z`
/// used when placing the camera above the scene.
#[derive(Clone, Copy, PartialEq, Eq, Structural, Debug)]
pub struct Translation {
    pub x: i64,
    pub y: i64,
    pub z: i64,
}

/// The visible window, `width` and `height` in subpixels.
#[derive(Clone, Copy, PartialEq, Eq, Structural, Debug)]
pub struct WindowSize {
    pub width: i64,
    pub height: i64,
}

impl WindowSize {
    /// A usable window has positive extent and fits the coordinate space.
    pub open spec fn wf(self) -> bool {
        0 < self.width <= MAX_COORD && 0 < self.height <= MAX_COORD
    }
}

/// A value clamped to `[min, max]`, testing the lower bound first: when
/// `min > max` and the value is below `min`, the result is `min`.
pub open spec fn spec_clamp(v: int, min: int, max: int) -> int {
    if v < min {
        min
    } else if v > max {
        max
    } else {
        v
    }
}

/// The point at the centre of the window, at depth `z`.
pub open spec fn spec_window_center(window: WindowSize, z: int) -> Translation {
    Translation { x: (window.width / 2) as i64, y: (window.height / 2) as i64, z: z as i64 }
}

/// Center of the window at the given depth.
pub fn window_center(window: &WindowSize, z: i64) -> (t: Translation)
    requires
        window.wf(),
    ensures
        t == spec_window_center(*window, z as int),
{
    let half_width: i64 = ((window.width as u64) / 2) as i64;
    let half_height: i64 = ((window.height as u64) / 2) as i64;
    Translation { x: half_width, y: half_height, z }
}

} // verus!

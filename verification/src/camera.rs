//! Camera placement.

use vstd::prelude::*;
use crate::geometry::{spec_window_center, Translation, WindowSize, SUBPIXELS_PER_PIXEL};

verus! {

/// Depth layer of the camera, in pixels: well above the sprite plane.
pub const CAMERA_Z_PIXELS: i64 = 1_000;

/// Depth layer of the camera, in subpixels.
pub const CAMERA_Z_SUBPIX: i64 = CAMERA_Z_PIXELS * SUBPIXELS_PER_PIXEL;

/// Where the camera goes at startup: the centre of the window, above the
/// sprite plane.
pub fn spawn_camera(window: &WindowSize) -> (t: Translation)
    requires
        window.wf(),
    ensures
        t == spec_window_center(*window, CAMERA_Z_SUBPIX as int),
{
    crate::geometry::window_center(window, CAMERA_Z_SUBPIX)
}

} // verus!

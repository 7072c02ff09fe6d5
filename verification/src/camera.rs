//! The camera that looks at the scene.

use vstd::prelude::*;
use crate::geometry::{Point, Window};

verus! {

/// The scene's one camera.
#[derive(Clone, Copy, Debug, PartialEq, Eq, Structural)]
pub struct Camera {
    pub position: Point,
}

/// Places the camera over the middle of the window, so that the window
/// shows the world from the origin to the window's size.
pub fn spawn_camera(window: Window) -> (camera: Camera)
    ensures
        camera.position == window.middle(),
{
    Camera { position: window.center() }
}

} // verus!

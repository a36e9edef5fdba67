use vstd::prelude::*;

use crate::player::Vector2;

verus! {

/// A camera that follows the player along x.
pub struct CameraController {}

impl CameraController {
    pub fn new() -> (r: CameraController) {
        CameraController {}
    }

    /// The camera's position for this frame: the player's x, its own y.
    pub fn process(&self, camera: Vector2, player_x: i64) -> (r: Vector2)
        ensures
            r == (Vector2 { x: player_x, y: camera.y }),
    {
        Vector2 { x: player_x, y: camera.y }
    }
}

} // verus!

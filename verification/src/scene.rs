//! What the simulation hands to the renderer.

use vstd::prelude::*;
use crate::vector::Vec3;

verus! {

/// The camera that the scene is drawn from: where it stands, and its
/// heading and pitch in radians.
#[derive(Clone, Copy, Debug, PartialEq, Eq, Structural)]
pub struct SceneCamera {
    pub position: Vec3,
    pub yaw: i64,
    pub pitch: i64,
}

} // verus!

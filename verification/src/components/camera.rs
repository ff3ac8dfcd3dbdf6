use vstd::prelude::*;

verus! {

/// The view of an entity: whether it swings freely, and by how much it is
/// swung away from the entity's own heading, in radians.
#[derive(Clone, Copy, Debug, PartialEq, Eq, Structural)]
pub struct Camera {
    pub free_view: bool,
    pub pitch: i64,
    pub yaw: i64,
}

impl Camera {
    /// The camera at rest: locked, looking straight ahead.
    pub open spec fn at_rest() -> Camera {
        Camera { free_view: false, pitch: 0, yaw: 0 }
    }

    /// The camera at rest: locked, looking straight ahead.
    pub fn new() -> (out: Camera)
        ensures
            out == Camera::at_rest(),
    {
        Camera { free_view: false, pitch: 0, yaw: 0 }
    }
}

} // verus!

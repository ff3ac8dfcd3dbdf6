use vstd::prelude::*;
use crate::movement::Direction;

verus! {

/// What an entity is asked to do within the current tick.
#[derive(Clone, Copy, Debug, PartialEq, Eq)]
pub enum Action {
    /// Nothing.
    Idle,
    /// Step one cell in a direction relative to the facing.
    Move(Direction),
    /// Turn a quarter towards a direction.
    Turn(Direction),
    /// Swing the view by a yaw and a pitch delta.
    Look((i64, i64)),
    /// Switch free view on or off.
    ControlCamera(bool),
}

/// A pending action, waiting to be resolved within the current tick.
#[derive(Clone, Copy, Debug, PartialEq, Eq)]
pub struct Intent {
    pub action: Action,
}

} // verus!

//! The states that a tick must never reach.

use vstd::prelude::*;

verus! {

/// A broken invariant of the pipeline. None of them is the player's doing:
/// each means that the systems or the world were put together wrongly, and
/// the tick driver gives up on it.
#[derive(Clone, Copy, Debug, PartialEq, Eq, Structural)]
pub enum Violation {
    /// An intent reached the mover that is neither a move nor a turn.
    UnexpectedAction,
    /// No entity has a camera, a position and an orientation to draw from.
    NoCamera,
    /// An intent is left at the end of the tick that no animation carries on.
    LingeringIntent,
}

} // verus!

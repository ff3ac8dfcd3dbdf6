//! What the host reports between two ticks.

use vstd::prelude::*;

verus! {

/// A key of the keyboard. Those that no binding names are `Other`.
#[derive(Clone, Copy, Debug, PartialEq, Eq, Structural)]
pub enum Key {
    A,
    D,
    E,
    L,
    Q,
    S,
    Z,
    Up,
    Down,
    Left,
    Right,
    Space,
    LShift,
    PageUp,
    PageDown,
    Other,
}

/// One report of the keyboard or the mouse. The wheel and the motion carry
/// their deltas as scalars.
#[derive(Clone, Copy, Debug, PartialEq, Eq, Structural)]
pub enum Input {
    KeyPressed(Key),
    KeyReleased(Key),
    MousePressed,
    MouseReleased,
    MouseWheel(i64),
    MouseMotion(i64, i64),
}

/// One entry of the queue that a tick consumes.
#[derive(Clone, Copy, Debug, PartialEq, Eq, Structural)]
pub enum Event {
    Input(Input),
}

} // verus!

use vstd::prelude::*;

verus! {

/// Marks the actor that the user controls.
#[derive(Clone, Copy, Debug, PartialEq, Eq, Structural)]
pub struct Player;

} // verus!

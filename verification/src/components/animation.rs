use vstd::prelude::*;
use crate::movement::Direction;
use super::{Orientation, Position};

verus! {

/// What a transition interpolates, with the state it started from and the
/// direction it goes.
#[derive(Clone, Copy, Debug, PartialEq, Eq, Structural)]
pub enum AnimationType {
    TRANSLATE(Position, Direction),
    ROTATE(Orientation, Direction),
}

/// A transition spread over several ticks.
#[derive(Clone, Copy, Debug, PartialEq, Eq, Structural)]
pub struct Animation {
    pub effect: AnimationType,
    pub progress: u32,
    pub frames: u32,
}

/// Ticks that a new transition takes.
pub const FRAMES: u32 = 30;

impl Animation {
    /// The transition for `effect` before its first tick.
    pub open spec fn fresh(effect: AnimationType) -> Animation {
        Animation { effect, progress: 0, frames: FRAMES }
    }

    /// The progress after one more tick; it stays at the largest count.
    pub open spec fn next_progress(self) -> int {
        if self.progress == u32::MAX {
            u32::MAX as int
        } else {
            self.progress + 1
        }
    }

    /// This transition one tick further.
    pub open spec fn advanced(self) -> Animation {
        Animation { progress: self.next_progress() as u32, ..self }
    }

    /// Whether this transition has had all its ticks.
    pub open spec fn finished(self) -> bool {
        self.progress >= self.frames
    }

    /// Whether the coming step is the final one of this transition.
    pub open spec fn last_spec(self) -> bool {
        self.progress + 1 == self.frames
    }

    /// The transition for `effect` before its first tick.
    pub fn new(effect: AnimationType) -> (out: Animation)
        ensures
            out == Animation::fresh(effect),
    {
        Animation { effect, progress: 0, frames: FRAMES }
    }

    /// Counts one tick, and says whether the transition is over.
    pub fn progress(&mut self) -> (done: bool)
        ensures
            *final(self) == old(self).advanced(),
            done == final(self).finished(),
    {
        if self.progress < u32::MAX {
            self.progress += 1;
        }

        return self.progress >= self.frames;
    }

    /// Whether the coming step is the final one of this transition.
    pub fn last(&self) -> (out: bool)
        ensures
            out == self.last_spec(),
    {
        self.frames > 0 && self.progress == self.frames - 1
    }
}

} // verus!

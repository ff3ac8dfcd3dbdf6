use vstd::prelude::*;
use crate::fixed;
use crate::movement::{Direction, Facing};

verus! {

/// Which way an entity faces: the cardinal facing, and the heading in
/// radians that is drawn, which leaves the facing's own only mid-turn.
#[derive(Clone, Copy, Debug, PartialEq, Eq, Structural)]
pub struct Orientation {
    pub facing: Facing,
    pub yaw: i64,
}

impl Orientation {
    /// The orientation at rest on `facing`.
    pub open spec fn at(facing: Facing) -> Orientation {
        Orientation { facing, yaw: facing.yaw_spec() as i64 }
    }

    /// Whether the heading is the facing's own.
    pub open spec fn settled(self) -> bool {
        self.yaw == self.facing.yaw_spec()
    }

    /// This orientation turned towards `direction`. With `clip` the facing
    /// makes its quarter turn and the heading follows it. Without, the
    /// facing stays and the heading moves by `amount` quarter turns:
    /// down for left, up for right and backward, not at all for forward.
    pub open spec fn rotate_spec(self, direction: Direction, amount: int, clip: bool) -> Orientation {
        let angle = fixed::scale_spec(amount, fixed::FRAC_PI_2 as int);
        if clip {
            Orientation::at(self.facing.turn_spec(direction))
        } else {
            match direction {
                Direction::Left => Orientation { yaw: fixed::clamp(self.yaw - angle) as i64, ..self },
                Direction::Right => Orientation { yaw: fixed::clamp(self.yaw + angle) as i64, ..self },
                Direction::Forward => self,
                Direction::Backward => Orientation {
                    yaw: fixed::clamp(self.yaw + angle) as i64,
                    ..self
                },
            }
        }
    }

    /// The orientation at rest on `facing`.
    pub fn new(facing: Facing) -> (out: Orientation)
        ensures
            out == Orientation::at(facing),
    {
        Orientation { facing, yaw: facing.yaw() }
    }

    /// Comes to rest on `facing`.
    pub fn face(&mut self, facing: Facing)
        ensures
            *final(self) == Orientation::at(facing),
    {
        self.facing = facing;
        self.yaw = facing.yaw()
    }

    /// Turns towards `direction`: by a whole quarter with `clip`, else by
    /// `amount` quarter turns of heading.
    pub fn rotate(&mut self, direction: Direction, amount: i64, clip: bool)
        ensures
            *final(self) == old(self).rotate_spec(direction, amount as int, clip),
            clip ==> final(self).settled(),
    {
        let amount = fixed::scale(amount, fixed::FRAC_PI_2);
        if clip {
            self.facing = self.facing.turn(direction);
            self.yaw = self.facing.yaw();
        } else {
            match direction {
                Direction::Left => self.yaw = fixed::minus(self.yaw, amount),
                Direction::Right => self.yaw = fixed::plus(self.yaw, amount),
                Direction::Forward => (),
                Direction::Backward => self.yaw = fixed::plus(self.yaw, amount),
            }
        }
    }
}

} // verus!

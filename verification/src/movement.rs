//! Cardinal facings, relative directions, and how one turns the other.

use vstd::prelude::*;
use crate::fixed;
use crate::vector::Vec3;

verus! {

/// One of the four grid-aligned orientations.
#[derive(Clone, Copy, Debug, PartialEq, Eq, Structural)]
pub enum Facing {
    North,
    South,
    East,
    West,
}

/// A direction relative to the current facing.
#[derive(Clone, Copy, Debug, PartialEq, Eq, Structural)]
pub enum Direction {
    Left,
    Right,
    Forward,
    Backward,
}

impl Facing {
    /// Number of clockwise quarter turns from north, in `0..4`.
    pub open spec fn quarter(self) -> int {
        match self {
            Facing::North => 0,
            Facing::East => 1,
            Facing::South => 2,
            Facing::West => 3,
        }
    }

    /// The facing that lies `q` clockwise quarter turns from north.
    pub open spec fn from_quarter(q: int) -> Facing {
        let r = q % 4;
        if r == 0 {
            Facing::North
        } else if r == 1 {
            Facing::East
        } else if r == 2 {
            Facing::South
        } else {
            Facing::West
        }
    }

    /// The facing reached from `self` by turning towards `direction`.
    pub open spec fn turn_spec(self, direction: Direction) -> Facing {
        Facing::from_quarter(self.quarter() + direction.quarters())
    }

    /// The heading of this facing, in radians: east is zero and the angle
    /// grows from east towards south.
    pub open spec fn yaw_spec(self) -> int {
        match self {
            Facing::North => -(fixed::FRAC_PI_2 as int),
            Facing::South => fixed::FRAC_PI_2 as int,
            Facing::East => 0,
            Facing::West => fixed::PI as int,
        }
    }

    /// The heading of this facing, in radians.
    pub fn yaw(&self) -> (out: i64)
        ensures
            out == self.yaw_spec(),
    {
        match self {
            Facing::North => -fixed::FRAC_PI_2,
            Facing::South => fixed::FRAC_PI_2,
            Facing::East => 0,
            Facing::West => fixed::PI,
        }
    }

    /// The facing a quarter turn counter-clockwise of `self`.
    pub fn turn_left(self) -> (out: Facing)
        ensures
            out == self.turn_spec(Direction::Left),
    {
        match self {
            Facing::North => Facing::West,
            Facing::South => Facing::East,
            Facing::East => Facing::North,
            Facing::West => Facing::South,
        }
    }

    /// The facing a quarter turn clockwise of `self`.
    pub fn turn_right(self) -> (out: Facing)
        ensures
            out == self.turn_spec(Direction::Right),
    {
        match self {
            Facing::North => Facing::East,
            Facing::South => Facing::West,
            Facing::East => Facing::South,
            Facing::West => Facing::North,
        }
    }

    /// The facing reached from `self` by turning towards `direction`.
    pub fn turn(self, direction: Direction) -> (out: Facing)
        ensures
            out == self.turn_spec(direction),
    {
        match self {
            Facing::North => match direction {
                Direction::Left => Facing::West,
                Direction::Right => Facing::East,
                Direction::Forward => Facing::North,
                Direction::Backward => Facing::South,
            },
            Facing::South => match direction {
                Direction::Left => Facing::East,
                Direction::Right => Facing::West,
                Direction::Forward => Facing::South,
                Direction::Backward => Facing::North,
            },
            Facing::East => match direction {
                Direction::Left => Facing::North,
                Direction::Right => Facing::South,
                Direction::Forward => Facing::East,
                Direction::Backward => Facing::West,
            },
            Facing::West => match direction {
                Direction::Left => Facing::South,
                Direction::Right => Facing::North,
                Direction::Forward => Facing::West,
                Direction::Backward => Facing::East,
            },
        }
    }
}

impl Direction {
    /// Clockwise quarter turns that a turn towards this direction makes.
    pub open spec fn quarters(self) -> int {
        match self {
            Direction::Forward => 0,
            Direction::Right => 1,
            Direction::Backward => 2,
            Direction::Left => 3,
        }
    }
}

/// The displacement of `amount` along the facing that `facing` turned
/// towards `direction` gives: north is towards negative `z`, east towards
/// positive `x`. A negated amount saturates.
pub open spec fn translation_spec(facing: Facing, direction: Direction, amount: int) -> Vec3 {
    match facing.turn_spec(direction) {
        Facing::North => Vec3 { x: 0, y: 0, z: fixed::clamp(-amount) as i64 },
        Facing::South => Vec3 { x: 0, y: 0, z: amount as i64 },
        Facing::East => Vec3 { x: amount as i64, y: 0, z: 0 },
        Facing::West => Vec3 { x: fixed::clamp(-amount) as i64, y: 0, z: 0 },
    }
}

/// The displacement of `amount` in `direction`, seen from `facing`.
pub fn get_translation(facing: Facing, direction: Direction, amount: i64) -> (out: Vec3)
    ensures
        out == translation_spec(facing, direction, amount as int),
{
    let move_direction = facing.turn(direction);

    match move_direction {
        Facing::North => Vec3::new(0, 0, fixed::minus(0, amount)),
        Facing::South => Vec3::new(0, 0, amount),
        Facing::East => Vec3::new(amount, 0, 0),
        Facing::West => Vec3::new(fixed::minus(0, amount), 0, 0),
    }
}

/// Four turns towards the same direction lead back to the first facing.
pub proof fn lemma_four_turns(facing: Facing, direction: Direction)
    ensures
        facing.turn_spec(direction).turn_spec(direction).turn_spec(direction).turn_spec(
            direction,
        ) == facing,
{
}

/// A turn to the left undoes a turn to the right, and the other way round;
/// a turn forward changes nothing, and two turns backward change nothing.
pub proof fn lemma_turns_cancel(facing: Facing)
    ensures
        facing.turn_spec(Direction::Left).turn_spec(Direction::Right) == facing,
        facing.turn_spec(Direction::Right).turn_spec(Direction::Left) == facing,
        facing.turn_spec(Direction::Forward) == facing,
        facing.turn_spec(Direction::Backward).turn_spec(Direction::Backward) == facing,
{
}

} // verus!

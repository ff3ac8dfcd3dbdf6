//! Points and displacements in world space, one scalar per axis.

use vstd::prelude::*;
use crate::fixed;

verus! {

/// Three fixed-point scalars: a point of the world, or a displacement in it.
#[derive(Clone, Copy, Debug, PartialEq, Eq, Structural)]
pub struct Vec3 {
    pub x: i64,
    pub y: i64,
    pub z: i64,
}

impl Vec3 {
    /// The sum of two vectors, each axis saturating on its own.
    pub open spec fn plus_spec(self, other: Vec3) -> Vec3 {
        Vec3 {
            x: fixed::clamp(self.x + other.x) as i64,
            y: fixed::clamp(self.y + other.y) as i64,
            z: fixed::clamp(self.z + other.z) as i64,
        }
    }

    /// This vector with each scalar multiplied by `factor`, in fixed point.
    pub open spec fn times_spec(self, factor: i64) -> Vec3 {
        Vec3 {
            x: fixed::scale_spec(self.x as int, factor as int) as i64,
            y: fixed::scale_spec(self.y as int, factor as int) as i64,
            z: fixed::scale_spec(self.z as int, factor as int) as i64,
        }
    }

    /// The vector with the given scalars.
    pub fn new(x: i64, y: i64, z: i64) -> (out: Vec3)
        ensures
            out == (Vec3 { x, y, z }),
    {
        Vec3 { x, y, z }
    }

    /// The vector whose scalars are all zero.
    pub fn zero() -> (out: Vec3)
        ensures
            out == (Vec3 { x: 0, y: 0, z: 0 }),
    {
        Vec3 { x: 0, y: 0, z: 0 }
    }

    /// The sum of two vectors, each axis saturating on its own.
    pub fn plus(self, other: Vec3) -> (out: Vec3)
        ensures
            out == self.plus_spec(other),
    {
        Vec3 {
            x: fixed::plus(self.x, other.x),
            y: fixed::plus(self.y, other.y),
            z: fixed::plus(self.z, other.z),
        }
    }

    /// This vector with each scalar multiplied by `factor`, in fixed point.
    pub fn times(self, factor: i64) -> (out: Vec3)
        ensures
            out == self.times_spec(factor),
    {
        Vec3 {
            x: fixed::scale(self.x, factor),
            y: fixed::scale(self.y, factor),
            z: fixed::scale(self.z, factor),
        }
    }
}

} // verus!

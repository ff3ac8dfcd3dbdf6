use vstd::prelude::*;
use crate::fixed;
use crate::vector::Vec3;

verus! {

/// World coordinates of an entity.
#[derive(Clone, Copy, Debug, PartialEq, Eq, Structural)]
pub struct Position {
    pub x: i64,
    pub y: i64,
    pub z: i64,
}

/// Where one axis ends up after a displacement: the saturating sum, rounded
/// to the nearest whole when `clip` is set.
pub open spec fn settle(at: int, by: int, clip: bool) -> int {
    if clip {
        fixed::round_spec(fixed::clamp(at + by))
    } else {
        fixed::clamp(at + by)
    }
}

impl Position {
    /// The point of world space that this position names.
    pub open spec fn point(self) -> Vec3 {
        Vec3 { x: self.x, y: self.y, z: self.z }
    }

    /// Whether every coordinate is a whole in range, so that the position
    /// names a node of the grid.
    pub open spec fn on_grid(self) -> bool {
        &&& fixed::is_whole(self.x as int) && fixed::in_range(self.x as int)
        &&& fixed::is_whole(self.y as int) && fixed::in_range(self.y as int)
        &&& fixed::is_whole(self.z as int) && fixed::in_range(self.z as int)
    }

    /// This position displaced by `translation`, axis by axis.
    pub open spec fn translate_spec(self, translation: Vec3, clip: bool) -> Position {
        Position {
            x: settle(self.x as int, translation.x as int, clip) as i64,
            y: settle(self.y as int, translation.y as int, clip) as i64,
            z: settle(self.z as int, translation.z as int, clip) as i64,
        }
    }

    /// Displaces the position by `translation`; with `clip` the result is
    /// snapped to the grid.
    pub fn translate(&mut self, translation: Vec3, clip: bool)
        ensures
            *final(self) == old(self).translate_spec(translation, clip),
            clip ==> final(self).on_grid(),
    {
        self.x = fixed::plus(self.x, translation.x);
        self.y = fixed::plus(self.y, translation.y);
        self.z = fixed::plus(self.z, translation.z);

        if clip {
            self.x = fixed::round(self.x);
            self.y = fixed::round(self.y);
            self.z = fixed::round(self.z);
        }
    }

    /// The point of world space that this position names.
    pub fn to_vec3(self) -> (out: Vec3)
        ensures
            out == self.point(),
    {
        Vec3::new(self.x, self.y, self.z)
    }
}

} // verus!

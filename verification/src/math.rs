//! Integer vectors in two and three dimensions.

use vstd::prelude::*;

verus! {

/// Whether `n` can be stored in a coordinate.
pub open spec fn fits(n: int) -> bool {
    i32::MIN <= n <= i32::MAX
}

/// A point or displacement in the plane.
#[derive(Clone, Copy, Debug, PartialEq, Eq, Structural)]
pub struct Vec2 {
    pub x: i32,
    pub y: i32,
}

/// A point, displacement or scale in space.
#[derive(Clone, Copy, Debug, PartialEq, Eq, Structural)]
pub struct Vec3 {
    pub x: i32,
    pub y: i32,
    pub z: i32,
}

impl Vec2 {
    pub fn new(x: i32, y: i32) -> (v: Vec2)
        ensures
            v == (Vec2 { x, y }),
    {
        Vec2 { x, y }
    }

    /// The vector in space with the same `x` and `y` and the given `z`.
    pub open spec fn extended(self, z: i32) -> Vec3 {
        Vec3 { x: self.x, y: self.y, z }
    }

    pub fn extend(self, z: i32) -> (v: Vec3)
        ensures
            v == self.extended(z),
    {
        Vec3 { x: self.x, y: self.y, z }
    }
}

impl Vec3 {
    pub fn new(x: i32, y: i32, z: i32) -> (v: Vec3)
        ensures
            v == (Vec3 { x, y, z }),
    {
        Vec3 { x, y, z }
    }

    /// The coordinate-wise sum, where every coordinate of it fits.
    pub open spec fn sum(self, rhs: Vec3) -> Option<Vec3> {
        if fits(self.x + rhs.x) && fits(self.y + rhs.y) && fits(self.z + rhs.z) {
            Some(
                Vec3 {
                    x: (self.x + rhs.x) as i32,
                    y: (self.y + rhs.y) as i32,
                    z: (self.z + rhs.z) as i32,
                },
            )
        } else {
            None
        }
    }

    /// Adds coordinate by coordinate; `None` as soon as one sum overflows.
    pub fn checked_add(self, rhs: Vec3) -> (total: Option<Vec3>)
        ensures
            total == self.sum(rhs),
    {
        match (self.x.checked_add(rhs.x), self.y.checked_add(rhs.y), self.z.checked_add(rhs.z)) {
            (Some(x), Some(y), Some(z)) => Some(Vec3 { x, y, z }),
            _ => None,
        }
    }
}

} // verus!

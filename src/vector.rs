//! Integer three-component vectors. Every quantity of the simulation
//! (positions, extents, velocities, forces) is measured in whole units of a
//! fixed-point scale chosen by the embedding game.
use vstd::prelude::*;

verus! {

/// Largest magnitude of a collider coordinate or extent, and of a position.
pub const COORD_LIMIT: i64 = 1_073_741_824;

/// Largest magnitude of a velocity component that resolution accepts.
pub const SPEED_LIMIT: i64 = 1_073_741_824;

#[derive(Clone, Copy, Debug, PartialEq, Eq, Structural)]
pub struct Vec3i {
    pub x: i64,
    pub y: i64,
    pub z: i64,
}

/// `|x| <= lim`.
pub open spec fn within(x: int, lim: int) -> bool {
    -lim <= x <= lim
}

/// `n / d` rounded toward zero, the rounding of Rust's integer division.
pub open spec fn trunc_div(n: int, d: int) -> int {
    if n >= 0 {
        n / d
    } else {
        -((-n) / d)
    }
}

impl Vec3i {
    /// Every component has magnitude at most `lim`.
    pub open spec fn bounded(self, lim: int) -> bool {
        within(self.x as int, lim) && within(self.y as int, lim) && within(self.z as int, lim)
    }

    /// The component sum `self + o` fits in `i64`.
    pub open spec fn add_fits(self, o: Vec3i) -> bool {
        self.x + o.x <= i64::MAX && self.x + o.x >= i64::MIN
        && self.y + o.y <= i64::MAX && self.y + o.y >= i64::MIN
        && self.z + o.z <= i64::MAX && self.z + o.z >= i64::MIN
    }

    pub open spec fn spec_add(self, o: Vec3i) -> Vec3i {
        Vec3i { x: (self.x + o.x) as i64, y: (self.y + o.y) as i64, z: (self.z + o.z) as i64 }
    }

    pub open spec fn zero_spec() -> Vec3i {
        Vec3i { x: 0, y: 0, z: 0 }
    }

    pub fn new(x: i64, y: i64, z: i64) -> (r: Vec3i)
        ensures
            r == (Vec3i { x, y, z }),
    {
        Vec3i { x, y, z }
    }

    pub fn zero() -> (r: Vec3i)
        ensures
            r == Vec3i::zero_spec(),
    {
        Vec3i { x: 0, y: 0, z: 0 }
    }

    /// Component-wise sum.
    pub fn add(self, o: Vec3i) -> (r: Vec3i)
        requires
            self.add_fits(o),
        ensures
            r == self.spec_add(o),
            r.x == self.x + o.x,
            r.y == self.y + o.y,
            r.z == self.z + o.z,
    {
        Vec3i { x: self.x + o.x, y: self.y + o.y, z: self.z + o.z }
    }
}

/// Dot product over mathematical integers.
pub open spec fn dot(a: Vec3i, b: Vec3i) -> int {
    a.x * b.x + a.y * b.y + a.z * b.z
}

} // verus!

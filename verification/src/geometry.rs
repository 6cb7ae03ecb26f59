//! Integer 3D points and axis-aligned box descriptors.
//!
//! Coordinates are fixed-point: one unit here is a tenth of a world unit.

use vstd::prelude::*;

verus! {

/// Magnitude cap on every coordinate the library accepts.  Keeping all
/// inputs within this range lets each derived quantity (face positions,
/// lintel heights, light ranges) fit comfortably in `i64`.
pub const COORD_LIMIT: i64 = 1_000_000_000;

/// A point (or extent triple) in world space, in tenths of a unit.
#[derive(Clone, Copy, PartialEq, Eq, Structural, Debug)]
pub struct Point3 {
    pub x: i64,
    pub y: i64,
    pub z: i64,
}

impl Point3 {
    pub fn new(x: i64, y: i64, z: i64) -> (r: Point3)
        ensures
            r.x == x,
            r.y == y,
            r.z == z,
    {
        Point3 { x, y, z }
    }

    /// All three coordinates within magnitude `m`.
    pub open spec fn within(self, m: int) -> bool {
        &&& -m <= self.x <= m
        &&& -m <= self.y <= m
        &&& -m <= self.z <= m
    }

    /// All three coordinates within the accepted magnitude range.
    pub open spec fn in_range(self) -> bool {
        self.within(COORD_LIMIT as int)
    }
}

/// An axis-aligned rectangular prism: the shape descriptor handed to the
/// geometry/physics sink for floors, wall pieces and roofs.
#[derive(Clone, Copy, PartialEq, Eq, Structural, Debug)]
pub struct BoxGeom {
    /// World-space center of the prism.
    pub center: Point3,
    /// Half-extent along each axis.
    pub half: Point3,
}

/// Halves a non-negative length exactly as the geometry formulas state it:
/// floor division by two.
pub fn half_of(x: i64) -> (r: i64)
    requires
        x >= 0,
    ensures
        r == x as int / 2,
{
    x / 2
}

} // verus!

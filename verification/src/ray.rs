//! Rays in the octree's normalized coordinate frame.
//!
//! Coordinates are fixed-point integers with 23 fractional bits — one world
//! unit is `FIXED_ONE` — matching the mantissa width of a single-precision
//! float, so every representable position of the traversal grid is exact.
//! The root cube spans `[-1, 1]` on every axis.

use vstd::prelude::*;

verus! {

/// One world unit: `2^23` fixed-point steps.
pub const FIXED_ONE: i64 = 0x80_0000;

/// Largest coordinate magnitude a well-formed ray may carry (`2^17` world
/// units), chosen so that every derived ray parameter stays within the
/// bounds of exact comparison.
pub const COORD_LIMIT: i64 = 0x100_0000_0000;

/// A point or vector in fixed-point coordinates.
#[derive(Clone, Copy, PartialEq, Eq, Structural, Debug)]
pub struct Fixed3 {
    pub x: i64,
    pub y: i64,
    pub z: i64,
}

impl Fixed3 {
    /// All components within `COORD_LIMIT`.
    pub open spec fn wf(self) -> bool {
        &&& -COORD_LIMIT <= self.x <= COORD_LIMIT
        &&& -COORD_LIMIT <= self.y <= COORD_LIMIT
        &&& -COORD_LIMIT <= self.z <= COORD_LIMIT
    }

    /// The vector `(x, y, z)`.
    pub fn new(x: i64, y: i64, z: i64) -> (r: Fixed3)
        ensures
            r == (Fixed3 { x, y, z }),
    {
        Fixed3 { x, y, z }
    }
}

/// A ray: origin point and direction vector, both in the octree's
/// normalized coordinate frame.  The direction need not be normalized; its
/// magnitude only scales the ray parameter, and the parameter span `[0, 1]`
/// delimits the traversed segment.
#[derive(Clone, Copy, PartialEq, Eq, Structural, Debug)]
pub struct Ray {
    pub origin: Fixed3,
    pub direction: Fixed3,
}

impl Ray {
    /// Both end points within coordinate bounds.
    pub open spec fn wf(self) -> bool {
        self.origin.wf() && self.direction.wf()
    }

    /// The ray from `origin` toward `direction`.
    pub fn new(origin: Fixed3, direction: Fixed3) -> (r: Ray)
        ensures
            r == (Ray { origin, direction }),
    {
        Ray { origin, direction }
    }
}

} // verus!

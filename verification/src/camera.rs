//! Camera ray generation from inverse view/projection matrices.
//!
//! The generator maps a normalized screen coordinate and the camera's
//! inverse matrices to a world-space ray: the origin is the image of the
//! homogeneous point `(0, 0, 0, 1)` under the inverse view matrix — its
//! translation column, exactly — and the direction is the image of
//! `(screen_x, screen_y, 0, 1)` under the centered inverse view matrix
//! composed with the inverse projection matrix, dropping the homogeneous
//! coordinate.  The direction is not normalized; its magnitude only scales
//! the ray parameter.
//!
//! Matrices are held in fixed-point form (23 fractional bits, as all
//! coordinates of this crate); computing the inverses themselves is the
//! caller's concern.  Each transformed component is an exact integer dot
//! product scaled back by one unit, truncated toward zero.

use crate::ray::{Fixed3, Ray, COORD_LIMIT, FIXED_ONE};
use vstd::prelude::*;

verus! {

/// Largest matrix entry magnitude a well-formed camera may carry (32 world
/// units), chosen so that transformed coordinates stay within ray bounds.
pub const MAT_ENTRY_LIMIT: i64 = 0x1000_0000;

/// Largest screen-coordinate magnitude accepted (two world units; the
/// visible screen spans `[-1, 1]`).
pub const SCREEN_LIMIT: i64 = 0x100_0000;

/// Bound on the components of a vector fed into a transform.
pub const VEC_IN_LIMIT: i64 = 0x8000_0000;

/// Bound on the components of a transformed vector.
pub const VEC_OUT_LIMIT: i64 = 0x40_0000_0000;

/// A homogeneous column of a fixed-point matrix.
#[derive(Clone, Copy, PartialEq, Eq, Structural, Debug)]
pub struct Fixed4 {
    pub x: i64,
    pub y: i64,
    pub z: i64,
    pub w: i64,
}

impl Fixed4 {
    /// All components within the matrix entry bound.
    pub open spec fn wf(self) -> bool {
        &&& -MAT_ENTRY_LIMIT <= self.x <= MAT_ENTRY_LIMIT
        &&& -MAT_ENTRY_LIMIT <= self.y <= MAT_ENTRY_LIMIT
        &&& -MAT_ENTRY_LIMIT <= self.z <= MAT_ENTRY_LIMIT
        &&& -MAT_ENTRY_LIMIT <= self.w <= MAT_ENTRY_LIMIT
    }

    /// The column `(x, y, z, w)`.
    pub fn new(x: i64, y: i64, z: i64, w: i64) -> (r: Fixed4)
        ensures
            r == (Fixed4 { x, y, z, w }),
    {
        Fixed4 { x, y, z, w }
    }
}

/// A column-major fixed-point 4-by-4 matrix.
#[derive(Clone, Copy, PartialEq, Eq, Structural, Debug)]
pub struct Mat4Fixed {
    pub c0: Fixed4,
    pub c1: Fixed4,
    pub c2: Fixed4,
    pub c3: Fixed4,
}

impl Mat4Fixed {
    /// All entries within the matrix entry bound.
    pub open spec fn wf(self) -> bool {
        self.c0.wf() && self.c1.wf() && self.c2.wf() && self.c3.wf()
    }

    /// The matrix with the given columns.
    pub fn new(c0: Fixed4, c1: Fixed4, c2: Fixed4, c3: Fixed4) -> (r: Mat4Fixed)
        ensures
            r == (Mat4Fixed { c0, c1, c2, c3 }),
    {
        Mat4Fixed { c0, c1, c2, c3 }
    }
}

/// Division truncated toward zero, for a positive divisor.
pub open spec fn trunc_div(a: int, b: int) -> int {
    if a >= 0 {
        a / b
    } else {
        -((-a) / b)
    }
}

/// One component of a fixed-point matrix-vector product: the exact dot
/// product of the component row with `(x, y, z, w)`, scaled back by one
/// fixed-point unit, truncated toward zero.
pub open spec fn spec_transform_comp(
    a: i64,
    b: i64,
    c: i64,
    d: i64,
    x: i64,
    y: i64,
    z: i64,
    w: i64,
) -> int {
    trunc_div(a * x + b * y + c * z + d * w, FIXED_ONE as int)
}

/// The product of two values within the given magnitudes stays within the
/// product of the magnitudes.
proof fn lemma_mul_magnitude(x: int, y: int, ax: int, ay: int)
    by (nonlinear_arith)
    requires
        -ax <= x <= ax,
        -ay <= y <= ay,
        0 <= ax,
        0 <= ay,
    ensures
        -(ax * ay) <= x * y <= ax * ay,
{
}

/// A quotient of bounded magnitude: dividing a value no larger than `m` by
/// a positive `b` stays within `m / b`.
proof fn lemma_div_magnitude(a: int, m: int, b: int)
    by (nonlinear_arith)
    requires
        0 <= a <= m,
        1 <= b,
    ensures
        0 <= a / b <= m / b,
{
}

/// One component of the fixed-point transform of `(x, y, z, w)` by the row
/// `(a, b, c, d)`.
fn transform_comp(a: i64, b: i64, c: i64, d: i64, x: i64, y: i64, z: i64, w: i64) -> (r: i64)
    requires
        -MAT_ENTRY_LIMIT <= a <= MAT_ENTRY_LIMIT,
        -MAT_ENTRY_LIMIT <= b <= MAT_ENTRY_LIMIT,
        -MAT_ENTRY_LIMIT <= c <= MAT_ENTRY_LIMIT,
        -MAT_ENTRY_LIMIT <= d <= MAT_ENTRY_LIMIT,
        -VEC_IN_LIMIT <= x <= VEC_IN_LIMIT,
        -VEC_IN_LIMIT <= y <= VEC_IN_LIMIT,
        -VEC_IN_LIMIT <= z <= VEC_IN_LIMIT,
        -VEC_IN_LIMIT <= w <= VEC_IN_LIMIT,
    ensures
        r == spec_transform_comp(a, b, c, d, x, y, z, w),
        -VEC_OUT_LIMIT <= r <= VEC_OUT_LIMIT,
        (-SCREEN_LIMIT <= x <= SCREEN_LIMIT && -SCREEN_LIMIT <= y <= SCREEN_LIMIT && -SCREEN_LIMIT
            <= z <= SCREEN_LIMIT && -SCREEN_LIMIT <= w <= SCREEN_LIMIT) ==> -VEC_IN_LIMIT <= r
            <= VEC_IN_LIMIT,
{
    proof {
        lemma_mul_magnitude(a as int, x as int, MAT_ENTRY_LIMIT as int, VEC_IN_LIMIT as int);
        lemma_mul_magnitude(b as int, y as int, MAT_ENTRY_LIMIT as int, VEC_IN_LIMIT as int);
        lemma_mul_magnitude(c as int, z as int, MAT_ENTRY_LIMIT as int, VEC_IN_LIMIT as int);
        lemma_mul_magnitude(d as int, w as int, MAT_ENTRY_LIMIT as int, VEC_IN_LIMIT as int);
        if -SCREEN_LIMIT <= x <= SCREEN_LIMIT && -SCREEN_LIMIT <= y <= SCREEN_LIMIT && -SCREEN_LIMIT
            <= z <= SCREEN_LIMIT && -SCREEN_LIMIT <= w <= SCREEN_LIMIT {
            lemma_mul_magnitude(a as int, x as int, MAT_ENTRY_LIMIT as int, SCREEN_LIMIT as int);
            lemma_mul_magnitude(b as int, y as int, MAT_ENTRY_LIMIT as int, SCREEN_LIMIT as int);
            lemma_mul_magnitude(c as int, z as int, MAT_ENTRY_LIMIT as int, SCREEN_LIMIT as int);
            lemma_mul_magnitude(d as int, w as int, MAT_ENTRY_LIMIT as int, SCREEN_LIMIT as int);
        }
    }
    let s: i128 = (a as i128) * (x as i128) + (b as i128) * (y as i128) + (c as i128) * (z as i128)
        + (d as i128) * (w as i128);
    if s >= 0 {
        let mag: u128 = s as u128;
        let q: u128 = mag / (FIXED_ONE as u128);
        proof {
            lemma_div_magnitude(mag as int, 4 * MAT_ENTRY_LIMIT * VEC_IN_LIMIT, FIXED_ONE as int);
            if s <= 4 * MAT_ENTRY_LIMIT * SCREEN_LIMIT {
                lemma_div_magnitude(
                    mag as int,
                    4 * MAT_ENTRY_LIMIT * SCREEN_LIMIT,
                    FIXED_ONE as int,
                );
            }
        }
        q as i64
    } else {
        let mag: u128 = (-s) as u128;
        let q: u128 = mag / (FIXED_ONE as u128);
        proof {
            lemma_div_magnitude(mag as int, 4 * MAT_ENTRY_LIMIT * VEC_IN_LIMIT, FIXED_ONE as int);
            if -s <= 4 * MAT_ENTRY_LIMIT * SCREEN_LIMIT {
                lemma_div_magnitude(
                    mag as int,
                    4 * MAT_ENTRY_LIMIT * SCREEN_LIMIT,
                    FIXED_ONE as int,
                );
            }
        }
        -(q as i64)
    }
}

/// The inverse camera: inverse view, inverse projection, and the centered
/// inverse view — the inverse view with its translation column zeroed —
/// which separates the ray direction from the ray origin.
#[derive(Clone, Copy, PartialEq, Eq, Structural, Debug)]
pub struct InverseCamera {
    pub inverse_view: Mat4Fixed,
    pub inverse_centered_view: Mat4Fixed,
    pub inverse_projection: Mat4Fixed,
}

impl InverseCamera {
    /// Both source matrices well formed; the centered view is the view with
    /// its translation zeroed.
    pub open spec fn wf(self) -> bool {
        &&& self.inverse_view.wf()
        &&& self.inverse_centered_view.wf()
        &&& self.inverse_projection.wf()
    }

    /// Build the camera from the inverse view and inverse projection
    /// matrices, deriving the centered inverse view by zeroing the
    /// translation component.
    pub fn new(inverse_view: &Mat4Fixed, inverse_projection: &Mat4Fixed) -> (r: InverseCamera)
        ensures
            r.inverse_view == *inverse_view,
            r.inverse_projection == *inverse_projection,
            r.inverse_centered_view.c0 == inverse_view.c0,
            r.inverse_centered_view.c1 == inverse_view.c1,
            r.inverse_centered_view.c2 == inverse_view.c2,
            r.inverse_centered_view.c3 == (Fixed4 { x: 0, y: 0, z: 0, w: inverse_view.c3.w }),
    {
        let mut centered = *inverse_view;
        centered.c3 = Fixed4 { x: 0, y: 0, z: 0, w: inverse_view.c3.w };
        InverseCamera {
            inverse_view: *inverse_view,
            inverse_centered_view: centered,
            inverse_projection: *inverse_projection,
        }
    }

    /// The world-space ray through the normalized screen coordinate
    /// `(screen_x, screen_y)`.
    ///
    /// The origin is the translation column of the inverse view, exactly.
    /// The direction is the screen point lifted to the homogeneous point
    /// `(screen_x, screen_y, 0, 1)`, transformed by the inverse projection
    /// and then by the centered inverse view, dropping the homogeneous
    /// coordinate.
    pub fn create_ray(&self, screen_x: i64, screen_y: i64) -> (r: Ray)
        requires
            self.wf(),
            -SCREEN_LIMIT <= screen_x <= SCREEN_LIMIT,
            -SCREEN_LIMIT <= screen_y <= SCREEN_LIMIT,
        ensures
            r.origin == (Fixed3 {
                x: self.inverse_view.c3.x,
                y: self.inverse_view.c3.y,
                z: self.inverse_view.c3.z,
            }),
            r.direction.x == spec_direction_comp(*self, screen_x, screen_y, 0),
            r.direction.y == spec_direction_comp(*self, screen_x, screen_y, 1),
            r.direction.z == spec_direction_comp(*self, screen_x, screen_y, 2),
            r.wf(),
    {
        let origin = Fixed3::new(self.inverse_view.c3.x, self.inverse_view.c3.y, self.inverse_view.c3.z);

        let p = self.inverse_projection;
        let px = transform_comp(
            p.c0.x, p.c1.x, p.c2.x, p.c3.x, screen_x, screen_y, 0, FIXED_ONE);
        let py = transform_comp(
            p.c0.y, p.c1.y, p.c2.y, p.c3.y, screen_x, screen_y, 0, FIXED_ONE);
        let pz = transform_comp(
            p.c0.z, p.c1.z, p.c2.z, p.c3.z, screen_x, screen_y, 0, FIXED_ONE);
        let pw = transform_comp(
            p.c0.w, p.c1.w, p.c2.w, p.c3.w, screen_x, screen_y, 0, FIXED_ONE);

        let v = self.inverse_centered_view;
        let dx = transform_comp(v.c0.x, v.c1.x, v.c2.x, v.c3.x, px, py, pz, pw);
        let dy = transform_comp(v.c0.y, v.c1.y, v.c2.y, v.c3.y, px, py, pz, pw);
        let dz = transform_comp(v.c0.z, v.c1.z, v.c2.z, v.c3.z, px, py, pz, pw);

        Ray::new(origin, Fixed3::new(dx, dy, dz))
    }
}

/// The projected homogeneous point for a screen coordinate: component
/// `comp` of the inverse projection applied to `(sx, sy, 0, 1)`.
pub open spec fn spec_projected_comp(m: Mat4Fixed, sx: i64, sy: i64, comp: int) -> int {
    if comp == 0 {
        spec_transform_comp(m.c0.x, m.c1.x, m.c2.x, m.c3.x, sx, sy, 0, FIXED_ONE)
    } else if comp == 1 {
        spec_transform_comp(m.c0.y, m.c1.y, m.c2.y, m.c3.y, sx, sy, 0, FIXED_ONE)
    } else if comp == 2 {
        spec_transform_comp(m.c0.z, m.c1.z, m.c2.z, m.c3.z, sx, sy, 0, FIXED_ONE)
    } else {
        spec_transform_comp(m.c0.w, m.c1.w, m.c2.w, m.c3.w, sx, sy, 0, FIXED_ONE)
    }
}

/// Component `comp` of the ray direction for a screen coordinate: the
/// projected point transformed by the centered inverse view.
pub open spec fn spec_direction_comp(cam: InverseCamera, sx: i64, sy: i64, comp: int) -> int {
    let px = spec_projected_comp(cam.inverse_projection, sx, sy, 0) as i64;
    let py = spec_projected_comp(cam.inverse_projection, sx, sy, 1) as i64;
    let pz = spec_projected_comp(cam.inverse_projection, sx, sy, 2) as i64;
    let pw = spec_projected_comp(cam.inverse_projection, sx, sy, 3) as i64;
    let v = cam.inverse_centered_view;
    if comp == 0 {
        spec_transform_comp(v.c0.x, v.c1.x, v.c2.x, v.c3.x, px, py, pz, pw)
    } else if comp == 1 {
        spec_transform_comp(v.c0.y, v.c1.y, v.c2.y, v.c3.y, px, py, pz, pw)
    } else {
        spec_transform_comp(v.c0.z, v.c1.z, v.c2.z, v.c3.z, px, py, pz, pw)
    }
}

} // verus!

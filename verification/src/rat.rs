//! Exact rational ray parameters.
//!
//! A point on a ray is identified by the parameter `t` with `point = origin +
//! t * direction`.  The traversal only ever compares such parameters; it
//! never needs their magnitudes.  Each parameter is therefore kept as an
//! exact fraction `num / den` with a positive denominator, and comparisons
//! cross-multiply in 128-bit arithmetic, so every decision is exact and
//! deterministic.

use vstd::prelude::*;

verus! {

/// Largest numerator magnitude a well-formed fraction may carry.
pub const FRAC_NUM_LIMIT: i64 = 0x4_0000_0000_0000;

/// Largest denominator a well-formed fraction may carry.
pub const FRAC_DEN_LIMIT: i64 = 0x100_0000_0000;

/// An exact fraction `num / den`; well-formed values keep `den` positive.
#[derive(Clone, Copy, PartialEq, Eq, Structural, Debug)]
pub struct Frac {
    pub num: i64,
    pub den: i64,
}

impl Frac {
    /// Bounds under which comparisons cannot overflow.
    pub open spec fn wf(self) -> bool {
        &&& 1 <= self.den <= FRAC_DEN_LIMIT
        &&& -FRAC_NUM_LIMIT <= self.num <= FRAC_NUM_LIMIT
    }

    /// The parameter `t = 0`: the ray origin.
    pub fn zero() -> (r: Frac)
        ensures
            r.num == 0,
            r.den == 1,
            r.wf(),
    {
        Frac { num: 0, den: 1 }
    }

    /// The parameter `t = 1`: the ray end point.
    pub fn one() -> (r: Frac)
        ensures
            r.num == 1,
            r.den == 1,
            r.wf(),
    {
        Frac { num: 1, den: 1 }
    }
}

/// `a <= b` as rationals with positive denominators.
pub open spec fn frac_le_spec(a: Frac, b: Frac) -> bool {
    a.num * b.den <= b.num * a.den
}

/// `a < b` as rationals with positive denominators.
pub open spec fn frac_lt_spec(a: Frac, b: Frac) -> bool {
    a.num * b.den < b.num * a.den
}

/// The product of two values within the given magnitudes stays within the
/// product of the magnitudes.
proof fn lemma_mul_bound(x: int, y: int, ax: int, ay: int)
    by (nonlinear_arith)
    requires
        -ax <= x <= ax,
        -ay <= y <= ay,
        0 <= ax,
        0 <= ay,
    ensures
        -(ax * ay) <= x * y <= ax * ay,
{
}

/// Exact comparison `a <= b` by cross-multiplication.
pub fn frac_le(a: Frac, b: Frac) -> (r: bool)
    requires
        a.wf(),
        b.wf(),
    ensures
        r == frac_le_spec(a, b),
{
    proof {
        lemma_mul_bound(a.num as int, b.den as int, FRAC_NUM_LIMIT as int, FRAC_DEN_LIMIT as int);
        lemma_mul_bound(b.num as int, a.den as int, FRAC_NUM_LIMIT as int, FRAC_DEN_LIMIT as int);
    }
    (a.num as i128) * (b.den as i128) <= (b.num as i128) * (a.den as i128)
}

/// Exact comparison `a < b` by cross-multiplication.
pub fn frac_lt(a: Frac, b: Frac) -> (r: bool)
    requires
        a.wf(),
        b.wf(),
    ensures
        r == frac_lt_spec(a, b),
{
    proof {
        lemma_mul_bound(a.num as int, b.den as int, FRAC_NUM_LIMIT as int, FRAC_DEN_LIMIT as int);
        lemma_mul_bound(b.num as int, a.den as int, FRAC_NUM_LIMIT as int, FRAC_DEN_LIMIT as int);
    }
    (a.num as i128) * (b.den as i128) < (b.num as i128) * (a.den as i128)
}

/// The smaller of two parameters, keeping the first on a tie.
pub open spec fn frac_min_spec(a: Frac, b: Frac) -> Frac {
    if frac_le_spec(a, b) {
        a
    } else {
        b
    }
}

/// The larger of two parameters, keeping the first on a tie.
pub open spec fn frac_max_spec(a: Frac, b: Frac) -> Frac {
    if frac_le_spec(b, a) {
        a
    } else {
        b
    }
}

/// The smaller of two parameters; on a tie the first is kept.
pub fn frac_min(a: Frac, b: Frac) -> (r: Frac)
    requires
        a.wf(),
        b.wf(),
    ensures
        r == frac_min_spec(a, b),
        r.wf(),
{
    if frac_le(a, b) {
        a
    } else {
        b
    }
}

/// The larger of two parameters; on a tie the first is kept.
pub fn frac_max(a: Frac, b: Frac) -> (r: Frac)
    requires
        a.wf(),
        b.wf(),
    ensures
        r == frac_max_spec(a, b),
        r.wf(),
{
    if frac_le(b, a) {
        a
    } else {
        b
    }
}

} // verus!

//! Iterative sparse-voxel-octree ray traversal.
//!
//! The algorithm walks a ray through the octree to the first intersected
//! leaf voxel.  Internally the root cube is remapped to span `[1, 2]` on
//! every axis and every ray is mirrored so that it travels in the negative
//! direction on all three axes; the real octant of a child is recovered by
//! XOR with the octant mask.  Positions on the `[1, 2]` cube are kept as
//! 24-bit grid integers (`GRID_ONE` is the cube's low corner, one grid step
//! is `2^-23` of the cube), which is exactly the mantissa representation of
//! a single-precision float in `[1, 2)`: the coarsest level at which two
//! positions differ is the highest set bit of their XOR, which makes the
//! constant-time POP of the traversal an integer highest-bit computation.
//!
//! Ray parameters are exact fractions (`crate::rat`), so every descend,
//! advance and pop decision is exact.  The walk keeps an explicit stack
//! indexed by scale, bounded by the 23 representable subdivision levels.
//!
//! The whole walk is pinned by an operational specification: `trace_octree`
//! returns exactly `spec_trace_octree(ray, octree)`, the run of the ghost
//! step relation `spec_step` from the initial state.  In particular the
//! traversal is a pure, deterministic function of the ray and the store;
//! it cannot fault, and the only outcomes are a hit on a valid leaf octant
//! of a stored node, or a miss.

use crate::node::{node_leaf, node_valid, node_valid_mask, OctreeNode};
use crate::octree::{child_slot, spec_child_slot, Octree};
use crate::rat::{
    frac_le, frac_le_spec, frac_lt, frac_lt_spec, frac_max, frac_max_spec, frac_min,
    frac_min_spec, Frac,
};
use crate::ray::{Ray, COORD_LIMIT, FIXED_ONE};
use vstd::prelude::*;

verus! {

/// Number of subdivision levels the grid can represent: the mantissa-bit
/// width of a single-precision float.
pub const MAX_SCALE: u32 = 23;

/// Grid coordinate of the cube's low corner (internal coordinate `1.0`).
pub const GRID_ONE: u32 = 0x80_0000;

/// Grid coordinate of the cube's high corner (internal coordinate `2.0`).
pub const GRID_TWO: u32 = 0x100_0000;

/// Grid coordinate of the cube's midplane (internal coordinate `1.5`).
pub const GRID_MID: u32 = 0xC0_0000;

/// Iteration budget of the walk, and part of its specified behaviour:
/// `spec_trace_octree` runs at most this many steps of the step relation
/// and misses once the budget is spent.  The budget is far above the
/// number of cells a segment can cross on any store built level by level,
/// so it also bounds the walk on a corrupt store whose nodes form cycles;
/// a step bound proportional to `MAX_SCALE` alone is not proved here.
pub const TRAVERSAL_FUEL: u64 = 0x4000_0000;

/// Largest magnitude of a mirrored-axis intercept.
pub const AXIS_N_LIMIT: i64 = COORD_LIMIT + 3 * FIXED_ONE;

/// One mirrored axis of a ray: the parameter at which the ray crosses the
/// plane with grid coordinate `m` is the exact fraction `(n - 2 * m) / d`,
/// and the mirrored ray always travels toward smaller grid coordinates.
#[derive(Clone, Copy, PartialEq, Eq, Structural, Debug)]
pub struct Axis {
    /// Intercept, in half-grid units.
    pub n: i64,
    /// Direction magnitude (positive), in half-grid units.
    pub d: i64,
}

impl Axis {
    /// Bounds under which every crossing parameter is a well-formed
    /// fraction.
    pub open spec fn wf(self) -> bool {
        &&& 1 <= self.d <= COORD_LIMIT
        &&& -AXIS_N_LIMIT <= self.n <= AXIS_N_LIMIT
    }
}

/// The direction component with any zero replaced by the smallest positive
/// step, so that no crossing parameter ever divides by zero.
pub open spec fn spec_clamped(d: i64) -> i64 {
    if d == 0 {
        1
    } else {
        d
    }
}

/// Whether the mirrored axis for origin `o` and direction `d` is flipped:
/// the clamped direction points toward positive coordinates.
pub open spec fn spec_axis_positive(d: i64) -> bool {
    spec_clamped(d) > 0
}

/// The mirrored axis for origin `o` and direction `d`: a flipped axis
/// reflects the intercept so the mirrored ray travels negatively.
pub open spec fn spec_axis(o: i64, d: i64) -> Axis {
    if spec_axis_positive(d) {
        Axis { n: (3 * FIXED_ONE - o) as i64, d: spec_clamped(d) }
    } else {
        Axis { n: (o + 3 * FIXED_ONE) as i64, d: (-spec_clamped(d)) as i64 }
    }
}

/// The octant mask of a ray: one bit per axis whose clamped direction is
/// positive.
pub open spec fn spec_mask(ray: Ray) -> u32 {
    (if spec_axis_positive(ray.direction.x) {
        1u32
    } else {
        0u32
    }) | ((if spec_axis_positive(ray.direction.y) {
        1u32
    } else {
        0u32
    }) << 1u32) | ((if spec_axis_positive(ray.direction.z) {
        1u32
    } else {
        0u32
    }) << 2u32)
}

/// The crossing parameter of the mirrored axis plane with grid coordinate
/// `m`.
pub open spec fn corner_frac(axis: Axis, m: u32) -> Frac {
    Frac { num: (axis.n - 2 * m) as i64, den: axis.d }
}

/// Index of the highest set bit of `v`, for `v >= 1`.
pub open spec fn spec_highest(v: u32) -> u32 {
    choose|r: u32| r <= 31 && v >> r == 1
}

/// Outcome of a traversal: either the first intersected leaf voxel, named
/// by the store index of its parent node and its real octant, or a miss.
#[derive(Clone, Copy, PartialEq, Eq, Structural, Debug)]
pub enum TraceResult {
    /// The ray hit the leaf in octant `octant` of the node at `parent`.
    Hit { parent: usize, octant: u32 },
    /// The ray never enters an occupied voxel of the octree volume.
    Miss,
}

/// One saved level of the traversal: the parent node index and the far
/// bound of the ray span at the scale it was pushed.
#[derive(Clone, Copy, PartialEq, Eq, Structural, Debug)]
pub struct TraversalFrame {
    pub parent: usize,
    pub t_max: Frac,
}

/// The full state of a walk between two steps, as the specification sees
/// it.
pub struct TraceState {
    /// Active span of the ray: near bound.
    pub t_min: Frac,
    /// Active span of the ray: far bound.
    pub t_max: Frac,
    /// Store index of the current parent node.
    pub parent: int,
    /// Mirrored octant of the current child within its parent.
    pub child: u32,
    /// Current level; child cells span `2^scale` grid units.
    pub scale: u32,
    /// Low corner of the current child cell, per axis, in grid units.
    pub mx: u32,
    pub my: u32,
    pub mz: u32,
    /// Whether `node` caches the parent's descriptor.
    pub cached: bool,
    /// The cached descriptor.
    pub node: u32,
    /// One saved frame per scale.
    pub stack: Seq<TraversalFrame>,
    /// Whether the walk has ended.
    pub done: bool,
    /// The outcome so far; `Miss` until a hit ends the walk.
    pub result: TraceResult,
}

/// Everything a state preserves from step to step: the invariant of the
/// walk.
pub open spec fn st_wf(o: Octree, st: TraceState) -> bool {
    &&& st.t_min.wf()
    &&& st.t_max.wf()
    &&& 0 <= st.parent < o.nodes@.len()
    &&& st.child < 8
    &&& st.scale <= 22
    &&& (!st.done ==> GRID_ONE <= st.mx && st.mx + (1u32 << st.scale) <= GRID_TWO && st.mx == (
    st.mx >> st.scale) << st.scale)
    &&& (!st.done ==> GRID_ONE <= st.my && st.my + (1u32 << st.scale) <= GRID_TWO && st.my == (
    st.my >> st.scale) << st.scale)
    &&& (!st.done ==> GRID_ONE <= st.mz && st.mz + (1u32 << st.scale) <= GRID_TWO && st.mz == (
    st.mz >> st.scale) << st.scale)
    &&& (!st.done ==> (st.mx >> st.scale) & 1 == st.child & 1)
    &&& (!st.done ==> (st.my >> st.scale) & 1 == (st.child >> 1u32) & 1)
    &&& (!st.done ==> (st.mz >> st.scale) & 1 == (st.child >> 2u32) & 1)
    &&& st.stack.len() == MAX_SCALE
    &&& forall|k: int|
        0 <= k < st.stack.len() ==> (#[trigger] st.stack[k]).parent < o.nodes@.len()
            && st.stack[k].t_max.wf() && (o.root_empty() ==> st.stack[k].parent == 0)
    &&& (st.cached ==> st.node == o.nodes@[st.parent].0)
    &&& (o.root_empty() ==> st.parent == 0)
    &&& (!st.done ==> st.result is Miss)
    &&& (st.result matches TraceResult::Hit { parent, octant } ==> parent < o.nodes@.len()
        && octant < 8 && node_valid(o.nodes@[parent as int].0, octant) && node_leaf(
        o.nodes@[parent as int].0,
        octant,
    ))
    &&& (o.root_empty() ==> st.result is Miss)
}

/// The ADVANCE/POP half of one step: move to the next sibling along every
/// axis whose corner crossing is the earliest exit; a step that wraps past
/// the parent's boundary pops to the coarsest level whose cell changed, or
/// ends the walk if that level leaves the cube.
pub open spec fn spec_advance(
    o: Octree,
    st: TraceState,
    nb: u32,
    cx: Frac,
    cy: Frac,
    cz: Frac,
    tc: Frac,
) -> TraceState {
    let stp = 1u32 << st.scale;
    let sx: u32 = if frac_le_spec(cx, tc) {
        1u32
    } else {
        0u32
    };
    let sy: u32 = if frac_le_spec(cy, tc) {
        1u32
    } else {
        0u32
    };
    let sz: u32 = if frac_le_spec(cz, tc) {
        1u32
    } else {
        0u32
    };
    let stm = sx | (sy << 1u32) | (sz << 2u32);
    let mx2: u32 = if sx == 1 {
        (st.mx - stp) as u32
    } else {
        st.mx
    };
    let my2: u32 = if sy == 1 {
        (st.my - stp) as u32
    } else {
        st.my
    };
    let mz2: u32 = if sz == 1 {
        (st.mz - stp) as u32
    } else {
        st.mz
    };
    let ch2 = st.child ^ stm;
    if ch2 & stm != 0 {
        let diff = (st.mx ^ mx2) | (st.my ^ my2) | (st.mz ^ mz2);
        let s2 = spec_highest(diff);
        if s2 >= MAX_SCALE {
            TraceState {
                t_min: tc,
                t_max: st.t_max,
                parent: st.parent,
                child: ch2,
                scale: st.scale,
                mx: mx2,
                my: my2,
                mz: mz2,
                cached: true,
                node: nb,
                stack: st.stack,
                done: true,
                result: TraceResult::Miss,
            }
        } else {
            TraceState {
                t_min: tc,
                t_max: st.stack[s2 as int].t_max,
                parent: st.stack[s2 as int].parent as int,
                child: ((mx2 >> s2) & 1) | (((my2 >> s2) & 1) << 1u32) | (((mz2 >> s2) & 1)
                    << 2u32),
                scale: s2,
                mx: (mx2 >> s2) << s2,
                my: (my2 >> s2) << s2,
                mz: (mz2 >> s2) << s2,
                cached: false,
                node: nb,
                stack: st.stack,
                done: false,
                result: st.result,
            }
        }
    } else {
        TraceState {
            t_min: tc,
            t_max: st.t_max,
            parent: st.parent,
            child: ch2,
            scale: st.scale,
            mx: mx2,
            my: my2,
            mz: mz2,
            cached: true,
            node: nb,
            stack: st.stack,
            done: false,
            result: st.result,
        }
    }
}

/// One step of the walk: fetch the node descriptor unless cached, end with
/// a hit on a valid leaf octant whose span is alive, descend into a valid
/// internal octant, and otherwise advance (possibly popping).  A valid
/// non-leaf child at the finest representable level is clipped and stepped
/// past like an empty octant.
pub open spec fn spec_step(
    o: Octree,
    ax: Axis,
    ay: Axis,
    az: Axis,
    mask: u32,
    st: TraceState,
) -> TraceState {
    let nb = if st.cached {
        st.node
    } else {
        o.nodes@[st.parent].0
    };
    let cx = corner_frac(ax, st.mx);
    let cy = corner_frac(ay, st.my);
    let cz = corner_frac(az, st.mz);
    let tc = frac_min_spec(frac_min_spec(cx, cy), cz);
    let ro = st.child ^ mask;
    let tv = frac_min_spec(st.t_max, tc);
    if node_valid(nb, ro) && frac_le_spec(st.t_min, st.t_max) && frac_le_spec(st.t_min, tv) {
        if node_leaf(nb, ro) {
            TraceState {
                t_min: st.t_min,
                t_max: st.t_max,
                parent: st.parent,
                child: st.child,
                scale: st.scale,
                mx: st.mx,
                my: st.my,
                mz: st.mz,
                cached: true,
                node: nb,
                stack: st.stack,
                done: true,
                result: TraceResult::Hit { parent: st.parent as usize, octant: ro },
            }
        } else if st.scale >= 1 {
            let half = 1u32 << ((st.scale - 1) as u32);
            let dx: u32 = if frac_lt_spec(st.t_min, corner_frac(ax, (st.mx + half) as u32)) {
                1u32
            } else {
                0u32
            };
            let dy: u32 = if frac_lt_spec(st.t_min, corner_frac(ay, (st.my + half) as u32)) {
                1u32
            } else {
                0u32
            };
            let dz: u32 = if frac_lt_spec(st.t_min, corner_frac(az, (st.mz + half) as u32)) {
                1u32
            } else {
                0u32
            };
            TraceState {
                t_min: st.t_min,
                t_max: tv,
                parent: spec_child_slot(nb, ro),
                child: dx | (dy << 1u32) | (dz << 2u32),
                scale: (st.scale - 1) as u32,
                mx: if dx == 1 {
                    (st.mx + half) as u32
                } else {
                    st.mx
                },
                my: if dy == 1 {
                    (st.my + half) as u32
                } else {
                    st.my
                },
                mz: if dz == 1 {
                    (st.mz + half) as u32
                } else {
                    st.mz
                },
                cached: false,
                node: nb,
                stack: st.stack.update(
                    st.scale as int,
                    TraversalFrame { parent: st.parent as usize, t_max: st.t_max },
                ),
                done: false,
                result: st.result,
            }
        } else {
            spec_advance(o, st, nb, cx, cy, cz, tc)
        }
    } else {
        spec_advance(o, st, nb, cx, cy, cz, tc)
    }
}

/// The run of the walk: step until done, or miss when the budget is
/// spent.
pub open spec fn spec_run(
    o: Octree,
    ax: Axis,
    ay: Axis,
    az: Axis,
    mask: u32,
    st: TraceState,
    fuel: nat,
) -> TraceResult
    decreases fuel,
{
    if st.done {
        st.result
    } else if fuel == 0 {
        TraceResult::Miss
    } else {
        spec_run(o, ax, ay, az, mask, spec_step(o, ax, ay, az, mask, st), (fuel - 1) as nat)
    }
}

/// The initial state of a walk: the active span of the segment against the
/// root cube, clamped to `[0, 1]`, and the child of the root the mirrored
/// ray enters first.
pub open spec fn spec_init(ray: Ray) -> TraceState {
    let ax = spec_axis(ray.origin.x, ray.direction.x);
    let ay = spec_axis(ray.origin.y, ray.direction.y);
    let az = spec_axis(ray.origin.z, ray.direction.z);
    let t_min0 = frac_max_spec(
        frac_max_spec(corner_frac(ax, GRID_TWO), corner_frac(ay, GRID_TWO)),
        frac_max_spec(corner_frac(az, GRID_TWO), Frac { num: 0, den: 1 }),
    );
    let t_max0 = frac_min_spec(
        frac_min_spec(corner_frac(ax, GRID_ONE), corner_frac(ay, GRID_ONE)),
        frac_min_spec(corner_frac(az, GRID_ONE), Frac { num: 1, den: 1 }),
    );
    let cx: u32 = if frac_lt_spec(t_min0, corner_frac(ax, GRID_MID)) {
        1u32
    } else {
        0u32
    };
    let cy: u32 = if frac_lt_spec(t_min0, corner_frac(ay, GRID_MID)) {
        1u32
    } else {
        0u32
    };
    let cz: u32 = if frac_lt_spec(t_min0, corner_frac(az, GRID_MID)) {
        1u32
    } else {
        0u32
    };
    TraceState {
        t_min: t_min0,
        t_max: t_max0,
        parent: 0,
        child: cx | (cy << 1u32) | (cz << 2u32),
        scale: (MAX_SCALE - 1) as u32,
        mx: if cx == 1 {
            GRID_MID
        } else {
            GRID_ONE
        },
        my: if cy == 1 {
            GRID_MID
        } else {
            GRID_ONE
        },
        mz: if cz == 1 {
            GRID_MID
        } else {
            GRID_ONE
        },
        cached: false,
        node: 0,
        stack: Seq::new(MAX_SCALE as nat, |i: int| TraversalFrame { parent: 0, t_max: t_max0 }),
        done: false,
        result: TraceResult::Miss,
    }
}

/// What a traversal of `ray` through `o` returns: the run of the step
/// relation from the initial state, under the iteration budget.
pub open spec fn spec_trace_octree(ray: Ray, o: Octree) -> TraceResult {
    spec_run(
        o,
        spec_axis(ray.origin.x, ray.direction.x),
        spec_axis(ray.origin.y, ray.direction.y),
        spec_axis(ray.origin.z, ray.direction.z),
        spec_mask(ray),
        spec_init(ray),
        TRAVERSAL_FUEL as nat,
    )
}

/// Mirror one axis of the ray.  A positive (clamped) direction component
/// flips the corresponding octant-mask bit and reflects the intercept, so
/// that the mirrored ray travels in the negative direction.
pub fn axis_setup(o: i64, d: i64) -> (r: (Axis, bool))
    requires
        -COORD_LIMIT <= o <= COORD_LIMIT,
        -COORD_LIMIT <= d <= COORD_LIMIT,
    ensures
        r.0 == spec_axis(o, d),
        r.1 == spec_axis_positive(d),
        r.0.wf(),
{
    let dc: i64 = if d == 0 {
        1
    } else {
        d
    };
    if dc > 0 {
        (Axis { n: 3 * FIXED_ONE - o, d: dc }, true)
    } else {
        (Axis { n: o + 3 * FIXED_ONE, d: -dc }, false)
    }
}

/// The parameter at which the mirrored ray crosses the axis plane with grid
/// coordinate `m`.
pub fn corner_t(axis: Axis, m: u32) -> (r: Frac)
    requires
        axis.wf(),
        m <= GRID_TWO,
    ensures
        r == corner_frac(axis, m),
        r.wf(),
{
    Frac { num: axis.n - 2 * (m as i64), den: axis.d }
}

/// Three octant bits packed from single-bit values.
proof fn lemma_child_pack(bx: u32, by: u32, bz: u32)
    by (bit_vector)
    requires
        bx <= 1,
        by <= 1,
        bz <= 1,
    ensures
        (bx | (by << 1u32) | (bz << 2u32)) < 8,
        (bx | (by << 1u32) | (bz << 2u32)) & 1 == bx,
        ((bx | (by << 1u32) | (bz << 2u32)) >> 1u32) & 1 == by,
        ((bx | (by << 1u32) | (bz << 2u32)) >> 2u32) & 1 == bz,
{
}

/// XOR of two octant indices, bit by bit: a clear mask bit keeps the
/// octant bit, a set mask bit flips it.
proof fn lemma_xor_bits(c: u32, st: u32)
    by (bit_vector)
    requires
        c < 8,
        st < 8,
    ensures
        (c ^ st) < 8,
        st & 1 == 0 ==> (c ^ st) & 1 == c & 1,
        st & 1 == 1 ==> (c ^ st) & 1 == (c & 1) ^ 1,
        (st >> 1u32) & 1 == 0 ==> ((c ^ st) >> 1u32) & 1 == (c >> 1u32) & 1,
        (st >> 1u32) & 1 == 1 ==> ((c ^ st) >> 1u32) & 1 == ((c >> 1u32) & 1) ^ 1,
        (st >> 2u32) & 1 == 0 ==> ((c ^ st) >> 2u32) & 1 == (c >> 2u32) & 1,
        (st >> 2u32) & 1 == 1 ==> ((c ^ st) >> 2u32) & 1 == ((c >> 2u32) & 1) ^ 1,
{
}

/// A step that does not wrap only left octants whose bit was still set.
proof fn lemma_no_wrap(cold: u32, st: u32)
    by (bit_vector)
    requires
        cold < 8,
        st < 8,
        (cold ^ st) & st == 0,
    ensures
        st & 1 == 1 ==> cold & 1 == 1,
        (st >> 1u32) & 1 == 1 ==> (cold >> 1u32) & 1 == 1,
        (st >> 2u32) & 1 == 1 ==> (cold >> 2u32) & 1 == 1,
{
}

/// An empty valid mask has no valid octant.
proof fn lemma_empty_mask(vm: u32, i: u32)
    by (bit_vector)
    requires
        vm == 0,
    ensures
        vm & (1u32 << i) == 0,
{
}

/// Stepping one sibling toward the cube's low corner: the grid position
/// stays aligned, its octant parity flips, and it stays on the grid as long
/// as the step does not leave the parent (parity bit set before the step).
proof fn lemma_advance(m: u32, m2: u32, s: u32)
    by (bit_vector)
    requires
        s <= 22,
        0x80_0000 <= m,
        m + (1u32 << s) <= 0x100_0000,
        m == (m >> s) << s,
        m2 + (1u32 << s) == m,
    ensures
        m2 == (m2 >> s) << s,
        (m2 >> s) & 1 == ((m >> s) & 1) ^ 1,
        m2 + (1u32 << s) <= 0x100_0000,
        (m >> s) & 1 == 1 ==> 0x80_0000 <= m2,
        m ^ m2 != 0,
{
}

/// Entering a child cell: with `h` one level below `s`, both the kept
/// position and the bumped position `mb` are aligned at `h`, carry the
/// intended parity, and stay inside the cube.
proof fn lemma_descend(m: u32, mb: u32, s: u32, h: u32)
    by (bit_vector)
    requires
        1 <= s <= 22,
        h + 1 == s,
        0x80_0000 <= m,
        m + (1u32 << s) <= 0x100_0000,
        m == (m >> s) << s,
        mb == m + (1u32 << h),
    ensures
        m == (m >> h) << h,
        (m >> h) & 1 == 0,
        m + (1u32 << h) <= 0x100_0000,
        mb == (mb >> h) << h,
        (mb >> h) & 1 == 1,
        mb + (1u32 << h) <= 0x100_0000,
        0x80_0000 <= mb,
{
}

/// Realigning a position after a pop to scale `s2`: if every bit at which
/// the position moved is at or below the recovered scale, the coarse bits —
/// including the cube bit — survive, so the realigned position is back on
/// the grid of `s2`, inside the cube.
proof fn lemma_pop_axis(mh: u32, ma: u32, diffall: u32, s2: u32)
    by (bit_vector)
    requires
        s2 <= 22,
        0x80_0000 <= mh,
        mh < 0x100_0000,
        (mh ^ ma) | diffall == diffall,
        diffall >> s2 == 1,
    ensures
        0x80_0000 <= (ma >> s2) << s2,
        ((ma >> s2) << s2) + (1u32 << s2) <= 0x100_0000,
        ((ma >> s2) << s2) == (((ma >> s2) << s2) >> s2) << s2,
        (((ma >> s2) << s2) >> s2) & 1 == (ma >> s2) & 1,
{
}

/// A shift by any traversal scale is a small power of two.
proof fn lemma_shl_bound(s: u32)
    by (bit_vector)
    requires
        s <= 22,
    ensures
        1u32 <= (1u32 << s) <= 0x40_0000,
{
}

/// The highest set bit is unique.
proof fn lemma_highest_unique(v: u32, a: u32, b: u32)
    by (bit_vector)
    requires
        v >> a == 1,
        v >> b == 1,
    ensures
        a == b,
{
}

/// Index of the highest set bit of `v`.
pub fn highest_bit(v: u32) -> (r: u32)
    requires
        v >= 1,
    ensures
        r <= 31,
        v >> r == 1,
        r == spec_highest(v),
{
    let mut r: u32 = 0;
    let mut w: u32 = v;
    proof {
        assert(v >> 0u32 == v) by (bit_vector);
    }
    while w > 1
        invariant
            v >= 1,
            r <= 31,
            w == v >> r,
            w >= 1,
        decreases w,
    {
        proof {
            assert((v >> r) > 1 ==> r < 31 && (v >> (r + 1)) == (v >> r) >> 1u32 && (v >> r) >> 1u32
                >= 1 && (v >> r) >> 1u32 < (v >> r)) by (bit_vector);
        }
        w = w >> 1u32;
        r = r + 1;
    }
    proof {
        assert(exists|q: u32| q <= 31 && v >> q == 1);
        let q = choose|q: u32| q <= 31 && v >> q == 1;
        lemma_highest_unique(v, q, r);
    }
    r
}

/// The running state of a walk, as executed.
struct Traversal {
    t_min: Frac,
    t_max: Frac,
    parent_idx: usize,
    child_idx: u32,
    scale: u32,
    mx: u32,
    my: u32,
    mz: u32,
    cached: bool,
    node_bits: u32,
    stack: Vec<TraversalFrame>,
    done: bool,
    result: TraceResult,
}

impl Traversal {
    /// The state the specification reasons about.
    spec fn st(self) -> TraceState {
        TraceState {
            t_min: self.t_min,
            t_max: self.t_max,
            parent: self.parent_idx as int,
            child: self.child_idx,
            scale: self.scale,
            mx: self.mx,
            my: self.my,
            mz: self.mz,
            cached: self.cached,
            node: self.node_bits,
            stack: self.stack@,
            done: self.done,
            result: self.result,
        }
    }

    /// Execute one step of the walk, exactly as `spec_step` describes it.
    #[verifier::rlimit(100)]
    fn step(&mut self, octree: &Octree, ax: Axis, ay: Axis, az: Axis, octant_mask: u32)
        requires
            octree.wf(),
            ax.wf(),
            ay.wf(),
            az.wf(),
            octant_mask < 8,
            st_wf(*octree, old(self).st()),
            !old(self).st().done,
        ensures
            final(self).st() == spec_step(*octree, ax, ay, az, octant_mask, old(self).st()),
            st_wf(*octree, final(self).st()),
    {
        // Fetch the node descriptor unless it is still cached.
        if !self.cached {
            self.node_bits = octree.node(self.parent_idx).0;
            self.cached = true;
        }

        // Parameter at which the ray leaves the current child cell.
        let tx_corner = corner_t(ax, self.mx);
        let ty_corner = corner_t(ay, self.my);
        let tz_corner = corner_t(az, self.mz);
        let tc_max = frac_min(frac_min(tx_corner, ty_corner), tz_corner);

        // The real octant in the unmirrored store.
        let real_octant: u32 = self.child_idx ^ octant_mask;
        proof {
            lemma_xor_bits(self.child_idx, octant_mask);
        }
        let node = OctreeNode(self.node_bits);
        let tv_max = frac_min(self.t_max, tc_max);
        let mut advance = true;

        if node.valid(real_octant as usize) && frac_le(self.t_min, self.t_max) {
            proof {
                if octree.root_empty() {
                    lemma_empty_mask(node_valid_mask(self.node_bits), real_octant);
                }
            }
            if frac_le(self.t_min, tv_max) {
                if node.leaf(real_octant as usize) {
                    self.result = TraceResult::Hit {
                        parent: self.parent_idx,
                        octant: real_octant,
                    };
                    self.done = true;
                    advance = false;
                } else if self.scale >= 1 {
                    // DESCEND: save this level, move to the child node,
                    // and select the sub-child the ray enters first.
                    self.stack[self.scale as usize] = TraversalFrame {
                        parent: self.parent_idx,
                        t_max: self.t_max,
                    };
                    proof {
                        assert(node_valid(octree.nodes@[self.parent_idx as int].0, real_octant));
                        assert(Octree::node_ok(
                            octree.nodes@[self.parent_idx as int].0,
                            octree.nodes@.len() as int,
                        ));
                    }
                    let slot = child_slot(node, real_octant) as usize;
                    self.parent_idx = slot;

                    proof {
                        lemma_shl_bound((self.scale - 1) as u32);
                        lemma_descend(
                            self.mx,
                            (self.mx + (1u32 << ((self.scale - 1) as u32))) as u32,
                            self.scale,
                            (self.scale - 1) as u32,
                        );
                        lemma_descend(
                            self.my,
                            (self.my + (1u32 << ((self.scale - 1) as u32))) as u32,
                            self.scale,
                            (self.scale - 1) as u32,
                        );
                        lemma_descend(
                            self.mz,
                            (self.mz + (1u32 << ((self.scale - 1) as u32))) as u32,
                            self.scale,
                            (self.scale - 1) as u32,
                        );
                    }
                    let half: u32 = 1u32 << (self.scale - 1);
                    let dx: u32 = if frac_lt(self.t_min, corner_t(ax, self.mx + half)) {
                        1
                    } else {
                        0
                    };
                    let dy: u32 = if frac_lt(self.t_min, corner_t(ay, self.my + half)) {
                        1
                    } else {
                        0
                    };
                    let dz: u32 = if frac_lt(self.t_min, corner_t(az, self.mz + half)) {
                        1
                    } else {
                        0
                    };
                    self.child_idx = dx | (dy << 1u32) | (dz << 2u32);
                    if dx == 1 {
                        self.mx = self.mx + half;
                    }
                    if dy == 1 {
                        self.my = self.my + half;
                    }
                    if dz == 1 {
                        self.mz = self.mz + half;
                    }
                    self.scale = self.scale - 1;
                    self.t_max = tv_max;
                    self.cached = false;
                    proof {
                        lemma_child_pack(dx, dy, dz);
                    }
                    advance = false;
                }
                // A valid non-leaf child at the finest representable
                // level is deeper than the grid can express; it is
                // clipped and stepped past like an empty octant.
            }
        }
        if advance {
            // ADVANCE: step to the next sibling along every axis whose
            // corner crossing is the earliest exit.
            let step: u32 = 1u32 << self.scale;
            proof {
                lemma_shl_bound(self.scale);
            }
            let sx: u32 = if frac_le(tx_corner, tc_max) {
                1
            } else {
                0
            };
            let sy: u32 = if frac_le(ty_corner, tc_max) {
                1
            } else {
                0
            };
            let sz: u32 = if frac_le(tz_corner, tc_max) {
                1
            } else {
                0
            };
            let step_mask: u32 = sx | (sy << 1u32) | (sz << 2u32);
            proof {
                lemma_child_pack(sx, sy, sz);
            }
            let old_mx = self.mx;
            let old_my = self.my;
            let old_mz = self.mz;
            if sx == 1 {
                self.mx = self.mx - step;
            }
            if sy == 1 {
                self.my = self.my - step;
            }
            if sz == 1 {
                self.mz = self.mz - step;
            }
            proof {
                if sx == 1 {
                    lemma_advance(old_mx, self.mx, self.scale);
                }
                if sy == 1 {
                    lemma_advance(old_my, self.my, self.scale);
                }
                if sz == 1 {
                    lemma_advance(old_mz, self.mz, self.scale);
                }
            }
            self.t_min = tc_max;
            let old_child = self.child_idx;
            self.child_idx = self.child_idx ^ step_mask;
            proof {
                lemma_xor_bits(old_child, step_mask);
            }

            if self.child_idx & step_mask != 0 {
                // POP: a step wrapped past the parent's boundary.  The
                // highest bit at which any stepped position moved is the
                // coarsest level whose cell changed; restore that level
                // from the stack and realign the position to its grid.
                let dfx: u32 = old_mx ^ self.mx;
                let dfy: u32 = old_my ^ self.my;
                let dfz: u32 = old_mz ^ self.mz;
                let differing: u32 = dfx | dfy | dfz;
                proof {
                    let c = self.child_idx;
                    let st = step_mask;
                    assert(c & st != 0 ==> st != 0) by (bit_vector);
                    if sx == 0 && sy == 0 && sz == 0 {
                        assert(st == 0) by (bit_vector)
                            requires
                                st == 0u32 | (0u32 << 1u32) | (0u32 << 2u32),
                        ;
                    }
                    assert(dfx | differing == differing && dfy | differing == differing && dfz
                        | differing == differing && ((dfx != 0 || dfy != 0 || dfz != 0)
                        ==> differing != 0)) by (bit_vector)
                        requires
                            differing == dfx | dfy | dfz,
                    ;
                }
                let s2 = highest_bit(differing);
                if s2 >= MAX_SCALE {
                    // The wrap left the root cube: the ray has exited
                    // the octree volume.
                    self.result = TraceResult::Miss;
                    self.done = true;
                } else {
                    let shx = self.mx >> s2;
                    let shy = self.my >> s2;
                    let shz = self.mz >> s2;
                    proof {
                        lemma_pop_axis(old_mx, self.mx, differing, s2);
                        lemma_pop_axis(old_my, self.my, differing, s2);
                        lemma_pop_axis(old_mz, self.mz, differing, s2);
                        assert(shx & 1 <= 1 && shy & 1 <= 1 && shz & 1 <= 1) by (bit_vector);
                        lemma_child_pack(shx & 1, shy & 1, shz & 1);
                    }
                    self.mx = shx << s2;
                    self.my = shy << s2;
                    self.mz = shz << s2;
                    self.child_idx = (shx & 1) | ((shy & 1) << 1u32) | ((shz & 1) << 2u32);
                    self.scale = s2;
                    let frame = self.stack[s2 as usize];
                    self.parent_idx = frame.parent;
                    self.t_max = frame.t_max;
                    self.cached = false;
                }
            } else {
                proof {
                    lemma_no_wrap(old_child, step_mask);
                }
            }
        }
    }
}

/// Walk `ray` through `octree` and report the first intersected leaf
/// voxel.
///
/// The result is exactly `spec_trace_octree(ray, octree)`: the traversal
/// is a pure, deterministic function of the ray and the store, and runs at
/// most `TRAVERSAL_FUEL` steps of the step relation.  The ray is treated
/// as the segment with parameters in `[0, 1]`; a hit names a valid leaf
/// octant of a stored node, and an octree whose root has no children makes
/// every ray miss.
#[verifier::loop_isolation(false)]
pub fn trace_octree(ray: &Ray, octree: &Octree) -> (r: TraceResult)
    requires
        ray.wf(),
        octree.wf(),
    ensures
        r == spec_trace_octree(*ray, *octree),
        r matches TraceResult::Hit { parent, octant } ==> parent < octree.nodes@.len() && octant
            < 8 && node_valid(octree.nodes@[parent as int].0, octant) && node_leaf(
            octree.nodes@[parent as int].0,
            octant,
        ),
        octree.root_empty() ==> r is Miss,
{
    // Mirror the ray so it travels in the negative direction on every
    // axis; a direction component of zero is first replaced by the
    // smallest positive step, so every crossing parameter is finite.
    let (ax, px) = axis_setup(ray.origin.x, ray.direction.x);
    let (ay, py) = axis_setup(ray.origin.y, ray.direction.y);
    let (az, pz) = axis_setup(ray.origin.z, ray.direction.z);
    let bx: u32 = if px {
        1
    } else {
        0
    };
    let by: u32 = if py {
        1
    } else {
        0
    };
    let bz: u32 = if pz {
        1
    } else {
        0
    };
    let octant_mask: u32 = bx | (by << 1u32) | (bz << 2u32);
    proof {
        lemma_child_pack(bx, by, bz);
        assert(octant_mask == spec_mask(*ray));
    }

    // Active span of the segment against the root cube: entry at the high
    // corner of the mirrored cube, exit at the low corner, clamped to the
    // parameter interval [0, 1].
    let t_min: Frac = frac_max(
        frac_max(corner_t(ax, GRID_TWO), corner_t(ay, GRID_TWO)),
        frac_max(corner_t(az, GRID_TWO), Frac::zero()),
    );
    let t_max: Frac = frac_min(
        frac_min(corner_t(ax, GRID_ONE), corner_t(ay, GRID_ONE)),
        frac_min(corner_t(az, GRID_ONE), Frac::one()),
    );

    // Select the child of the root that the mirrored ray enters first, by
    // comparing the midplane crossings against the entry parameter.
    let cx: u32 = if frac_lt(t_min, corner_t(ax, GRID_MID)) {
        1
    } else {
        0
    };
    let cy: u32 = if frac_lt(t_min, corner_t(ay, GRID_MID)) {
        1
    } else {
        0
    };
    let cz: u32 = if frac_lt(t_min, corner_t(az, GRID_MID)) {
        1
    } else {
        0
    };
    proof {
        lemma_child_pack(cx, cy, cz);
        assert((0x80_0000u32 >> 22u32) & 1 == 0 && (0xC0_0000u32 >> 22u32) & 1 == 1 && 0x80_0000u32
            == (0x80_0000u32 >> 22u32) << 22u32 && 0xC0_0000u32 == (0xC0_0000u32 >> 22u32) << 22u32
            && 0x80_0000u32 + (1u32 << 22u32) <= 0x100_0000 && 0xC0_0000u32 + (1u32 << 22u32)
            <= 0x100_0000) by (bit_vector);
    }

    // One saved frame per scale; entries are overwritten on descent and
    // read back on pop.
    let mut stack: Vec<TraversalFrame> = Vec::new();
    while stack.len() < MAX_SCALE as usize
        invariant
            stack@.len() <= MAX_SCALE as usize,
            forall|k: int|
                0 <= k < stack@.len() ==> #[trigger] stack@[k] == (TraversalFrame {
                    parent: 0usize,
                    t_max,
                }),
        decreases MAX_SCALE as usize - stack.len(),
    {
        stack.push(TraversalFrame { parent: 0, t_max });
    }

    let mut walk = Traversal {
        t_min,
        t_max,
        parent_idx: 0,
        child_idx: cx | (cy << 1u32) | (cz << 2u32),
        scale: MAX_SCALE - 1,
        mx: if cx == 1 {
            GRID_MID
        } else {
            GRID_ONE
        },
        my: if cy == 1 {
            GRID_MID
        } else {
            GRID_ONE
        },
        mz: if cz == 1 {
            GRID_MID
        } else {
            GRID_ONE
        },
        cached: false,
        node_bits: 0,
        stack,
        done: false,
        result: TraceResult::Miss,
    };
    proof {
        assert(walk.st().stack =~= spec_init(*ray).stack);
        assert(walk.st() == spec_init(*ray));
    }

    let mut fuel: u64 = TRAVERSAL_FUEL;
    while !walk.done
        invariant
            st_wf(*octree, walk.st()),
            spec_run(*octree, ax, ay, az, octant_mask, walk.st(), fuel as nat) == spec_trace_octree(
                *ray,
                *octree,
            ),
        decreases fuel, (if walk.done {
            0int
        } else {
            1int
        }),
    {
        if fuel == 0 {
            walk.result = TraceResult::Miss;
            walk.done = true;
        } else {
            fuel = fuel - 1;
            walk.step(octree, ax, ay, az, octant_mask);
        }
    }
    walk.result
}

} // verus!

//! Depth-first reference traversal, used as a correctness oracle.
//!
//! This walk expands every valid child of every reachable node with a plain
//! segment-box test and keeps the closest leaf hit seen.  It is
//! straightforward but visits far more nodes than the mirrored traversal of
//! [`crate::traverse`]; the two must agree on hit, miss and entered octant,
//! which is what the test suite checks over large ray samples.  The
//! recursion is an explicit, array-backed stack of `(node index, cell
//! center, cell half-extent)` frames, so the walk is bounded and never
//! recurses.
//!
//! The contract guarantees soundness of a hit — the reported octant is a
//! valid leaf of a reachable cell whose box the segment meets — and owes a
//! hit whenever a terminal octant of the root itself is met.  That the
//! kept hit is the closest among all reachable leaf cells is not stated:
//! it would require the budgeted walk to visit every reachable cell, and
//! on a store whose nodes share children the reachable cells can outnumber
//! any fixed budget.

use crate::node::{lemma_empty_valid_mask, node_leaf, node_valid};
use crate::octree::{child_slot, spec_child_slot, Octree};
use crate::rat::{frac_le, frac_le_spec, frac_lt, frac_max, frac_max_spec, frac_min, frac_min_spec, Frac};
use crate::ray::{Fixed3, Ray, COORD_LIMIT, FIXED_ONE};
use crate::traverse::TraceResult;
use vstd::prelude::*;

verus! {

/// One pending cell of the depth-first walk.
#[derive(Clone, Copy, PartialEq, Eq, Structural, Debug)]
pub struct StackFrame {
    /// Store index of the node occupying the cell.
    pub index: usize,
    /// Center of the cell.
    pub center: Fixed3,
    /// Half-extent of the cell.
    pub half: i64,
}

/// An explicit stack of pending cells.
pub struct Stack {
    pub frames: Vec<StackFrame>,
}

impl Stack {
    /// An empty stack.
    pub fn new() -> (r: Stack)
        ensures
            r.frames@.len() == 0,
    {
        Stack { frames: Vec::new() }
    }

    /// Whether nothing is pending.
    pub fn empty(&self) -> (r: bool)
        ensures
            r == (self.frames@.len() == 0),
    {
        self.frames.len() == 0
    }

    /// Push one cell.
    pub fn push(&mut self, index: usize, center: Fixed3, half: i64)
        ensures
            final(self).frames@ == old(self).frames@.push(StackFrame { index, center, half }),
    {
        self.frames.push(StackFrame { index, center, half });
    }

    /// Pop the most recently pushed cell.
    pub fn pop(&mut self) -> (r: (usize, Fixed3, i64))
        requires
            old(self).frames@.len() > 0,
        ensures
            final(self).frames@ == old(self).frames@.drop_last(),
            r.0 == old(self).frames@.last().index,
            r.1 == old(self).frames@.last().center,
            r.2 == old(self).frames@.last().half,
    {
        let f = self.frames.pop().unwrap();
        (f.index, f.center, f.half)
    }
}

/// Entry parameter of the segment into one axis slab, as an exact fraction;
/// an axis the ray runs parallel to contributes the baseline `0`.
pub open spec fn axis_near(o: i64, d: i64, c: i64, h: i64) -> Frac {
    if d > 0 {
        Frac { num: (c - h - o) as i64, den: d }
    } else if d < 0 {
        Frac { num: (o - c - h) as i64, den: (-d) as i64 }
    } else {
        Frac { num: 0, den: 1 }
    }
}

/// Exit parameter of the segment out of one axis slab; an axis the ray runs
/// parallel to contributes the baseline `1`.
pub open spec fn axis_far(o: i64, d: i64, c: i64, h: i64) -> Frac {
    if d > 0 {
        Frac { num: (c + h - o) as i64, den: d }
    } else if d < 0 {
        Frac { num: (o - c + h) as i64, den: (-d) as i64 }
    } else {
        Frac { num: 1, den: 1 }
    }
}

/// An axis the ray runs parallel to must hold the origin inside the slab.
pub open spec fn axis_ok(o: i64, d: i64, c: i64, h: i64) -> bool {
    d != 0 || (c - h <= o <= c + h)
}

/// Entry parameter of the segment into the box, clamped below by `0`.
pub open spec fn spec_box_near(ray: Ray, c: Fixed3, h: i64) -> Frac {
    frac_max_spec(
        frac_max_spec(
            frac_max_spec(
                Frac { num: 0, den: 1 },
                axis_near(ray.origin.x, ray.direction.x, c.x, h),
            ),
            axis_near(ray.origin.y, ray.direction.y, c.y, h),
        ),
        axis_near(ray.origin.z, ray.direction.z, c.z, h),
    )
}

/// Exit parameter of the segment out of the box, clamped above by `1`.
pub open spec fn spec_box_far(ray: Ray, c: Fixed3, h: i64) -> Frac {
    frac_min_spec(
        frac_min_spec(
            frac_min_spec(Frac { num: 1, den: 1 }, axis_far(ray.origin.x, ray.direction.x, c.x, h)),
            axis_far(ray.origin.y, ray.direction.y, c.y, h),
        ),
        axis_far(ray.origin.z, ray.direction.z, c.z, h),
    )
}

/// Whether the segment with parameters in `[0, 1]` meets the box with
/// center `c` and half-extent `h`.
pub open spec fn spec_box_hit(ray: Ray, c: Fixed3, h: i64) -> bool {
    &&& axis_ok(ray.origin.x, ray.direction.x, c.x, h)
    &&& axis_ok(ray.origin.y, ray.direction.y, c.y, h)
    &&& axis_ok(ray.origin.z, ray.direction.z, c.z, h)
    &&& frac_le_spec(spec_box_near(ray, c, h), spec_box_far(ray, c, h))
}

/// Exact segment-box intersection: whether the ray segment meets the box,
/// and at which entry parameter.
pub fn intersect_box(ray: &Ray, center: Fixed3, half: i64) -> (r: (bool, Frac))
    requires
        ray.wf(),
        1 <= half <= FIXED_ONE,
        -FIXED_ONE <= center.x <= FIXED_ONE,
        -FIXED_ONE <= center.y <= FIXED_ONE,
        -FIXED_ONE <= center.z <= FIXED_ONE,
    ensures
        r.0 == spec_box_hit(*ray, center, half),
        r.1 == spec_box_near(*ray, center, half),
        r.1.wf(),
{
    let nx = slab_near(ray.origin.x, ray.direction.x, center.x, half);
    let ny = slab_near(ray.origin.y, ray.direction.y, center.y, half);
    let nz = slab_near(ray.origin.z, ray.direction.z, center.z, half);
    let fx = slab_far(ray.origin.x, ray.direction.x, center.x, half);
    let fy = slab_far(ray.origin.y, ray.direction.y, center.y, half);
    let fz = slab_far(ray.origin.z, ray.direction.z, center.z, half);
    let t_near = frac_max(frac_max(frac_max(Frac::zero(), nx), ny), nz);
    let t_far = frac_min(frac_min(frac_min(Frac::one(), fx), fy), fz);
    let ok_x = ray.direction.x != 0 || (center.x - half <= ray.origin.x && ray.origin.x <= center.x
        + half);
    let ok_y = ray.direction.y != 0 || (center.y - half <= ray.origin.y && ray.origin.y <= center.y
        + half);
    let ok_z = ray.direction.z != 0 || (center.z - half <= ray.origin.z && ray.origin.z <= center.z
        + half);
    let hit = ok_x && ok_y && ok_z && frac_le(t_near, t_far);
    (hit, t_near)
}

/// One slab's entry parameter.
fn slab_near(o: i64, d: i64, c: i64, h: i64) -> (r: Frac)
    requires
        -COORD_LIMIT <= o <= COORD_LIMIT,
        -COORD_LIMIT <= d <= COORD_LIMIT,
        -FIXED_ONE <= c <= FIXED_ONE,
        1 <= h <= FIXED_ONE,
    ensures
        r == axis_near(o, d, c, h),
        r.wf(),
{
    if d > 0 {
        Frac { num: c - h - o, den: d }
    } else if d < 0 {
        Frac { num: o - c - h, den: -d }
    } else {
        Frac { num: 0, den: 1 }
    }
}

/// One slab's exit parameter.
fn slab_far(o: i64, d: i64, c: i64, h: i64) -> (r: Frac)
    requires
        -COORD_LIMIT <= o <= COORD_LIMIT,
        -COORD_LIMIT <= d <= COORD_LIMIT,
        -FIXED_ONE <= c <= FIXED_ONE,
        1 <= h <= FIXED_ONE,
    ensures
        r == axis_far(o, d, c, h),
        r.wf(),
{
    if d > 0 {
        Frac { num: c + h - o, den: d }
    } else if d < 0 {
        Frac { num: o - c + h, den: -d }
    } else {
        Frac { num: 1, den: 1 }
    }
}

/// Center of the child cell in octant `i` of a cell with center `c` and
/// child half-extent `hh`.
pub open spec fn child_cell_center(c: Fixed3, hh: i64, i: u32) -> Fixed3 {
    Fixed3 {
        x: if i & 1 != 0 {
            (c.x + hh) as i64
        } else {
            (c.x - hh) as i64
        },
        y: if i & 2 != 0 {
            (c.y + hh) as i64
        } else {
            (c.y - hh) as i64
        },
        z: if i & 4 != 0 {
            (c.z + hh) as i64
        } else {
            (c.z - hh) as i64
        },
    }
}

/// A cell of the octree, as the specification sees it: the node occupying
/// it, its center, and its half-extent.
pub struct Cell {
    pub index: int,
    pub center: Fixed3,
    pub half: i64,
}

/// The root cell: the whole cube, occupied by node 0.
pub open spec fn root_cell() -> Cell {
    Cell { index: 0, center: Fixed3 { x: 0, y: 0, z: 0 }, half: FIXED_ONE }
}

/// The cell reached from the root by descending through the given octants
/// in order.
pub open spec fn cell_at_path(o: Octree, path: Seq<u32>) -> Cell
    decreases path.len(),
{
    if path.len() == 0 {
        root_cell()
    } else {
        let g = cell_at_path(o, path.drop_last());
        let i = path.last();
        Cell {
            index: spec_child_slot(o.nodes@[g.index].0, i),
            center: child_cell_center(g.center, (g.half / 2) as i64, i),
            half: (g.half / 2) as i64,
        }
    }
}

/// The path only descends through valid internal octants of stored nodes,
/// into cells of representable extent.
pub open spec fn path_ok(o: Octree, path: Seq<u32>) -> bool
    decreases path.len(),
{
    if path.len() == 0 {
        true
    } else {
        let g = cell_at_path(o, path.drop_last());
        let i = path.last();
        path_ok(o, path.drop_last()) && i < 8 && 0 <= g.index < o.nodes@.len() && node_valid(
            o.nodes@[g.index].0,
            i,
        ) && !node_leaf(o.nodes@[g.index].0, i) && g.half / 2 >= 2
    }
}

/// A cell the walk can reach: some descent path from the root ends there.
pub open spec fn cell_reachable(o: Octree, c: Cell) -> bool {
    exists|path: Seq<u32>| path_ok(o, path) && cell_at_path(o, path) == c
}

/// The cell a pending stack frame stands for.
pub open spec fn frame_cell(f: StackFrame) -> Cell {
    Cell { index: f.index as int, center: f.center, half: f.half }
}

/// One descent from a reachable cell reaches the child cell.
proof fn lemma_cell_step(o: Octree, g: Cell, i: u32, f: Cell)
    requires
        cell_reachable(o, g),
        i < 8,
        0 <= g.index < o.nodes@.len(),
        node_valid(o.nodes@[g.index].0, i),
        !node_leaf(o.nodes@[g.index].0, i),
        g.half / 2 >= 2,
        f.index == spec_child_slot(o.nodes@[g.index].0, i),
        f.half == g.half / 2,
        f.center == child_cell_center(g.center, (g.half / 2) as i64, i),
    ensures
        cell_reachable(o, f),
{
    let p0 = choose|path: Seq<u32>| path_ok(o, path) && cell_at_path(o, path) == g;
    let p1 = p0.push(i);
    assert(p1.drop_last() =~= p0);
    assert(p1.last() == i);
    assert(cell_at_path(o, p1) == f);
    assert(path_ok(o, p1));
    assert(cell_reachable(o, f));
}

/// Center of the root's child cell in octant `i`.
pub open spec fn root_child_center(i: u32) -> Fixed3 {
    Fixed3 {
        x: if i & 1 != 0 {
            0x40_0000
        } else {
            -0x40_0000i64
        },
        y: if i & 2 != 0 {
            0x40_0000
        } else {
            -0x40_0000i64
        },
        z: if i & 4 != 0 {
            0x40_0000
        } else {
            -0x40_0000i64
        },
    }
}

/// Some terminal octant of the root holds a voxel the segment meets.
pub open spec fn root_leaf_hit(ray: Ray, o: Octree) -> bool {
    exists|i: u32|
        i < 8 && node_valid(o.nodes@[0].0, i) && node_leaf(o.nodes@[0].0, i) && spec_box_hit(
            ray,
            root_child_center(i),
            0x40_0000,
        )
}

/// A pending cell is sound for the given store size: its node is stored,
/// and the cell lies inside the root cube with a representable extent.
pub open spec fn frame_wf(len: int, f: StackFrame) -> bool {
    &&& f.index < len
    &&& 2 <= f.half <= FIXED_ONE
    &&& -(FIXED_ONE - f.half) <= f.center.x <= FIXED_ONE - f.half
    &&& -(FIXED_ONE - f.half) <= f.center.y <= FIXED_ONE - f.half
    &&& -(FIXED_ONE - f.half) <= f.center.z <= FIXED_ONE - f.half
}

/// Walk the whole octree depth first and report the closest intersected
/// leaf voxel of the ray segment, or a miss.
///
/// The oracle visits every reachable cell; it never faults, a store whose
/// root has no children makes every ray miss, and a segment that misses the
/// root cube misses outright.  Success is owed at least at the top level:
/// a segment that meets the root cube and a voxel in a terminal octant of
/// the root always reports a hit.
#[verifier::loop_isolation(false)]
#[verifier::rlimit(60)]
pub fn trace_octree_top_down(ray: &Ray, octree: &Octree) -> (r: TraceResult)
    requires
        ray.wf(),
        octree.wf(),
    ensures
        r matches TraceResult::Hit { parent, octant } ==> parent < octree.nodes@.len() && octant
            < 8 && node_valid(octree.nodes@[parent as int].0, octant) && node_leaf(
            octree.nodes@[parent as int].0,
            octant,
        ),
        octree.root_empty() ==> r is Miss,
        !spec_box_hit(*ray, Fixed3 { x: 0, y: 0, z: 0 }, FIXED_ONE) ==> r is Miss,
        spec_box_hit(*ray, Fixed3 { x: 0, y: 0, z: 0 }, FIXED_ONE) && root_leaf_hit(*ray, *octree)
            ==> r is Hit,
        r matches TraceResult::Hit { parent, octant } ==> exists|f: Cell|
            #![trigger cell_reachable(*octree, f)]
            cell_reachable(*octree, f) && f.index == parent as int && spec_box_hit(
                *ray,
                child_cell_center(f.center, (f.half / 2) as i64, octant),
                (f.half / 2) as i64,
            ),
{
    let root_center = Fixed3::new(0, 0, 0);
    if !intersect_box(ray, root_center, FIXED_ONE).0 {
        return TraceResult::Miss;
    }

    let mut stack = Stack::new();
    stack.push(0, root_center, FIXED_ONE);
    proof {
        let p0 = Seq::<u32>::empty();
        assert(path_ok(*octree, p0) && cell_at_path(*octree, p0) == root_cell());
        assert(cell_reachable(*octree, root_cell()));
        assert(frame_cell(StackFrame { index: 0, center: root_center, half: FIXED_ONE })
            == root_cell());
    }

    let mut best: TraceResult = TraceResult::Miss;
    let mut best_t: Frac = Frac::one();
    let mut have_best: bool = false;

    // Every pop expands one stored node, and an acyclic store reaches each
    // node at most once per parent octant, so this budget only cuts off
    // stores whose child pointers form cycles.
    let mut fuel: u64 = (octree.len() as u64) * 8 + 8;
    let mut done: bool = false;
    let ghost mut root_done: bool = false;

    while !done
        invariant
            forall|k: int|
                0 <= k < stack.frames@.len() ==> frame_wf(
                    octree.nodes@.len() as int,
                    #[trigger] stack.frames@[k],
                ),
            best matches TraceResult::Hit { parent, octant } ==> parent < octree.nodes@.len()
                && octant < 8 && node_valid(octree.nodes@[parent as int].0, octant) && node_leaf(
                octree.nodes@[parent as int].0,
                octant,
            ),
            forall|k: int|
                0 <= k < stack.frames@.len() ==> cell_reachable(
                    *octree,
                    frame_cell(#[trigger] stack.frames@[k]),
                ),
            best matches TraceResult::Hit { parent, octant } ==> exists|f: Cell|
                #![trigger cell_reachable(*octree, f)]
                cell_reachable(*octree, f) && f.index == parent as int && spec_box_hit(
                    *ray,
                    child_cell_center(f.center, (f.half / 2) as i64, octant),
                    (f.half / 2) as i64,
                ),
            best_t.wf(),
            !have_best ==> best is Miss,
            have_best ==> best is Hit,
            octree.root_empty() ==> best is Miss,
            octree.root_empty() ==> forall|k: int|
                0 <= k < stack.frames@.len() ==> (#[trigger] stack.frames@[k]).index == 0,
            !root_done ==> stack.frames@.len() == 1 && stack.frames@[0] == (StackFrame {
                index: 0,
                center: Fixed3 { x: 0, y: 0, z: 0 },
                half: FIXED_ONE,
            }) && !have_best && fuel >= 1,
            root_done && spec_box_hit(*ray, Fixed3 { x: 0, y: 0, z: 0 }, FIXED_ONE)
                && root_leaf_hit(*ray, *octree) ==> have_best,
            done ==> root_done,
        decreases fuel, (if done {
            0int
        } else {
            1int
        }),
    {
        if fuel == 0 {
            done = true;
        } else {
            fuel = fuel - 1;
            if stack.empty() {
                done = true;
            } else {
                proof {
                    let li = stack.frames@.len() - 1;
                    assert(frame_wf(octree.nodes@.len() as int, stack.frames@[li]));
                    assert(cell_reachable(*octree, frame_cell(stack.frames@[li])));
                    if octree.root_empty() {
                        assert(stack.frames@[li].index == 0);
                    }
                }
                let (index, center, half) = stack.pop();
                let node = octree.node(index);
                let hh: i64 = half / 2;
                let mut i: usize = 0;
                while i < 8
                    invariant
                        i <= 8,
                        index < octree.nodes@.len(),
                        node.0 == octree.nodes@[index as int].0,
                        octree.root_empty() ==> index == 0,
                        have_best ==> best is Hit,
                        2 <= half <= FIXED_ONE,
                        hh == half / 2,
                        cell_reachable(
                            *octree,
                            frame_cell(StackFrame { index, center, half }),
                        ),
                        forall|k: int|
                            0 <= k < stack.frames@.len() ==> cell_reachable(
                                *octree,
                                frame_cell(#[trigger] stack.frames@[k]),
                            ),
                        best matches TraceResult::Hit { parent, octant } ==> exists|f: Cell|
                            #![trigger cell_reachable(*octree, f)]
                            cell_reachable(*octree, f) && f.index == parent as int && spec_box_hit(
                                *ray,
                                child_cell_center(f.center, (f.half / 2) as i64, octant),
                                (f.half / 2) as i64,
                            ),
                        !root_done ==> index == 0 && center == (Fixed3 { x: 0, y: 0, z: 0 })
                            && half == FIXED_ONE && hh == 0x40_0000,
                        !root_done ==> forall|i2: u32|
                            #![trigger node_valid(octree.nodes@[0].0, i2)]
                            i2 < i ==> ((node_valid(octree.nodes@[0].0, i2) && node_leaf(
                                octree.nodes@[0].0,
                                i2,
                            ) && spec_box_hit(*ray, root_child_center(i2), 0x40_0000))
                                ==> have_best),
                        root_done && spec_box_hit(*ray, Fixed3 { x: 0, y: 0, z: 0 }, FIXED_ONE)
                            && root_leaf_hit(*ray, *octree) ==> have_best,
                        forall|k: int|
                            0 <= k < stack.frames@.len() ==> frame_wf(
                                octree.nodes@.len() as int,
                                #[trigger] stack.frames@[k],
                            ),
                        best matches TraceResult::Hit { parent, octant } ==> parent
                            < octree.nodes@.len() && octant < 8 && node_valid(
                            octree.nodes@[parent as int].0,
                            octant,
                        ) && node_leaf(octree.nodes@[parent as int].0, octant),
                        best_t.wf(),
                        !have_best ==> best is Miss,
                        octree.root_empty() ==> best is Miss,
                        octree.root_empty() ==> forall|k: int|
                            0 <= k < stack.frames@.len() ==> (#[trigger] stack.frames@[k]).index
                                == 0,
                    decreases 8 - i,
                {
                    if node.valid(i) {
                        proof {
                            if octree.root_empty() {
                                lemma_empty_valid_mask(node.0, i as u32);
                            }
                        }
                        let child_center = Fixed3::new(
                            if i & 1 != 0 {
                                center.x + hh
                            } else {
                                center.x - hh
                            },
                            if i & 2 != 0 {
                                center.y + hh
                            } else {
                                center.y - hh
                            },
                            if i & 4 != 0 {
                                center.z + hh
                            } else {
                                center.z - hh
                            },
                        );
                        if node.leaf(i) {
                            let (hit, dist) = intersect_box(ray, child_center, hh);
                            if hit && (!have_best || frac_lt(dist, best_t)) {
                                best = TraceResult::Hit { parent: index, octant: i as u32 };
                                best_t = dist;
                                have_best = true;
                                proof {
                                    let fwit = frame_cell(StackFrame { index, center, half });
                                    assert(child_center == child_cell_center(
                                        center,
                                        hh,
                                        i as u32,
                                    ));
                                    assert(cell_reachable(*octree, fwit) && fwit.index
                                        == index as int && spec_box_hit(
                                        *ray,
                                        child_cell_center(
                                            fwit.center,
                                            (fwit.half / 2) as i64,
                                            i as u32,
                                        ),
                                        (fwit.half / 2) as i64,
                                    ));
                                }
                            }
                        } else if hh >= 2 {
                            proof {
                                assert(node_valid(octree.nodes@[index as int].0, i as u32));
                                assert(Octree::node_ok(
                                    octree.nodes@[index as int].0,
                                    octree.nodes@.len() as int,
                                ));
                            }
                            let slot = child_slot(node, i as u32) as usize;
                            proof {
                                lemma_cell_step(
                                    *octree,
                                    frame_cell(StackFrame { index, center, half }),
                                    i as u32,
                                    frame_cell(
                                        StackFrame { index: slot, center: child_center, half: hh },
                                    ),
                                );
                            }
                            stack.push(slot, child_center, hh);
                        }
                        // A valid non-leaf child in a cell of the finest
                        // representable extent is deeper than the grid can
                        // express; it is clipped, as the mirrored traversal
                        // clips it.
                    }
                    i = i + 1;
                }
                proof {
                    if !root_done {
                        if root_leaf_hit(*ray, *octree) {
                            let w = choose|i2: u32|
                                i2 < 8 && node_valid(octree.nodes@[0].0, i2) && node_leaf(
                                    octree.nodes@[0].0,
                                    i2,
                                ) && spec_box_hit(*ray, root_child_center(i2), 0x40_0000);
                            assert(node_valid(octree.nodes@[0].0, w));
                        }
                        root_done = true;
                    }
                }
            }
        }
    }
    best
}

} // verus!

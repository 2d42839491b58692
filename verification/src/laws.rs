//! Laws of the traversal, proved against its operational specification.

use crate::node::{node_leaf, node_valid};
use crate::octree::Octree;
use crate::rat::{frac_le_spec, frac_min_spec};
use crate::ray::{Fixed3, Ray};
use crate::traverse::{
    corner_frac, spec_advance, spec_axis, spec_axis_positive, spec_init, spec_mask, spec_run,
    spec_step, spec_trace_octree, Axis, TraceResult, TraceState, MAX_SCALE, TRAVERSAL_FUEL,
};
use vstd::prelude::*;

verus! {

/// The ray with both components of axis `a` negated (0 is x, 1 is y, 2 is
/// z).
pub open spec fn mirror_ray(r: Ray, a: u32) -> Ray {
    if a == 0 {
        Ray {
            origin: Fixed3 { x: (-r.origin.x) as i64, y: r.origin.y, z: r.origin.z },
            direction: Fixed3 { x: (-r.direction.x) as i64, y: r.direction.y, z: r.direction.z },
        }
    } else if a == 1 {
        Ray {
            origin: Fixed3 { x: r.origin.x, y: (-r.origin.y) as i64, z: r.origin.z },
            direction: Fixed3 { x: r.direction.x, y: (-r.direction.y) as i64, z: r.direction.z },
        }
    } else {
        Ray {
            origin: Fixed3 { x: r.origin.x, y: r.origin.y, z: (-r.origin.z) as i64 },
            direction: Fixed3 { x: r.direction.x, y: r.direction.y, z: (-r.direction.z) as i64 },
        }
    }
}

/// The direction component of axis `a`.
pub open spec fn direction_component(r: Ray, a: u32) -> i64 {
    if a == 0 {
        r.direction.x
    } else if a == 1 {
        r.direction.y
    } else {
        r.direction.z
    }
}

/// The outcome with bit `a` of the hit octant flipped.
pub open spec fn flip_octant(r: TraceResult, a: u32) -> TraceResult {
    match r {
        TraceResult::Hit { parent, octant } => TraceResult::Hit {
            parent,
            octant: octant ^ (1u32 << a),
        },
        TraceResult::Miss => TraceResult::Miss,
    }
}

/// A node that is its own mirror image across axis `a`, with terminal
/// octants: octants `i` and `i ^ (1 << a)` agree on validity and leafness,
/// and every valid octant is a leaf.
pub open spec fn node_mirror(bits: u32, a: u32) -> bool {
    forall|i: u32|
        #![trigger node_valid(bits, i)]
        i < 8 ==> (node_valid(bits, i) == node_valid(bits, (i ^ (1u32 << a)) as u32)) && (node_leaf(
            bits,
            i,
        ) == node_leaf(bits, (i ^ (1u32 << a)) as u32)) && (node_valid(bits, i) ==> node_leaf(
            bits,
            i,
        ))
}

/// A store symmetric about axis `a`, with terminal children throughout.
pub open spec fn octree_mirror(o: Octree, a: u32) -> bool {
    forall|j: int| 0 <= j < o.nodes@.len() ==> node_mirror((#[trigger] o.nodes@[j]).0, a)
}

/// The slice of the walk invariant the mirroring argument rests on.
spec fn mirror_inv(o: Octree, st: TraceState) -> bool {
    &&& 0 <= st.parent < o.nodes@.len()
    &&& st.child < 8
    &&& st.stack.len() == MAX_SCALE
    &&& forall|k: int|
        0 <= k < st.stack.len() ==> (#[trigger] st.stack[k]).parent < o.nodes@.len()
    &&& (st.cached ==> st.node == o.nodes@[st.parent].0)
}

/// Two runs from one state, with octant masks differing only in bit `a`,
/// stay in the same state through every advance and pop, and end on hits
/// that differ only in bit `a` of the octant.
proof fn lemma_run_mirror(
    o: Octree,
    ax: Axis,
    ay: Axis,
    az: Axis,
    mask: u32,
    st: TraceState,
    fuel: nat,
    a: u32,
)
    requires
        o.wf(),
        a < 3,
        octree_mirror(o, a),
        mask < 8,
        !st.done,
        st.result is Miss,
        mirror_inv(o, st),
    ensures
        spec_run(o, ax, ay, az, (mask ^ (1u32 << a)) as u32, st, fuel) == flip_octant(
            spec_run(o, ax, ay, az, mask, st, fuel),
            a,
        ),
    decreases fuel,
{
    let mask2 = (mask ^ (1u32 << a)) as u32;
    if fuel == 0 {
        assert(spec_run(o, ax, ay, az, mask, st, fuel) == TraceResult::Miss);
        assert(spec_run(o, ax, ay, az, mask2, st, fuel) == TraceResult::Miss);
    } else {
        let nb = if st.cached {
            st.node
        } else {
            o.nodes@[st.parent].0
        };
        assert(node_mirror((o.nodes@[st.parent]).0, a));
        assert(node_mirror(nb, a));
        let c = st.child;
        let ro = (c ^ mask) as u32;
        let ro2 = (c ^ mask2) as u32;
        assert(ro < 8 && ro2 == (ro ^ (1u32 << a)) && mask2 < 8) by (bit_vector)
            requires
                a < 3,
                c < 8,
                mask < 8,
                ro == c ^ mask,
                ro2 == c ^ mask2,
                mask2 == mask ^ (1u32 << a),
        ;
        assert(ro == st.child ^ mask && ro2 == st.child ^ mask2);
        assert(node_valid(nb, ro2) == node_valid(nb, ro));
        assert(node_leaf(nb, ro2) == node_leaf(nb, ro));

        let cx = corner_frac(ax, st.mx);
        let cy = corner_frac(ay, st.my);
        let cz = corner_frac(az, st.mz);
        let tc = frac_min_spec(frac_min_spec(cx, cy), cz);
        let tv = frac_min_spec(st.t_max, tc);
        let st1 = spec_step(o, ax, ay, az, mask, st);
        let st2 = spec_step(o, ax, ay, az, mask2, st);
        assert(spec_run(o, ax, ay, az, mask, st, fuel) == spec_run(
            o,
            ax,
            ay,
            az,
            mask,
            st1,
            (fuel - 1) as nat,
        ));
        assert(spec_run(o, ax, ay, az, mask2, st, fuel) == spec_run(
            o,
            ax,
            ay,
            az,
            mask2,
            st2,
            (fuel - 1) as nat,
        ));

        if node_valid(nb, ro) && frac_le_spec(st.t_min, st.t_max) && frac_le_spec(st.t_min, tv) {
            // Every valid octant of a mirror node is terminal, so both
            // runs hit here, in octants differing only in bit `a`.
            assert(node_leaf(nb, ro));
            assert(st1.done && st1.result == (TraceResult::Hit {
                parent: st.parent as usize,
                octant: ro,
            }));
            assert(st2.done && st2.result == (TraceResult::Hit {
                parent: st.parent as usize,
                octant: ro2,
            }));
            assert(spec_run(o, ax, ay, az, mask, st1, (fuel - 1) as nat) == st1.result);
            assert(spec_run(o, ax, ay, az, mask2, st2, (fuel - 1) as nat) == st2.result);
        } else {
            // Neither run can descend, and advancing and popping never
            // look at the octant mask: the states stay equal.
            assert(st1 == spec_advance(o, st, nb, cx, cy, cz, tc));
            assert(st2 == spec_advance(o, st, nb, cx, cy, cz, tc));
            if st1.done {
                assert(st1.result == TraceResult::Miss);
                assert(spec_run(o, ax, ay, az, mask, st1, (fuel - 1) as nat) == st1.result);
                assert(spec_run(o, ax, ay, az, mask2, st1, (fuel - 1) as nat) == st1.result);
            } else {
                assert(mirror_inv(o, st1)) by {
                    let sx: u32 = if frac_le_spec(cx, tc) {
                        1u32
                    } else {
                        0u32
                    };
                    let sy: u32 = if frac_le_spec(cy, tc) {
                        1u32
                    } else {
                        0u32
                    };
                    let sz: u32 = if frac_le_spec(cz, tc) {
                        1u32
                    } else {
                        0u32
                    };
                    let stm = sx | (sy << 1u32) | (sz << 2u32);
                    let c2 = st.child;
                    assert(stm < 8 && (c2 ^ stm) < 8) by (bit_vector)
                        requires
                            sx <= 1,
                            sy <= 1,
                            sz <= 1,
                            c2 < 8,
                            stm == sx | (sy << 1u32) | (sz << 2u32),
                    ;
                    assert(forall|p: u32, q: u32, w: u32|
                        ((p & 1) | ((q & 1) << 1u32) | ((w & 1) << 2u32)) < 8) by (bit_vector);
                }
                lemma_run_mirror(o, ax, ay, az, mask, st1, (fuel - 1) as nat, a);
            }
        }
    }
}

/// Mirroring symmetry: for a ray whose direction along axis `a` is
/// nonzero and its counterpart with that axis negated, cast through an
/// octree that is symmetric about axis `a` with terminal children, the
/// outcomes agree up to flipping bit `a` of the hit octant.
///
/// (A ray whose component along the axis is exactly zero is excluded:
/// clamping gives both the ray and its mirror image the same positive
/// substitute direction, so the two walks coincide instead of mirroring.)
pub proof fn lemma_mirror_symmetry(ray: Ray, o: Octree, a: u32)
    requires
        ray.wf(),
        o.wf(),
        a < 3,
        octree_mirror(o, a),
        direction_component(ray, a) != 0,
    ensures
        spec_trace_octree(mirror_ray(ray, a), o) == flip_octant(spec_trace_octree(ray, o), a),
{
    let m = mirror_ray(ray, a);
    let ax = spec_axis(ray.origin.x, ray.direction.x);
    let ay = spec_axis(ray.origin.y, ray.direction.y);
    let az = spec_axis(ray.origin.z, ray.direction.z);
    assert(spec_axis(m.origin.x, m.direction.x) == ax);
    assert(spec_axis(m.origin.y, m.direction.y) == ay);
    assert(spec_axis(m.origin.z, m.direction.z) == az);

    let bx: u32 = if spec_axis_positive(ray.direction.x) {
        1u32
    } else {
        0u32
    };
    let by: u32 = if spec_axis_positive(ray.direction.y) {
        1u32
    } else {
        0u32
    };
    let bz: u32 = if spec_axis_positive(ray.direction.z) {
        1u32
    } else {
        0u32
    };
    assert((1u32 ^ 1) == 0 && (0u32 ^ 1) == 1) by (bit_vector);
    assert(spec_mask(ray) == (bx | (by << 1u32) | (bz << 2u32)));
    if a == 0 {
        assert(spec_axis_positive(m.direction.x) == !spec_axis_positive(ray.direction.x));
        assert(spec_mask(m) == ((bx ^ 1) | (by << 1u32) | (bz << 2u32)));
        assert(((bx ^ 1) | (by << 1u32) | (bz << 2u32)) == ((bx | (by << 1u32) | (bz << 2u32)) ^ (
        1u32 << 0u32)) && (bx | (by << 1u32) | (bz << 2u32)) < 8) by (bit_vector)
            requires
                bx <= 1,
                by <= 1,
                bz <= 1,
        ;
    } else if a == 1 {
        assert(spec_axis_positive(m.direction.y) == !spec_axis_positive(ray.direction.y));
        assert(spec_mask(m) == (bx | ((by ^ 1) << 1u32) | (bz << 2u32)));
        assert((bx | ((by ^ 1) << 1u32) | (bz << 2u32)) == ((bx | (by << 1u32) | (bz << 2u32)) ^ (
        1u32 << 1u32)) && (bx | (by << 1u32) | (bz << 2u32)) < 8) by (bit_vector)
            requires
                bx <= 1,
                by <= 1,
                bz <= 1,
        ;
    } else {
        assert(spec_axis_positive(m.direction.z) == !spec_axis_positive(ray.direction.z));
        assert(spec_mask(m) == (bx | (by << 1u32) | ((bz ^ 1) << 2u32)));
        assert((bx | (by << 1u32) | ((bz ^ 1) << 2u32)) == ((bx | (by << 1u32) | (bz << 2u32)) ^ (
        1u32 << 2u32)) && (bx | (by << 1u32) | (bz << 2u32)) < 8) by (bit_vector)
            requires
                bx <= 1,
                by <= 1,
                bz <= 1,
        ;
    }
    assert(spec_mask(m) == (spec_mask(ray) ^ (1u32 << a)) as u32);

    assert(spec_init(m).stack =~= spec_init(ray).stack);
    assert(spec_init(m) == spec_init(ray));

    let st0 = spec_init(ray);
    assert(mirror_inv(o, st0)) by {
        assert(forall|p: u32, q: u32, w: u32|
            p <= 1 && q <= 1 && w <= 1 ==> (p | (q << 1u32) | (w << 2u32)) < 8) by (bit_vector);
    }
    lemma_run_mirror(o, ax, ay, az, spec_mask(ray), st0, TRAVERSAL_FUEL as nat, a);
}

} // verus!

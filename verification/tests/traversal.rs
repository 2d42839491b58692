//! Traversal scenarios: misses, hits, degenerate rays, depth bound,
//! mirroring symmetry.

use voxel_engine::node::OctreeNode;
use voxel_engine::octree::Octree;
use voxel_engine::ray::{Fixed3, Ray};
use voxel_engine::reference::Stack;
use voxel_engine::traverse::{trace_octree, TraceResult};

/// World units to fixed point (23 fractional bits).
fn fx(v: f64) -> i64 {
    (v * 8388608.0).round() as i64
}

fn ray(o: (f64, f64, f64), d: (f64, f64, f64)) -> Ray {
    Ray::new(
        Fixed3::new(fx(o.0), fx(o.1), fx(o.2)),
        Fixed3::new(fx(d.0), fx(d.1), fx(d.2)),
    )
}

/// A root whose eight octants are all terminal voxels.
fn full_leaf_root() -> Octree {
    Octree::new(vec![OctreeNode::new(0, false, 0xff, 0xff)]).unwrap()
}

/// A chain of single-child nodes down to the finest representable level.
fn deepest_chain() -> Octree {
    let mut nodes = Vec::new();
    // Node k holds one valid child in octant 0; all but the last are
    // internal and point at node k + 1.  23 levels of subdivision reach
    // cells of the finest representable size.
    for k in 0..22 {
        nodes.push(OctreeNode::new((k + 1) as u16, false, 0x01, 0x00));
    }
    nodes.push(OctreeNode::new(0, false, 0x01, 0x01));
    Octree::new(nodes).unwrap()
}

#[test]
fn root_miss_away_rays() {
    // A ray starting at (5, 5, 5) and pointing away from the origin never
    // meets the root cube, whatever the octree holds.
    let octrees = [
        full_leaf_root(),
        deepest_chain(),
        Octree::new(vec![OctreeNode::new(0, false, 0x00, 0x00)]).unwrap(),
    ];
    let dirs = [
        (1.0, 1.0, 1.0),
        (1.0, 0.0, 0.0),
        (0.0, 1.0, 0.0),
        (0.0, 0.0, 1.0),
        (1.0, 2.0, 3.0),
        (0.5, 0.25, 2.0),
    ];
    for o in &octrees {
        for &d in &dirs {
            let r = ray((5.0, 5.0, 5.0), d);
            assert_eq!(trace_octree(&r, o), TraceResult::Miss);
        }
    }
}

#[test]
fn empty_octree_always_misses() {
    // A root with no children misses every ray, including rays through the
    // cube's interior.
    let o = Octree::new(vec![OctreeNode::new(0, false, 0x00, 0x00)]).unwrap();
    let rays = [
        ray((-2.0, 0.1, 0.2), (1.0, 0.0, 0.0)),
        ray((0.0, 0.0, 0.0), (0.3, 0.4, 0.5)),
        ray((5.0, 5.0, 5.0), (-1.0, -1.0, -1.0)),
        ray((0.9, -0.9, 0.0), (-1.0, 1.0, 0.1)),
    ];
    for r in &rays {
        assert_eq!(trace_octree(r, &o), TraceResult::Miss);
    }
}

#[test]
fn full_leaf_root_center_ray_hits_expected_octant() {
    // From outside on the -x side through the cell centers of the lower
    // octants: the first voxel met is the lower octant on the entry side.
    let o = full_leaf_root();
    let r = ray((-2.0, -0.5, -0.5), (4.0, 0.0, 0.0));
    match trace_octree(&r, &o) {
        TraceResult::Hit { parent, octant } => {
            assert_eq!(parent, 0);
            // Entry at x = -1, inside the (-, -, -) octant.
            assert_eq!(octant, 0);
        }
        TraceResult::Miss => panic!("expected a hit"),
    }
    // Through the upper octants from the +x side.
    let r2 = ray((2.0, 0.5, 0.5), (-4.0, 0.0, 0.0));
    match trace_octree(&r2, &o) {
        TraceResult::Hit { parent, octant } => {
            assert_eq!(parent, 0);
            // Entry at x = +1, inside the (+, +, +) octant.
            assert_eq!(octant, 7);
        }
        TraceResult::Miss => panic!("expected a hit"),
    }
}

#[test]
fn degenerate_direction_component_is_safe_and_deterministic() {
    // One direction component exactly zero: the traversal must not fault
    // and must give the same answer on repeated runs.
    let o = full_leaf_root();
    let rays = [
        ray((-2.0, 0.4, 0.3), (1.0, 0.0, 0.0)),
        ray((0.2, -3.0, 0.1), (0.0, 2.0, 0.0)),
        ray((-2.0, 0.0, 0.0), (1.0, 0.0, 0.25)),
        ray((0.0, 0.0, 3.0), (0.0, 0.0, -2.0)),
    ];
    for r in &rays {
        let first = trace_octree(r, &o);
        for _ in 0..3 {
            assert_eq!(trace_octree(r, &o), first);
        }
    }
}

#[test]
fn deepest_octree_terminates_and_hits() {
    // Depth equal to the mantissa-bit limit: the walk descends 23 levels
    // into the (-, -, -) corner and still terminates with the right leaf.
    let o = deepest_chain();
    let r = ray((-2.0, -0.9999999, -0.9999999), (4.0, 0.0, 0.0));
    match trace_octree(&r, &o) {
        TraceResult::Hit { parent, octant } => {
            assert_eq!(parent, 22);
            assert_eq!(octant, 0);
        }
        TraceResult::Miss => panic!("expected a hit at the deepest level"),
    }
    // A ray missing the occupied corner terminates in a miss.
    let r2 = ray((-2.0, 0.5, 0.5), (4.0, 0.0, 0.0));
    assert_eq!(trace_octree(&r2, &o), TraceResult::Miss);
}

#[test]
fn mirroring_symmetry_flips_octant_bit() {
    // Against an octree symmetric about each axis, negating one axis of
    // origin and direction flips exactly that bit of the hit octant.
    let o = full_leaf_root();
    let mut state: u64 = 0x123456789;
    let mut lcg = move || {
        state = state.wrapping_mul(6364136223846793005).wrapping_add(1442695040888963407);
        ((state >> 33) as f64) / ((1u64 << 31) as f64) - 1.0
    };
    let mut checked = 0;
    for _ in 0..200 {
        let (ox, oy, oz) = (2.0 + lcg().abs(), lcg() * 0.8, lcg() * 0.8);
        let (tx, ty, tz) = (lcg() * 0.9, lcg() * 0.9, lcg() * 0.9);
        let d = ((tx - ox) * 2.0, (ty - oy) * 2.0, (tz - oz) * 2.0);
        if d.0 == 0.0 {
            continue;
        }
        if d.1 == 0.0 || d.2 == 0.0 {
            continue;
        }
        let r = ray((ox, oy, oz), d);
        let mirrors = [
            (ray((-ox, oy, oz), (-d.0, d.1, d.2)), 1u32),
            (ray((ox, -oy, oz), (d.0, -d.1, d.2)), 2u32),
            (ray((ox, oy, -oz), (d.0, d.1, -d.2)), 4u32),
        ];
        for (m, bit) in &mirrors {
            match (trace_octree(&r, &o), trace_octree(m, &o)) {
                (
                    TraceResult::Hit { parent: p1, octant: c1 },
                    TraceResult::Hit { parent: p2, octant: c2 },
                ) => {
                    assert_eq!(p1, p2);
                    assert_eq!(c1 ^ bit, c2);
                    checked += 1;
                }
                (TraceResult::Miss, TraceResult::Miss) => {}
                _ => panic!("mirrored rays disagree on hit/miss"),
            }
        }
    }
    assert!(checked > 150);
}

#[test]
fn test_stack() {
    let zero = Fixed3::new(0, 0, 0);

    let mut stack = Stack::new();

    assert!(stack.empty());
    stack.push(0, zero, 0);
    assert!(!stack.empty());
    assert_eq!(stack.pop(), (0, zero, 0));
    assert!(stack.empty());

    stack.push(0, zero, 0);
    stack.push(1, zero, 1);

    assert_eq!(stack.pop(), (1, zero, 1));
    assert_eq!(stack.pop(), (0, zero, 0));
}

//! Agreement between the mirrored traversal and the depth-first oracle.

use voxel_engine::node::OctreeNode;
use voxel_engine::octree::Octree;
use voxel_engine::ray::{Fixed3, Ray};
use voxel_engine::reference::trace_octree_top_down;
use voxel_engine::traverse::{trace_octree, TraceResult};

/// World units to fixed point (23 fractional bits).
fn fx(v: f64) -> i64 {
    (v * 8388608.0).round() as i64
}

fn ray(o: (f64, f64, f64), d: (f64, f64, f64)) -> Ray {
    Ray::new(
        Fixed3::new(fx(o.0), fx(o.1), fx(o.2)),
        Fixed3::new(fx(d.0), fx(d.1), fx(d.2)),
    )
}

struct Lcg(u64);

impl Lcg {
    /// Uniform-ish value in (-1, 1).
    fn unit(&mut self) -> f64 {
        self.0 = self.0.wrapping_mul(6364136223846793005).wrapping_add(1442695040888963407);
        ((self.0 >> 33) as f64) / ((1u64 << 31) as f64) - 1.0
    }
}

/// A ray from outside the cube toward a point inside it, long enough to
/// cross the whole volume within the parameter interval.
fn sample_ray(lcg: &mut Lcg) -> Ray {
    let side = lcg.unit();
    let (mut ox, mut oy, mut oz) = (lcg.unit() * 0.9, lcg.unit() * 0.9, lcg.unit() * 0.9);
    // Push the origin out of the cube along one axis.
    if side < -0.33 {
        ox = if ox < 0.0 { ox - 2.0 } else { ox + 2.0 };
    } else if side < 0.33 {
        oy = if oy < 0.0 { oy - 2.0 } else { oy + 2.0 };
    } else {
        oz = if oz < 0.0 { oz - 2.0 } else { oz + 2.0 };
    }
    let (tx, ty, tz) = (lcg.unit() * 0.95, lcg.unit() * 0.95, lcg.unit() * 0.95);
    ray(
        (ox, oy, oz),
        ((tx - ox) * 2.0, (ty - oy) * 2.0, (tz - oz) * 2.0),
    )
}

fn assert_agree(r: &Ray, o: &Octree) {
    let fast = trace_octree(r, o);
    let slow = trace_octree_top_down(r, o);
    match (fast, slow) {
        (TraceResult::Miss, TraceResult::Miss) => {}
        (
            TraceResult::Hit { parent: p1, octant: c1 },
            TraceResult::Hit { parent: p2, octant: c2 },
        ) => {
            assert_eq!(p1, p2, "traversals hit different nodes");
            assert_eq!(c1, c2, "traversals hit different octants");
        }
        (a, b) => panic!("traversals disagree: {:?} vs {:?}", a, b),
    }
}

#[test]
fn full_single_leaf_agreement_many_rays() {
    // Root with valid_mask = leaf_mask = 0xff: the mirrored traversal and
    // the oracle agree on hit/miss and entered octant for ten thousand
    // sampled rays that meet the unit cube.
    let o = Octree::new(vec![OctreeNode::new(0, false, 0xff, 0xff)]).unwrap();
    let mut lcg = Lcg(0x9e3779b97f4a7c15);
    let mut hits = 0u32;
    for _ in 0..10_000 {
        let r = sample_ray(&mut lcg);
        let fast = trace_octree(&r, &o);
        assert_agree(&r, &o);
        if matches!(fast, TraceResult::Hit { .. }) {
            hits += 1;
        }
    }
    assert!(hits > 5_000, "sampler should hit the cube most of the time");
}

/// A small two-level octree with mixed leaves and internal nodes.
fn two_level_octree() -> Octree {
    // Root: octants 0, 3, 5 valid; 3 is a leaf, 0 and 5 are internal.
    // Slots are child_ptr + popcount of lower valid bits, so octant 0
    // lands on node 1, the leaf octant 3 owns slot 2 (never followed), and
    // octant 5 lands on node 3.
    let root = OctreeNode::new(1, false, 0b0010_1001, 0b0000_1000);
    // Node 1 (octant 0): a few leaves.
    let n1 = OctreeNode::new(0, false, 0b1100_0011, 0b1100_0011);
    // Slot 2 belongs to the leaf octant 3 and stays empty.
    let filler = OctreeNode::new(0, false, 0, 0);
    // Node 3 (octant 5): all eight leaves.
    let n2 = OctreeNode::new(0, false, 0xff, 0xff);
    Octree::new(vec![root, n1, filler, n2]).unwrap()
}

#[test]
fn mixed_octree_agreement() {
    let o = two_level_octree();
    let mut lcg = Lcg(0xdeadbeefcafe1234);
    for _ in 0..2_000 {
        let r = sample_ray(&mut lcg);
        assert_agree(&r, &o);
    }
}

#[test]
fn deep_octree_agreement() {
    // A chain down to the deepest representable level, plus a second
    // occupied branch near the top.
    let mut nodes = Vec::new();
    nodes.push(OctreeNode::new(1, false, 0b1000_0001, 0b1000_0000));
    for k in 1..22 {
        nodes.push(OctreeNode::new((k + 1) as u16, false, 0x01, 0x00));
    }
    nodes.push(OctreeNode::new(0, false, 0x01, 0x01));
    let o = Octree::new(nodes).unwrap();
    let mut lcg = Lcg(0x5bd1e995);
    for _ in 0..2_000 {
        let r = sample_ray(&mut lcg);
        assert_agree(&r, &o);
    }
}

#[test]
fn axis_aligned_rays_agree() {
    let o = two_level_octree();
    // Offsets chosen away from every cell boundary of the store, so no
    // ray grazes a cell corner.
    let rays = [
        ray((-3.0, -0.5625, -0.5625), (8.0, 0.0, 0.0)),
        ray((3.0, -0.5625, -0.5625), (-8.0, 0.0, 0.0)),
        ray((-0.5625, -3.0, -0.5625), (0.0, 8.0, 0.0)),
        ray((-0.5625, 3.0, -0.5625), (0.0, -8.0, 0.0)),
        ray((-0.5625, -0.5625, -3.0), (0.0, 0.0, 8.0)),
        ray((-0.5625, -0.5625, 3.0), (0.0, 0.0, -8.0)),
        ray((0.75, 0.75, -3.0), (0.0, 0.0, 8.0)),
        ray((0.8125, -0.6875, -3.0), (0.0, 0.0, 8.0)),
    ];
    for r in &rays {
        assert_agree(r, &o);
    }
}

/// A deterministic pseudo-random octree: breadth-first allocation with
/// correct child slots, depth-limited so it always validates.
fn random_octree(seed: u64, max_depth: u32) -> Octree {
    let mut lcg = Lcg(seed);
    let mut bits = move |n: u32| -> u32 {
        ((lcg.unit() + 1.0) * 0.5 * ((1u64 << n) as f64)) as u32 & ((1u32 << n) - 1)
    };
    // Each entry is (depth, index); nodes[index] is filled when expanded.
    let mut nodes = vec![OctreeNode::new(0, false, 0, 0)];
    let mut queue = vec![(0u32, 0usize)];
    while let Some((depth, index)) = queue.pop() {
        let mut valid = bits(8);
        if index == 0 && valid == 0 {
            valid = 1;
        }
        let leaf = if depth + 1 >= max_depth {
            valid
        } else {
            // Keep some children internal, at most a few per node.
            (bits(8) | bits(8)) & valid
        };
        let ptr = nodes.len() as u16;
        nodes[index] = OctreeNode::new(ptr, false, valid as u8, leaf as u8);
        for i in 0..8u32 {
            if valid & (1 << i) != 0 {
                let slot = nodes.len();
                nodes.push(OctreeNode::new(0, false, 0, 0));
                if leaf & (1 << i) == 0 {
                    queue.push((depth + 1, slot));
                }
            }
        }
    }
    Octree::new(nodes).unwrap()
}

#[test]
fn random_octrees_agreement() {
    // Several pseudo-random stores, a thousand rays each: the mirrored
    // traversal and the oracle must agree throughout.
    for (k, &seed) in [7u64, 1234, 0xfeed_f00d, 98765].iter().enumerate() {
        let o = random_octree(seed, 3 + (k as u32 % 2));
        let mut lcg = Lcg(seed ^ 0xabcdef);
        for _ in 0..1_000 {
            let r = sample_ray(&mut lcg);
            assert_agree(&r, &o);
        }
    }
}

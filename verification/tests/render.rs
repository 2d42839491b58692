//! End-to-end frames: camera rays traced through a store.

use voxel_engine::camera::{Fixed4, InverseCamera, Mat4Fixed};
use voxel_engine::node::OctreeNode;
use voxel_engine::octree::Octree;
use voxel_engine::traverse::{trace_octree, TraceResult};

/// World units to fixed point (23 fractional bits).
fn fx(v: f64) -> i64 {
    (v * 8388608.0).round() as i64
}

/// The identity with a translation column.
fn translation(x: f64, y: f64, z: f64) -> Mat4Fixed {
    Mat4Fixed::new(
        Fixed4::new(fx(1.0), 0, 0, 0),
        Fixed4::new(0, fx(1.0), 0, 0),
        Fixed4::new(0, 0, fx(1.0), 0),
        Fixed4::new(fx(x), fx(y), fx(z), fx(1.0)),
    )
}

/// An inverse projection that lifts the screen point `(sx, sy)` to the
/// direction `(sx, sy, depth)`.
fn screen_to_depth(depth: f64) -> Mat4Fixed {
    Mat4Fixed::new(
        Fixed4::new(fx(1.0), 0, 0, 0),
        Fixed4::new(0, fx(1.0), 0, 0),
        Fixed4::new(0, 0, fx(1.0), 0),
        Fixed4::new(0, 0, fx(depth), fx(1.0)),
    )
}

#[test]
fn frame_toward_cube_hits_everywhere() {
    // Camera at (0, 0, 3) shooting toward -z: every screen ray crosses the
    // root cube of a fully occupied octree.
    let octree = Octree::new(vec![OctreeNode::new(0, false, 0xff, 0xff)]).unwrap();
    let cam = InverseCamera::new(&translation(0.0, 0.0, 3.0), &screen_to_depth(-8.0));
    let mut hits = 0;
    for py in 0..8 {
        for px in 0..8 {
            let sx = fx((px as f64 + 0.5) / 8.0 * 2.0 - 1.0);
            let sy = fx((py as f64 + 0.5) / 8.0 * 2.0 - 1.0);
            let ray = cam.create_ray(sx, sy);
            if matches!(trace_octree(&ray, &octree), TraceResult::Hit { .. }) {
                hits += 1;
            }
        }
    }
    assert_eq!(hits, 64);
}

#[test]
fn frame_away_from_cube_misses_everywhere() {
    // Camera at (5, 5, 5) shooting toward +z: no ray comes near the cube.
    let octree = Octree::new(vec![OctreeNode::new(0, false, 0xff, 0xff)]).unwrap();
    let cam = InverseCamera::new(&translation(5.0, 5.0, 5.0), &screen_to_depth(8.0));
    for py in 0..4 {
        for px in 0..4 {
            let sx = fx((px as f64 + 0.5) / 4.0 * 2.0 - 1.0);
            let sy = fx((py as f64 + 0.5) / 4.0 * 2.0 - 1.0);
            let ray = cam.create_ray(sx, sy);
            assert_eq!(trace_octree(&ray, &octree), TraceResult::Miss);
        }
    }
}

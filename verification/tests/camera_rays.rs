//! Camera ray generation on fixed-point matrices.

use voxel_engine::camera::{Fixed4, InverseCamera, Mat4Fixed};
use voxel_engine::ray::Fixed3;

/// World units to fixed point (23 fractional bits).
fn fx(v: f64) -> i64 {
    (v * 8388608.0).round() as i64
}

/// The identity with a translation column.
fn translation(x: f64, y: f64, z: f64) -> Mat4Fixed {
    Mat4Fixed::new(
        Fixed4::new(fx(1.0), 0, 0, 0),
        Fixed4::new(0, fx(1.0), 0, 0),
        Fixed4::new(0, 0, fx(1.0), 0),
        Fixed4::new(fx(x), fx(y), fx(z), fx(1.0)),
    )
}

#[test]
fn ray_origin_is_inverse_view_translation() {
    let cam = InverseCamera::new(&translation(0.25, -0.5, 3.0), &translation(0.0, 0.0, 0.0));
    let r = cam.create_ray(fx(0.5), fx(-0.5));
    assert_eq!(r.origin, Fixed3::new(fx(0.25), fx(-0.5), fx(3.0)));
}

#[test]
fn identity_camera_direction_is_screen_point() {
    // With identity matrices the direction is the homogeneous screen point
    // (sx, sy, 0) itself.
    let cam = InverseCamera::new(&translation(0.0, 0.0, 0.0), &translation(0.0, 0.0, 0.0));
    let r = cam.create_ray(fx(0.5), fx(-0.25));
    assert_eq!(r.direction, Fixed3::new(fx(0.5), fx(-0.25), 0));
}

#[test]
fn centered_view_ignores_translation_for_direction() {
    // The direction comes from the centered inverse view: a pure
    // translation must not shift it.
    let cam_moved = InverseCamera::new(&translation(5.0, 6.0, 7.0), &translation(0.0, 0.0, 0.0));
    let cam_still = InverseCamera::new(&translation(0.0, 0.0, 0.0), &translation(0.0, 0.0, 0.0));
    let a = cam_moved.create_ray(fx(0.75), fx(0.125));
    let b = cam_still.create_ray(fx(0.75), fx(0.125));
    assert_eq!(a.direction, b.direction);
    assert_ne!(a.origin, b.origin);
}

#[test]
fn scaling_projection_scales_direction() {
    // A diagonal inverse projection scales the screen point per axis.
    let proj = Mat4Fixed::new(
        Fixed4::new(fx(2.0), 0, 0, 0),
        Fixed4::new(0, fx(4.0), 0, 0),
        Fixed4::new(0, 0, fx(1.0), 0),
        Fixed4::new(0, 0, 0, fx(1.0)),
    );
    let cam = InverseCamera::new(&translation(0.0, 0.0, 0.0), &proj);
    let r = cam.create_ray(fx(0.5), fx(0.5));
    assert_eq!(r.direction, Fixed3::new(fx(1.0), fx(2.0), 0));
}

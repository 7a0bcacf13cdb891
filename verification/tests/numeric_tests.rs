//! Numeric witnesses: the exact parameters the library pins down are
//! evaluated in floating point, the way an embedding would, and the
//! geometric claims behind them are checked within tolerance.

use cgmath::{EuclideanSpace, InnerSpace, Rotation3, SquareMatrix};
use scene_core::camera::create_camera;
use scene_core::geom::Vec3;
use scene_core::light::{create_light_uniform, update_light};

fn to_f32(v: &Vec3) -> cgmath::Vector3<f32> {
    cgmath::Vector3::new(v.x as f32 / 1000.0, v.y as f32 / 1000.0, v.z as f32 / 1000.0)
}

#[test]
fn view_matrix_of_the_initial_camera_is_sound() {
    // A well-formed camera's look-at matrix must carry the target onto
    // the negative viewing axis, at a depth equal to the eye-target
    // distance.
    let c = create_camera(800, 600);
    let eye = cgmath::Point3::from_vec(to_f32(&c.eye));
    let target = cgmath::Point3::from_vec(to_f32(&c.target));
    let up = to_f32(&c.up);

    let view = cgmath::Matrix4::look_at_rh(eye, target, up);
    let in_view = view * target.to_homogeneous();

    let distance = (target - eye).magnitude();
    assert!((in_view.x).abs() < 1e-4);
    assert!((in_view.y).abs() < 1e-4);
    assert!((in_view.z + distance).abs() < 1e-3);
    assert!((in_view.w - 1.0).abs() < 1e-6);

    // And the matrix must be invertible at all: the validity invariant
    // rules the degenerate cases out.
    assert!(view.invert().is_some());
}

#[test]
fn light_orbit_is_norm_preserving_in_floating_point() {
    let mut l = create_light_uniform();
    let radius_before = to_f32(&l.base).magnitude();
    for _ in 0..90 {
        update_light(&mut l);
    }
    // The rendered position is the start turned about the vertical axis
    // by the accumulated angle; a rigid rotation keeps the distance from
    // the origin.
    let turned = cgmath::Quaternion::from_axis_angle(
        cgmath::Vector3::unit_y(),
        cgmath::Deg(l.angle_deg as f32),
    ) * to_f32(&l.base);
    assert!((turned.magnitude() - radius_before).abs() < 1e-4);
}

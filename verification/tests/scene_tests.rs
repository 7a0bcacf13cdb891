use scene_core::geom::{identity_matrix, model_matrix, translation_matrix, Vec3};
use scene_core::instance::{
    make_instances, to_raw_all_identity, to_raw_identity, InstanceDesc, Rotation, RotationPolicy,
};
use scene_core::light::{create_light_uniform, update_light};

#[test]
fn grid_is_a_centered_lattice() {
    // Three instances per row, two units apart: nine instances whose
    // coordinates run -3, -1, +1 units in both ground axes.
    let v = make_instances(3, 2000, RotationPolicy::Grid);
    assert_eq!(v.len(), 9);
    let expected = [-3000i64, -1000, 1000];
    for z in 0..3usize {
        for x in 0..3usize {
            let inst = &v[z * 3 + x];
            assert_eq!(inst.position, Vec3::new(expected[x], 0, expected[z]));
            assert_eq!(inst.rotation, Rotation::Identity);
        }
    }
    // Neighbouring instances stand exactly one spacing apart.
    for z in 0..3usize {
        for x in 0..2usize {
            let a = v[z * 3 + x].position;
            let b = v[z * 3 + x + 1].position;
            assert_eq!(b.x - a.x, 2000);
            assert_eq!(b.z, a.z);
        }
    }
}

#[test]
fn grid_count_is_rows_squared() {
    assert_eq!(make_instances(1, 2000, RotationPolicy::Grid).len(), 1);
    assert_eq!(make_instances(4, 2000, RotationPolicy::Grid).len(), 16);
    assert_eq!(make_instances(10, 3000, RotationPolicy::Grid).len(), 100);
}

#[test]
fn tilted_grid_spares_only_the_origin() {
    // Ten rows, three units apart: the instance at the grid's middle
    // stands at the origin and keeps the identity rotation; everything
    // else tilts 45 degrees away from the origin.
    let v = make_instances(10, 3000, RotationPolicy::TiltedGrid);
    assert_eq!(v.len(), 100);
    let center = &v[5 * 10 + 5];
    assert_eq!(center.position, Vec3::new(0, 0, 0));
    assert_eq!(center.rotation, Rotation::Identity);
    let corner = &v[0];
    assert_eq!(corner.position, Vec3::new(-15000, 0, -15000));
    assert_eq!(
        corner.rotation,
        Rotation::AxisAngleMdeg { axis: corner.position, angle_mdeg: 45_000 }
    );
}

#[test]
fn unturned_instance_flattens_to_its_translation() {
    let inst = InstanceDesc { position: Vec3::new(7000, -2000, 500), rotation: Rotation::Identity };
    let raw = to_raw_identity(&inst);
    assert_eq!(raw, translation_matrix(&inst.position));
    // Column-major: the translation sits in column 3.
    assert_eq!(raw[12], 7000);
    assert_eq!(raw[13], -2000);
    assert_eq!(raw[14], 500);
    assert_eq!(raw[15], 1000);
    assert_eq!(raw[0], 1000);
    assert_eq!(raw[5], 1000);
    assert_eq!(raw[10], 1000);
    assert_eq!(raw[3], 0);
}

#[test]
fn grid_flattens_to_one_translation_matrix_per_instance() {
    let v = make_instances(3, 2000, RotationPolicy::Grid);
    let raws = to_raw_all_identity(&v);
    assert_eq!(raws.len(), 9);
    for (inst, raw) in v.iter().zip(raws.iter()) {
        assert_eq!(*raw, translation_matrix(&inst.position));
    }
    // The translation columns of the matrix array form the same lattice
    // as the instances themselves.
    assert_eq!(raws[0][12], -3000);
    assert_eq!(raws[0][14], -3000);
    assert_eq!(raws[1][12] - raws[0][12], 2000);
    assert_eq!(raws[8][12], 1000);
    assert_eq!(raws[8][14], 1000);
}

#[test]
fn flattening_is_pure() {
    let a = InstanceDesc { position: Vec3::new(1000, 2000, 3000), rotation: Rotation::Identity };
    let b = InstanceDesc { position: Vec3::new(1000, 2000, 3000), rotation: Rotation::Identity };
    assert_eq!(to_raw_identity(&a), to_raw_identity(&b));
}

#[test]
fn composing_with_identity_keeps_rotation_columns() {
    let p = Vec3::new(100, 200, 300);
    let rot = identity_matrix();
    let m = model_matrix(&p, &rot);
    for c in 0..3 {
        for r in 0..4 {
            assert_eq!(m[4 * c + r], rot[4 * c + r]);
        }
    }
    assert_eq!(&m[12..16], &[100, 200, 300, 1000]);
}

#[test]
fn light_starts_white_two_units_out() {
    let l = create_light_uniform();
    assert_eq!(l.base, Vec3::new(2000, 2000, 2000));
    assert_eq!(l.angle_deg, 0);
    assert_eq!(l.color, Vec3::new(1000, 1000, 1000));
    assert_eq!(l.padding, 0);
    assert_eq!(l.padding2, 0);
}

#[test]
fn light_orbit_advances_one_degree_and_wraps() {
    let mut l = create_light_uniform();
    update_light(&mut l);
    assert_eq!(l.angle_deg, 1);
    assert_eq!(l.base, Vec3::new(2000, 2000, 2000));
    assert_eq!(l.color, Vec3::new(1000, 1000, 1000));
    for _ in 0..359 {
        update_light(&mut l);
    }
    assert_eq!(l.angle_deg, 0);
}

#[test]
fn light_orbit_keeps_the_radius() {
    // The orbit turns the starting position rigidly, so the distance
    // from the origin is a function of that unchanging start.
    let mut l = create_light_uniform();
    let radius_sq_of = |v: Vec3| v.x * v.x + v.y * v.y + v.z * v.z;
    let before = radius_sq_of(l.base);
    for _ in 0..100 {
        update_light(&mut l);
    }
    assert_eq!(radius_sq_of(l.base), before);
    assert_eq!(l.base, Vec3::new(2000, 2000, 2000));
}

#[test]
fn vector_cross_and_zero() {
    let x = Vec3::new(1000, 0, 0);
    let y = Vec3::new(0, 1000, 0);
    let c = x.cross(&y);
    assert_eq!(c, Vec3::new(0, 0, 1_000_000));
    assert!(Vec3::zero().is_zero());
    assert!(!x.is_zero());
    let d = x.sub(&y);
    assert_eq!(d, Vec3::new(1000, -1000, 0));
    // Parallel vectors have a vanishing cross product.
    let p = Vec3::new(2000, -4000, 6000);
    let q = Vec3::new(-1000, 2000, -3000);
    assert!(p.cross(&q).is_zero());
}

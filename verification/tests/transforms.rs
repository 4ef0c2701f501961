//! Transform round trips over translations and rotations, mirroring the
//! renderer's own regression cases.

use rusty_rays::fixed::{FX_ONE, FX_MAX};
use rusty_rays::ray::Ray;
use rusty_rays::transform::Transform;
use rusty_rays::vector::{vec3, Vec3};

/// Squared-distance tolerance of about one part in ten thousand.
const TOL: i64 = 7;

fn assert_close_vec(a: Vec3, b: Vec3) {
    let diff = a.sub(b).magnitude_squared();
    assert!(diff < TOL, "vectors differ: {:?} vs {:?} (diff {})", a, b, diff);
}

#[test]
fn test_transforms() {
    let x = vec3(FX_ONE, 0, 0);
    let y = vec3(0, FX_ONE, 0);
    let z = vec3(0, 0, FX_ONE);

    let translate_x = Transform::new_translate(x);
    let translate_y = Transform::new_translate(y);
    let translate_z = Transform::new_translate(z);

    let x_t_x = translate_x.fpt(x);
    let y_t_x = translate_x.fpt(y);
    let z_t_x = translate_x.fpt(z);

    let x_t_y = translate_y.fpt(x);
    let y_t_y = translate_y.fpt(y);
    let z_t_y = translate_y.fpt(z);

    let x_t_z = translate_z.fpt(x);
    let y_t_z = translate_z.fpt(y);
    let z_t_z = translate_z.fpt(z);

    assert_close_vec(x_t_x, vec3(2 * FX_ONE, 0, 0));
    assert_close_vec(y_t_x, vec3(FX_ONE, FX_ONE, 0));
    assert_close_vec(z_t_x, vec3(FX_ONE, 0, FX_ONE));

    assert_close_vec(x_t_y, vec3(FX_ONE, FX_ONE, 0));
    assert_close_vec(y_t_y, vec3(0, 2 * FX_ONE, 0));
    assert_close_vec(z_t_y, vec3(0, FX_ONE, FX_ONE));

    assert_close_vec(x_t_z, vec3(FX_ONE, 0, FX_ONE));
    assert_close_vec(y_t_z, vec3(0, FX_ONE, FX_ONE));
    assert_close_vec(z_t_z, vec3(0, 0, 2 * FX_ONE));

    assert_close_vec(translate_x.ipt(x_t_x), x);
    assert_close_vec(translate_x.ipt(y_t_x), y);
    assert_close_vec(translate_x.ipt(z_t_x), z);

    assert_close_vec(translate_y.ipt(x_t_y), x);
    assert_close_vec(translate_y.ipt(y_t_y), y);
    assert_close_vec(translate_y.ipt(z_t_y), z);

    assert_close_vec(translate_z.ipt(x_t_z), x);
    assert_close_vec(translate_z.ipt(y_t_z), y);
    assert_close_vec(translate_z.ipt(z_t_z), z);

    let theta = rusty_rays::common::FX_PI;
    let rotate_x = Transform::new_rotate_x(theta);
    let rotate_y = Transform::new_rotate_y(theta);
    let rotate_z = Transform::new_rotate_z(theta);

    let x_r_x = rotate_x.fpt(x);
    let y_r_x = rotate_x.fpt(y);
    let z_r_x = rotate_x.fpt(z);

    let x_r_y = rotate_y.fpt(x);
    let y_r_y = rotate_y.fpt(y);
    let z_r_y = rotate_y.fpt(z);

    let x_r_z = rotate_z.fpt(x);
    let y_r_z = rotate_z.fpt(y);
    let z_r_z = rotate_z.fpt(z);

    assert_close_vec(rotate_x.ipt(x_r_x), x);
    assert_close_vec(rotate_x.ipt(y_r_x), y);
    assert_close_vec(rotate_x.ipt(z_r_x), z);

    assert_close_vec(rotate_y.ipt(x_r_y), x);
    assert_close_vec(rotate_y.ipt(y_r_y), y);
    assert_close_vec(rotate_y.ipt(z_r_y), z);

    assert_close_vec(rotate_z.ipt(x_r_z), x);
    assert_close_vec(rotate_z.ipt(y_r_z), y);
    assert_close_vec(rotate_z.ipt(z_r_z), z);

    let ray_xy = Ray::new_non_differential(x, y, 0, FX_MAX, 0);
    let ray_yz = Ray::new_non_differential(y, z, 0, FX_MAX, 0);
    let ray_zx = Ray::new_non_differential(z, x, 0, FX_MAX, 0);

    let xy_t_x = translate_x.fray(&ray_xy);
    let yz_t_x = translate_x.fray(&ray_yz);
    let zx_t_x = translate_x.fray(&ray_zx);

    assert_close_vec(xy_t_x.origin, ray_xy.origin.add(x));
    assert_close_vec(yz_t_x.origin, ray_yz.origin.add(x));
    assert_close_vec(zx_t_x.origin, ray_zx.origin.add(x));

    assert_close_vec(xy_t_x.direction, ray_xy.direction);
    assert_close_vec(yz_t_x.direction, ray_yz.direction);
    assert_close_vec(zx_t_x.direction, ray_zx.direction);
}

#[test]
fn rotation_and_scale_round_trips() {
    let theta = rusty_rays::common::FX_PI_4;
    let rot = Transform::new_rotate_y(theta);
    let p = vec3(3 * FX_ONE, -2 * FX_ONE, FX_ONE);
    assert_close_vec(rot.ipt(rot.fpt(p)), p);
    let scale = Transform::new_scale(vec3(2 * FX_ONE, FX_ONE, FX_ONE / 2));
    assert_close_vec(scale.ipt(scale.fpt(p)), p);
    let v = vec3(FX_ONE, FX_ONE, FX_ONE);
    assert_close_vec(rot.ivec(&rot.fvec(&v)), v);
    assert_close_vec(scale.ivec(&scale.fvec(&v)), v);
    let compound = Transform::new_translate(vec3(FX_ONE, 0, 0)).compose(
        Transform::new_translate(vec3(0, FX_ONE, 0)),
    );
    assert_close_vec(compound.ipt(compound.fpt(p)), p);
    // a rotation after a translation, applied and undone in reverse order
    let tr = Transform::new_translate(vec3(FX_ONE, 2 * FX_ONE, 0));
    let forward = rot.fpt(tr.fpt(p));
    assert_close_vec(tr.ipt(rot.ipt(forward)), p);
}

#[test]
fn ray_transform_round_trip_lookat() {
    let t = Transform::new_lookat(
        vec3(10 * FX_ONE, 10 * FX_ONE, 10 * FX_ONE),
        vec3(0, 0, 0),
        vec3(0, FX_ONE, 0),
    );
    let r = Ray::new_non_differential(
        vec3(FX_ONE, 2 * FX_ONE, 3 * FX_ONE),
        vec3(0, 0, FX_ONE),
        0,
        FX_MAX,
        0,
    );
    let back = t.fray(&t.iray(&r));
    assert_close_vec(back.origin, r.origin);
    assert_close_vec(back.direction, r.direction);
    assert_eq!(back.t_min, r.t_min);
    assert_eq!(back.t_max, r.t_max);
}

#[test]
fn forward_inverse_composes_to_identity() {
    let t = Transform::new_translate(vec3(5 * FX_ONE, -3 * FX_ONE, FX_ONE));
    let prod = Transform::new(
        t.forward_matrix().mat_mul(*t.inverse_matrix()),
        t.inverse_matrix().mat_mul(*t.forward_matrix()),
    );
    let id = Transform::new_identity();
    assert_eq!(prod.forward_matrix(), id.forward_matrix());

    let rot = Transform::new_rotate_z(rusty_rays::common::FX_PI_2);
    let rprod = rot.forward_matrix().mat_mul(*rot.inverse_matrix());
    // rotation entries are approximate; check the product is close to the
    // identity entrywise
    let idm = rusty_rays::matrix::Matrix4::identity();
    assert!((rprod.m00 - idm.m00).abs() < 600);
    assert!((rprod.m11 - idm.m11).abs() < 600);
    assert!((rprod.m22 - idm.m22).abs() < 600);
    assert!(rprod.m01.abs() < 600 && rprod.m10.abs() < 600);
}

#[test]
fn new_from_forward_inverts_translation() {
    let fwd = *Transform::new_translate(vec3(FX_ONE, 2 * FX_ONE, 3 * FX_ONE)).forward_matrix();
    let t = Transform::new_from_forward(fwd).expect("translation is invertible");
    let p = vec3(4 * FX_ONE, 5 * FX_ONE, 6 * FX_ONE);
    assert_close_vec(t.ipt(t.fpt(p)), p);
}

//! The camera transform and the end-to-end render loop.

use raytrace::fixed::{fx_div, ONE};
use raytrace::vec3::V3;
use raytrace::mat4::{M4, V4};
use raytrace::camera::Camera;
use raytrace::scene::Scene;

fn demo_camera() -> Camera {
    Camera::new(V3::new(-5 * ONE, 0, 0), V3::new(ONE, 0, 0))
}

#[test]
fn camera_defaults() {
    let c = demo_camera();
    assert_eq!(c.up, V3::new(0, 0, ONE));
    assert_eq!(c.near, 6554);
    assert_eq!(c.far, 10 * ONE);
    assert_eq!(c.fovy, ONE);
    assert_eq!(c.aspect_ratio, ONE);
}

#[test]
fn camera_setters_chain() {
    let c = demo_camera().up(V3::new(0, ONE, 0)).near(ONE / 2).far(20 * ONE).fovy(
        ONE / 2,
    ).aspect_ratio(2 * ONE);
    assert_eq!(c.up, V3::new(0, ONE, 0));
    assert_eq!(c.near, ONE / 2);
    assert_eq!(c.far, 20 * ONE);
    assert_eq!(c.fovy, ONE / 2);
    assert_eq!(c.aspect_ratio, 2 * ONE);
}

#[test]
fn transform_is_invertible_and_round_trips() {
    let m = demo_camera().transform();
    assert_ne!(m.det(), 0);
    let inv = m.invert().expect("camera transform must be invertible");
    // push the look-at center through the transform and pull it back
    let p = V4 { x: ONE, y: 0, z: 0, w: ONE };
    let clip = m.mul_v4(&p);
    let back = inv.mul_v4(&clip);
    let rx = fx_div(back.x, back.w);
    let ry = fx_div(back.y, back.w);
    let rz = fx_div(back.z, back.w);
    assert!((rx - p.x).abs() <= 100, "x came back as {rx}");
    assert!((ry - p.y).abs() <= 100, "y came back as {ry}");
    assert!((rz - p.z).abs() <= 100, "z came back as {rz}");
}

#[test]
fn trig_series_values() {
    // the truncated Maclaurin series at half a radian, against the true
    // values sin(0.5) = 0.47942.. (31419.6 fixed) and cos(0.5) =
    // 0.87758.. (57513.3 fixed)
    assert_eq!(raytrace::camera::sin_fx(32768), 31420);
    assert_eq!(raytrace::camera::cos_fx(32768), 57513);
    assert_eq!(raytrace::camera::sin_fx(0), 0);
    assert_eq!(raytrace::camera::cos_fx(0), ONE);
}

#[test]
fn transform_golden_entries() {
    // the demo camera looks down +X with +Z up: the view rows permute
    // the axes, and the projection scales by cot(0.5) = 1.8305 (119960
    // fixed, from the series values 57513 / 31420)
    let m = demo_camera().transform();
    assert_eq!(
        (m.e00, m.e01, m.e02, m.e03),
        (0, -119960, 0, 0),
    );
    assert_eq!(
        (m.e10, m.e11, m.e12, m.e13),
        (0, 0, 119960, 0),
    );
    assert_eq!(
        (m.e20, m.e21, m.e22, m.e23),
        (66860, 0, 0, 321060),
    );
    assert_eq!(
        (m.e30, m.e31, m.e32, m.e33),
        (65536, 0, 0, 327680),
    );
}

#[test]
fn identity_matrix_inverts_to_itself() {
    let id = M4::identity();
    assert_eq!(id.det(), ONE);
    assert_eq!(id.invert(), Some(id));
    let v = V4 { x: ONE, y: 2 * ONE, z: -3 * ONE, w: ONE };
    assert_eq!(id.mul_v4(&v), v);
    assert_eq!(id.matmul(&id), id);
}

fn demo_scene() -> Scene {
    Scene::new(demo_camera().transform())
        .ambient(V3::new(19661, 19661, 19661))
        .add_light(V3::new(-ONE / 2, -2 * ONE, 0), ONE, V3::new(ONE, ONE, ONE))
        .add_sphere(V3::new(4 * ONE, 0, 3 * ONE), 3 * ONE, V3::new(ONE, 15073, 30802))
        .add_sphere(V3::new(ONE, 0, 0), ONE, V3::new(13763, 6554, 30802))
}

#[test]
fn render_is_deterministic() {
    let a = demo_scene().render(4, 4).expect("camera must be invertible");
    let b = demo_scene().render(4, 4).expect("camera must be invertible");
    assert_eq!(a.len(), 48);
    assert_eq!(a, b);
}

#[test]
fn render_golden_grid() {
    let img = demo_scene().render(4, 4).expect("camera must be invertible");
    assert_eq!(img, vec![
        76, 76, 76, 112, 24, 52, 166, 34, 78, 76, 76, 76,
        76, 76, 76, 76, 17, 35, 193, 39, 90, 76, 76, 76,
        76, 76, 76, 76, 76, 76, 76, 76, 76, 76, 76, 76,
        76, 76, 76, 76, 76, 76, 76, 76, 76, 76, 76, 76,
    ]);
}

#[test]
fn render_non_invertible_camera_is_none() {
    let zero = M4::new(0, 0, 0, 0, 0, 0, 0, 0, 0, 0, 0, 0, 0, 0, 0, 0);
    let scene = Scene::new(zero);
    assert_eq!(scene.render(2, 2), None);
}

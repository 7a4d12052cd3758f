//! The shading trace: ambient fallbacks, the Lambertian formula, and the
//! shadow branch, on scenes built by hand.

use raytrace::fixed::ONE;
use raytrace::vec3::V3;
use raytrace::ray::Ray;
use raytrace::mat4::M4;
use raytrace::scene::Scene;

fn white() -> V3 {
    V3::new(ONE, ONE, ONE)
}

#[test]
fn trace_empty_scene_returns_ambient() {
    let scene = Scene::new(M4::identity()).ambient(V3::new(100, 200, 300));
    let r = Ray::new(V3::new(0, 0, 0), V3::new(ONE, 0, 0));
    assert_eq!(scene.trace(&r), V3::new(100, 200, 300));
    let r2 = Ray::new(V3::new(5 * ONE, -2 * ONE, ONE), V3::new(0, 0, -ONE));
    assert_eq!(scene.trace(&r2), V3::new(100, 200, 300));
}

#[test]
fn trace_hit_without_lights_returns_ambient() {
    let scene = Scene::new(M4::identity())
        .ambient(V3::new(100, 200, 300))
        .add_sphere(V3::new(3 * ONE, 0, 0), ONE, white());
    let r = Ray::new(V3::new(0, 0, 0), V3::new(ONE, 0, 0));
    // the sphere is hit, but the light loop body never executes
    assert_eq!(scene.trace(&r), V3::new(100, 200, 300));
}

#[test]
fn trace_one_light_unobstructed_lambertian() {
    // hit point (2, 0, 0) on the sphere at (3, 0, 0); light at the
    // origin, so the light direction is exactly -X and the Lambertian
    // term is exactly one; default ambient is 0.2 per channel
    let scene = Scene::new(M4::identity())
        .add_sphere(V3::new(3 * ONE, 0, 0), ONE, white())
        .add_light(V3::new(0, 0, 0), ONE, white());
    let r = Ray::new(V3::new(0, 0, 0), V3::new(ONE, 0, 0));
    // color * (ambient + diffuse * 1) with diffuse (0.5, 0.4, 0.5)
    assert_eq!(scene.trace(&r), V3::new(13107 + 32768, 13107 + 26214, 13107 + 32768));
}

#[test]
fn trace_light_behind_surface_clamps_lambert() {
    // the light sits on the far side of the surface: the Lambertian dot
    // product is negative and clamps to zero, leaving ambient modulation
    let scene = Scene::new(M4::identity())
        .add_sphere(V3::new(3 * ONE, 0, 0), ONE, white())
        .add_light(V3::new(5 * ONE, 0, 0), ONE, white());
    let r = Ray::new(V3::new(0, 0, 0), V3::new(ONE, 0, 0));
    assert_eq!(scene.trace(&r), V3::new(13107, 13107, 13107));
}

#[test]
fn trace_grazing_light_fractional_lambert() {
    // the light stands at forty-five degrees off the surface normal:
    // lambert is cos(45) to fixed precision (46341), so the diffuse term
    // comes to (23170, 18536, 23170) on top of the 0.2 ambient
    let scene = Scene::new(M4::identity())
        .add_sphere(V3::new(3 * ONE, 0, 0), ONE, white())
        .add_light(V3::new(ONE, ONE, 0), ONE, white());
    let r = Ray::new(V3::new(0, 0, 0), V3::new(ONE, 0, 0));
    assert_eq!(scene.trace(&r), V3::new(36277, 31643, 36277));
}

#[test]
fn trace_occluded_light_gives_shadow() {
    // the ray hits sphere A at (-1, 0, 0); the shadow ray runs straight
    // up (+Y) toward the light and passes through sphere B, so the
    // result is A's colour modulated by ambient alone
    let scene = Scene::new(M4::identity())
        .add_sphere(V3::new(0, 0, 0), ONE, V3::new(ONE, ONE / 2, ONE / 4))
        .add_sphere(V3::new(-ONE, 2 * ONE, 0), ONE, white())
        .add_light(V3::new(-ONE, 4 * ONE, 0), ONE, white());
    let r = Ray::new(V3::new(-6 * ONE, 0, 0), V3::new(ONE, 0, 0));
    assert_eq!(scene.trace(&r), V3::new(13107, 6553, 3276));
}

#[test]
fn trace_nearest_sphere_wins() {
    // both spheres lie on the ray; with no lights the result is ambient
    // either way, so distinguish through the shadowless Lambertian path:
    // nearer sphere at (3,0,0) is the one shaded
    let scene = Scene::new(M4::identity())
        .add_sphere(V3::new(5 * ONE, 0, 0), ONE, V3::new(0, 0, 0))
        .add_sphere(V3::new(3 * ONE, 0, 0), ONE, white())
        .add_light(V3::new(0, 0, 0), ONE, white());
    let r = Ray::new(V3::new(0, 0, 0), V3::new(ONE, 0, 0));
    // same configuration as the unobstructed test: the far sphere does
    // not block the shadow ray back toward the light
    assert_eq!(scene.trace(&r), V3::new(13107 + 32768, 13107 + 26214, 13107 + 32768));
}

#[test]
fn builder_accumulates() {
    let scene = Scene::new(M4::identity())
        .add_sphere(V3::new(0, 0, 0), ONE, white())
        .add_sphere(V3::new(ONE, 0, 0), 2 * ONE, white())
        .add_light(V3::new(0, ONE, 0), ONE, white());
    assert_eq!(scene.spheres.len(), 2);
    assert_eq!(scene.lights.len(), 1);
    assert_eq!(scene.spheres[1].radius, 2 * ONE);
    assert_eq!(scene.ambient, V3::new(13107, 13107, 13107));
}

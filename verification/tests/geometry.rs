//! Rays and spheres: normalisation at construction, points along a ray,
//! and the exact intersection boundary cases.

use raytrace::fixed::ONE;
use raytrace::vec3::V3;
use raytrace::ray::Ray;
use raytrace::sphere::Sphere;

#[test]
fn ray_direction_normalized_axis() {
    let r = Ray::new(V3::new(0, 0, 0), V3::new(0, 0, 5 * ONE));
    assert_eq!(r.dir, V3::new(0, 0, ONE));
    assert_eq!(r.dir.dot(&r.dir), ONE);
}

#[test]
fn ray_direction_normalized_diagonal() {
    // a 3-4-5 triangle: each component is the exact truncated quotient,
    // and the squared length lands within a few ulps of one
    let r = Ray::new(V3::new(0, 0, 0), V3::new(3 * ONE, 4 * ONE, 0));
    assert_eq!(r.dir, V3::new(39321, 52428, 0));
    assert_eq!(r.dir.dot(&r.dir), 65533);
    assert!((r.dir.dot(&r.dir) - ONE).abs() <= 10);
}

#[test]
fn point_at_zero_is_origin() {
    let r = Ray::new(V3::new(ONE, 2 * ONE, -3 * ONE), V3::new(0, ONE, 0));
    assert_eq!(r.point_at(0), V3::new(ONE, 2 * ONE, -3 * ONE));
}

#[test]
fn point_at_is_affine_along_the_ray() {
    let r = Ray::new(V3::new(ONE, 0, 0), V3::new(ONE, 0, 0));
    assert_eq!(r.point_at(2 * ONE), V3::new(3 * ONE, 0, 0));
    assert_eq!(r.point_at(-ONE), V3::new(0, 0, 0));
    assert_eq!(r.point_at(ONE / 2), V3::new(3 * ONE / 2, 0, 0));
}

#[test]
fn intersect_from_center_hits_at_minus_radius() {
    // the documented formula gives t == -radius when the origin is the
    // center: v == 0, so v - min(d, v + d) == -d == -radius
    let s = Sphere::new(V3::new(0, 0, 0), 2 * ONE, V3::new(ONE, ONE, ONE));
    let r = Ray::new(V3::new(0, 0, 0), V3::new(ONE, 0, 0));
    assert_eq!(s.intersect(&r), Some(-2 * ONE));
}

#[test]
fn intersect_ahead_hits_near_root() {
    let s = Sphere::new(V3::new(3 * ONE, 0, 0), ONE, V3::new(ONE, ONE, ONE));
    let r = Ray::new(V3::new(0, 0, 0), V3::new(ONE, 0, 0));
    assert_eq!(s.intersect(&r), Some(2 * ONE));
}

#[test]
fn intersect_perpendicular_miss() {
    // center is 3 units off a ray of radius 1: d2 > r2, no hit
    let s = Sphere::new(V3::new(0, 3 * ONE, 0), ONE, V3::new(ONE, ONE, ONE));
    let r = Ray::new(V3::new(0, 0, 0), V3::new(ONE, 0, 0));
    assert_eq!(s.intersect(&r), None);
}

#[test]
fn intersect_behind_is_rejected() {
    // the center lies behind the origin along the ray: v < 0, no hit,
    // even though the line through the ray would cross the sphere
    let s = Sphere::new(V3::new(-3 * ONE, 0, 0), ONE, V3::new(ONE, ONE, ONE));
    let r = Ray::new(V3::new(0, 0, 0), V3::new(ONE, 0, 0));
    assert_eq!(s.intersect(&r), None);
}

#[test]
fn vector_ops() {
    let x = V3::new(ONE, 0, 0);
    let y = V3::new(0, ONE, 0);
    assert_eq!(x.cross(&y), V3::new(0, 0, ONE));
    assert_eq!(y.cross(&x), V3::new(0, 0, -ONE));
    assert_eq!(V3::new(3 * ONE, 4 * ONE, 0).length(), 5 * ONE);
    assert_eq!(x.add(&y), V3::new(ONE, ONE, 0));
    assert_eq!(x.sub(&y), V3::new(ONE, -ONE, 0));
    assert_eq!(V3::new(ONE, 2 * ONE, 0).scale(ONE / 2), V3::new(ONE / 2, ONE, 0));
    assert_eq!(V3::new(ONE, ONE / 2, 0).cmul(&V3::new(ONE / 2, ONE / 2, ONE)), V3::new(
        ONE / 2,
        ONE / 4,
        0,
    ));
}

#[test]
fn sphere_equality_is_structural() {
    let a = Sphere::new(V3::new(0, 0, 0), ONE, V3::new(1, 2, 3));
    let b = Sphere::new(V3::new(0, 0, 0), ONE, V3::new(1, 2, 3));
    let c = Sphere::new(V3::new(0, 0, 0), ONE, V3::new(1, 2, 4));
    assert_eq!(a, b);
    assert_ne!(a, c);
}

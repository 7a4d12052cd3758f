//! A small ray-tracing renderer over 16.16 fixed-point arithmetic.
//!
//! Scenes hold spheres, point lights (spheres reused as lights) and an
//! ambient colour; a camera transform turns pixels into world-space rays,
//! and `Scene::render` produces a row-major grid of RGB byte triples.
//! Every scalar is an `i64` in 16.16 fixed point, so the whole pipeline
//! is exact integer arithmetic with saturation at a fixed band.

pub mod fixed;
pub mod vec3;
pub mod mat4;
pub mod ray;
pub mod sphere;
pub mod scene;
pub mod camera;

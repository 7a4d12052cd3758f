//! Spheres: the only geometric primitive. The same struct serves as a
//! renderable surface and, reused verbatim, as a point light (the radius
//! and colour fields then read as light extent and intensity).

use vstd::prelude::*;
use crate::fixed::{SAT, in_band, fx_add_v, fx_sub_v, fx_mul_v, fx_sqrt_v, fx_add, fx_sub,
    fx_mul, fx_sqrt, lemma_tdiv_sign, lemma_isqrt, ONE};
use crate::vec3::{V3, V3v, v3_ok, v3_sub_v, v3_dot_v};
use crate::ray::{Ray, Rayv, ray_ok};

verus! {

/// A sphere with a flat colour. Equality is structural, and is what
/// excludes the hit surface itself from its own shadow test.
#[derive(Clone, Copy, PartialEq, Eq, Structural, Debug)]
pub struct Sphere {
    pub center: V3,
    pub radius: i64,
    pub color: V3,
}

/// The mathematical view of a `Sphere`.
pub ghost struct Spherev {
    pub center: V3v,
    pub radius: int,
    pub color: V3v,
}

impl View for Sphere {
    type V = Spherev;

    open spec fn view(&self) -> Spherev {
        Spherev { center: self.center@, radius: self.radius as int, color: self.color@ }
    }
}

/// Band-validity plus the data-model invariant that the radius is
/// positive.
pub open spec fn sphere_ok(s: Spherev) -> bool {
    v3_ok(s.center) && 1 <= s.radius <= SAT as int && v3_ok(s.color)
}

/// The analytic ray-sphere test. Project the center onto the ray: with
/// `l = center - origin` and `v = dot(l, dir)`, a center behind the
/// origin (`v < 0`) is no hit; a perpendicular distance beyond the radius
/// (`d2 > r2`) is no hit; otherwise the hit parameter is
/// `v - min(d, v + d)` with `d = sqrt(r2 - d2)`, kept in this exact form.
pub open spec fn intersect_v(s: Spherev, r: Rayv) -> Option<int> {
    let l = v3_sub_v(s.center, r.origin);
    let v = v3_dot_v(l, r.dir);
    if v < 0 {
        None
    } else {
        let d2 = fx_sub_v(v3_dot_v(l, l), fx_mul_v(v, v));
        let r2 = fx_mul_v(s.radius, s.radius);
        if d2 > r2 {
            None
        } else {
            let d = fx_sqrt_v(fx_sub_v(r2, d2));
            let vd = fx_add_v(v, d);
            let m = if d < vd { d } else { vd };
            Some(fx_sub_v(v, m))
        }
    }
}

impl Sphere {
    /// Build a sphere; the radius must be positive.
    pub fn new(center: V3, radius: i64, color: V3) -> (s: Sphere)
        requires
            v3_ok(center@),
            1 <= radius <= SAT,
            v3_ok(color@),
        ensures
            s@ == (Spherev { center: center@, radius: radius as int, color: color@ }),
            sphere_ok(s@),
    {
        Sphere { center, radius, color }
    }

    /// The hit parameter of `ray` against this sphere, or `None` when the
    /// ray misses it (or points away from its center).
    pub fn intersect(&self, ray: &Ray) -> (res: Option<i64>)
        requires
            sphere_ok(self@),
            ray_ok(ray@),
        ensures
            match res {
                None => intersect_v(self@, ray@) is None,
                Some(t) => intersect_v(self@, ray@) == Some(t as int) && in_band(t as int),
            },
    {
        let l = self.center.sub(&ray.origin);
        let v = l.dot(&ray.dir);
        if v < 0 {
            return None;
        }
        let d2 = fx_sub(l.dot(&l), fx_mul(v, v));
        let r2 = fx_mul(self.radius, self.radius);
        if d2 > r2 {
            return None;
        }
        let d = fx_sqrt(fx_sub(r2, d2));
        let vd = fx_add(v, d);
        let m = if d < vd { d } else { vd };
        Some(fx_sub(v, m))
    }
}

/// A ray cast from the very center of a sphere always reports a hit, and
/// the hit parameter is exactly minus the fixed square root of the
/// squared radius — the form the intersection formula produces on this
/// boundary case.
pub proof fn lemma_hit_from_center(s: Spherev, r: Rayv)
    requires
        sphere_ok(s),
        ray_ok(r),
        r.origin == s.center,
    ensures
        intersect_v(s, r) == Some(-fx_sqrt_v(fx_mul_v(s.radius, s.radius))),
{
    let l = v3_sub_v(s.center, r.origin);
    assert(l.x == 0 && l.y == 0 && l.z == 0);
    let v = v3_dot_v(l, r.dir);
    assert(fx_mul_v(0, r.dir.x) == 0);
    assert(fx_mul_v(0, r.dir.y) == 0);
    assert(fx_mul_v(0, r.dir.z) == 0);
    assert(v == 0);
    assert(v3_dot_v(l, l) == 0);
    assert(fx_mul_v(v, v) == 0);
    let r2 = fx_mul_v(s.radius, s.radius);
    assert(s.radius * s.radius >= 0) by (nonlinear_arith);
    lemma_tdiv_sign(s.radius * s.radius, ONE as int);
    assert(r2 >= 0);
    let d2 = fx_sub_v(v3_dot_v(l, l), fx_mul_v(v, v));
    assert(d2 == 0);
    let diff = fx_sub_v(r2, d2);
    assert(diff == r2);
    let d = fx_sqrt_v(r2);
    assert(0 <= d <= SAT as int) by {
        if r2 > 0 {
            lemma_isqrt((r2 * (ONE as int)) as nat);
            assert(fx_sqrt_v(r2) * fx_sqrt_v(r2) <= r2 * (ONE as int));
            assert(fx_sqrt_v(r2) <= SAT as int) by (nonlinear_arith)
                requires
                    fx_sqrt_v(r2) * fx_sqrt_v(r2) <= r2 * (ONE as int),
                    0 <= fx_sqrt_v(r2),
                    r2 <= SAT as int,
            ;
        }
    };
    let vd = fx_add_v(v, d);
    assert(vd == d);
    assert(fx_sub_v(v, d) == -d);
}

/// A ray whose origin the sphere center lies behind (`v < 0`), or whose
/// squared perpendicular distance exceeds the squared radius, reports no
/// hit.
pub proof fn lemma_miss(s: Spherev, r: Rayv)
    requires
        ({
            let l = v3_sub_v(s.center, r.origin);
            let v = v3_dot_v(l, r.dir);
            ||| v < 0
            ||| fx_sub_v(v3_dot_v(l, l), fx_mul_v(v, v)) > fx_mul_v(s.radius, s.radius)
        }),
    ensures
        intersect_v(s, r) is None,
{
}

} // verus!

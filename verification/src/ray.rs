//! Parametric half-lines: an origin plus a direction that is normalised
//! at construction.

use vstd::prelude::*;
use crate::fixed::{ONE, HALF, in_band, fx_add_v, fx_sub_v, fx_mul_v, fx_div_v, fx_add, fx_sub,
    fx_div};
use crate::vec3::{V3, V3v, v3_ok, v3_add_v, v3_sub_v, v3_scale_v, v3_normalize_v};
use crate::mat4::{M4, M4v, V4, V4v, m4_ok, det_v, inv_v, mul_v4_v};

verus! {

/// A ray: `origin + t * dir`. The direction is normalised when the ray
/// is built.
#[derive(Clone, Copy, PartialEq, Eq, Structural, Debug)]
pub struct Ray {
    pub origin: V3,
    pub dir: V3,
}

/// The mathematical view of a `Ray`.
pub ghost struct Rayv {
    pub origin: V3v,
    pub dir: V3v,
}

impl View for Ray {
    type V = Rayv;

    open spec fn view(&self) -> Rayv {
        Rayv { origin: self.origin@, dir: self.dir@ }
    }
}

pub open spec fn ray_ok(r: Rayv) -> bool {
    v3_ok(r.origin) && v3_ok(r.dir)
}

/// The point `origin + dir * t` in fixed-point arithmetic.
pub open spec fn point_at_v(r: Rayv, t: int) -> V3v {
    v3_add_v(r.origin, v3_scale_v(r.dir, t))
}

/// What a pixel's ray is: the two clip-space points at depths `-1` and
/// `+1` under the pixel are pulled back through the inverse camera
/// transform and divided by their homogeneous coordinate; the ray runs
/// from the near point toward the far point. `None` exactly when the
/// camera transform is not invertible.
#[verifier::opaque]
pub open spec fn through_screen_v(x: int, y: int, w: int, h: int, m: M4v) -> Option<Rayv> {
    if det_v(m) == 0 {
        None
    } else {
        let sx = fx_sub_v(fx_add_v(fx_div_v(fx_add_v(x, HALF as int), w),
            fx_div_v(fx_add_v(x, HALF as int), w)), ONE as int);
        let sy = -fx_sub_v(fx_add_v(fx_div_v(fx_add_v(y, HALF as int), h),
            fx_div_v(fx_add_v(y, HALF as int), h)), ONE as int);
        let inv = inv_v(m);
        let wp0 = mul_v4_v(inv, V4v { x: sx, y: sy, z: -(ONE as int), w: ONE as int });
        let q0 = V4v {
            x: fx_div_v(wp0.x, wp0.w),
            y: fx_div_v(wp0.y, wp0.w),
            z: fx_div_v(wp0.z, wp0.w),
            w: fx_div_v(wp0.w, wp0.w),
        };
        let wp1 = mul_v4_v(inv, V4v { x: sx, y: sy, z: ONE as int, w: ONE as int });
        let q1 = V4v {
            x: fx_div_v(wp1.x, wp1.w),
            y: fx_div_v(wp1.y, wp1.w),
            z: fx_div_v(wp1.z, wp1.w),
            w: fx_div_v(wp1.w, wp1.w),
        };
        let d = V3v {
            x: fx_sub_v(q1.x, q0.x),
            y: fx_sub_v(q1.y, q0.y),
            z: fx_sub_v(q1.z, q0.z),
        };
        Some(Rayv { origin: V3v { x: q0.x, y: q0.y, z: q0.z }, dir: v3_normalize_v(d) })
    }
}

impl Ray {
    /// Build a ray; the direction is stored normalised. A zero direction
    /// (one whose fixed-point length is zero) comes out as the zero
    /// vector; callers are expected not to pass one.
    pub fn new(origin: V3, direction: V3) -> (r: Ray)
        requires
            v3_ok(origin@),
            v3_ok(direction@),
        ensures
            r@.origin == origin@,
            r@.dir == v3_normalize_v(direction@),
            ray_ok(r@),
    {
        Ray { origin, dir: direction.normalize() }
    }

    /// The point `origin + dir * t`; `t` may be negative.
    pub fn point_at(&self, t: i64) -> (r: V3)
        requires
            ray_ok(self@),
            in_band(t as int),
        ensures
            r@ == point_at_v(self@, t as int),
            v3_ok(r@),
    {
        self.origin.add(&self.dir.scale(t))
    }

    /// The world-space ray through pixel `(x, y)` of a `w` by `h` screen,
    /// under the camera transform `m`. All four scalars are fixed-point
    /// values. Returns `None` exactly when `m` is not invertible (its
    /// fixed-point determinant is zero).
    #[verifier::rlimit(80)]
    pub fn through_screen(x: i64, y: i64, w: i64, h: i64, m: &M4) -> (r: Option<Ray>)
        requires
            in_band(x as int),
            in_band(y as int),
            in_band(w as int),
            in_band(h as int),
            m4_ok(m@),
        ensures
            r is None <==> det_v(m@) == 0,
            r matches Some(ray) ==> through_screen_v(x as int, y as int, w as int, h as int, m@)
                == Some(ray@) && ray_ok(ray@),
    {
        proof {
            reveal(through_screen_v);
        }
        let inv = match m.invert() {
            None => {
                return None;
            },
            Some(i) => i,
        };
        let a = fx_div(fx_add(x, HALF), w);
        let sx = fx_sub(fx_add(a, a), ONE);
        let b = fx_div(fx_add(y, HALF), h);
        let sy = -fx_sub(fx_add(b, b), ONE);
        let wp0 = inv.mul_v4(&V4 { x: sx, y: sy, z: -ONE, w: ONE });
        let q0 = V3 {
            x: fx_div(wp0.x, wp0.w),
            y: fx_div(wp0.y, wp0.w),
            z: fx_div(wp0.z, wp0.w),
        };
        let wp1 = inv.mul_v4(&V4 { x: sx, y: sy, z: ONE, w: ONE });
        let q1 = V3 {
            x: fx_div(wp1.x, wp1.w),
            y: fx_div(wp1.y, wp1.w),
            z: fx_div(wp1.z, wp1.w),
        };
        let d = q1.sub(&q0);
        Some(Ray { origin: q0, dir: d.normalize() })
    }
}

/// The normalisation invariant for rays: a ray built from a direction
/// that is well inside the band and of real length at least one stores a
/// direction whose fixed squared length is within a few ulps of one.
pub proof fn lemma_ray_new_unit(direction: V3v)
    requires
        crate::fixed::abs_v(direction.x) <= 0x800_0000,
        crate::fixed::abs_v(direction.y) <= 0x800_0000,
        crate::fixed::abs_v(direction.z) <= 0x800_0000,
        crate::vec3::v3_dot_v(direction, direction) >= ONE as int,
    ensures
        ({
            let d = v3_normalize_v(direction);
            (ONE as int) - 10 <= crate::vec3::v3_dot_v(d, d) <= (ONE as int) + 5
        }),
{
    crate::vec3::lemma_normalize_unit(direction);
}

/// `point_at(0)` is exactly the ray's origin.
pub proof fn lemma_point_at_zero(r: Rayv)
    requires
        ray_ok(r),
    ensures
        point_at_v(r, 0) == r.origin,
{
    assert(fx_mul_v(r.dir.x, 0) == 0);
    assert(fx_mul_v(r.dir.y, 0) == 0);
    assert(fx_mul_v(r.dir.z, 0) == 0);
}

/// `point_at` is affine along the ray: at whole-number parameters
/// `t == k * ONE` the scaling truncation vanishes and the point is
/// exactly `origin + k * dir`, componentwise (saturating addition).
pub proof fn lemma_point_at_whole(r: Rayv, k: int)
    requires
        ray_ok(r),
        crate::fixed::abs_v(k) <= 4096,
        crate::fixed::abs_v(r.dir.x) <= 0x2_0000,
        crate::fixed::abs_v(r.dir.y) <= 0x2_0000,
        crate::fixed::abs_v(r.dir.z) <= 0x2_0000,
    ensures
        point_at_v(r, k * (ONE as int)) == v3_add_v(
            r.origin,
            V3v { x: r.dir.x * k, y: r.dir.y * k, z: r.dir.z * k },
        ),
{
    lemma_scale_whole(r.dir.x, k);
    lemma_scale_whole(r.dir.y, k);
    lemma_scale_whole(r.dir.z, k);
}

/// One component of whole-number scaling: `fx_mul(d, k * ONE) == d * k`
/// exactly, for a direction-sized `d` and a modest whole `k`.
proof fn lemma_scale_whole(d: int, k: int)
    requires
        crate::fixed::abs_v(d) <= 0x2_0000,
        crate::fixed::abs_v(k) <= 4096,
    ensures
        fx_mul_v(d, k * (ONE as int)) == d * k,
{
    assert(d * (k * 65536) == (d * k) * 65536) by (nonlinear_arith);
    crate::fixed::lemma_tdiv_exact(d * k);
    assert(crate::fixed::abs_v(d * k) <= 0x2000_0000) by (nonlinear_arith)
        requires
            crate::fixed::abs_v(d) <= 0x2_0000,
            crate::fixed::abs_v(k) <= 4096,
    ;
    assert(crate::fixed::sat_v(d * k) == d * k);
}

} // verus!

//! The camera: view parameters composed into a single view-projection
//! transform. The view part is a right-handed look-at matrix; the
//! projection is a perspective matrix whose focal factor is the cotangent
//! of half the vertical field of view, computed from truncated Maclaurin
//! series for sine and cosine in fixed point.

use vstd::prelude::*;
use crate::fixed::{ONE, in_band, fx_mul_v, fx_div_v, fx_add_v, fx_sub_v, fx_divn_v, fx_mul,
    fx_div, fx_add, fx_sub, fx_divn};
use crate::vec3::{V3, V3v, v3_ok, v3_sub_v, v3_cross_v, v3_dot_v, v3_normalize_v};
use crate::mat4::{M4, M4v, m4_ok, matmul_v};

verus! {

/// Truncated Maclaurin series for sine:
/// `x - x^3/6 + x^5/120 - x^7/5040`, in fixed point.
pub open spec fn sin_v(x: int) -> int {
    let x2 = fx_mul_v(x, x);
    let x3 = fx_mul_v(x2, x);
    let x5 = fx_mul_v(x3, x2);
    let x7 = fx_mul_v(x5, x2);
    fx_sub_v(fx_add_v(fx_sub_v(x, fx_divn_v(x3, 6)), fx_divn_v(x5, 120)), fx_divn_v(x7, 5040))
}

/// Truncated Maclaurin series for cosine:
/// `1 - x^2/2 + x^4/24 - x^6/720 + x^8/40320`, in fixed point.
pub open spec fn cos_v(x: int) -> int {
    let x2 = fx_mul_v(x, x);
    let x4 = fx_mul_v(x2, x2);
    let x6 = fx_mul_v(x4, x2);
    let x8 = fx_mul_v(x4, x4);
    fx_add_v(
        fx_sub_v(fx_add_v(fx_sub_v(ONE as int, fx_divn_v(x2, 2)), fx_divn_v(x4, 24)),
            fx_divn_v(x6, 720)),
        fx_divn_v(x8, 40320),
    )
}

/// The right-handed look-at view matrix from `eye` toward `center` with
/// the given `up` vector.
pub open spec fn look_at_v(eye: V3v, center: V3v, up: V3v) -> M4v {
    let f = v3_normalize_v(v3_sub_v(center, eye));
    let s = v3_normalize_v(v3_cross_v(f, up));
    let u = v3_cross_v(s, f);
    M4v {
        e00: s.x, e01: s.y, e02: s.z, e03: -v3_dot_v(eye, s),
        e10: u.x, e11: u.y, e12: u.z, e13: -v3_dot_v(eye, u),
        e20: -f.x, e21: -f.y, e22: -f.z, e23: v3_dot_v(eye, f),
        e30: 0, e31: 0, e32: 0, e33: ONE as int,
    }
}

/// The perspective projection matrix: focal factor `cot(fovy/2)` over
/// the aspect ratio and the usual near/far depth terms.
pub open spec fn perspective_v(fovy: int, aspect: int, near: int, far: int) -> M4v {
    let half = fx_divn_v(fovy, 2);
    let f = fx_div_v(cos_v(half), sin_v(half));
    let nf = fx_sub_v(near, far);
    let t = fx_mul_v(far, near);
    M4v {
        e00: fx_div_v(f, aspect), e01: 0, e02: 0, e03: 0,
        e10: 0, e11: f, e12: 0, e13: 0,
        e20: 0, e21: 0, e22: fx_div_v(fx_add_v(far, near), nf),
        e23: fx_div_v(fx_add_v(t, t), nf),
        e30: 0, e31: 0, e32: -(ONE as int), e33: 0,
    }
}

/// Configurable view parameters; `transform` composes them into the one
/// matrix the scene consumes.
pub struct Camera {
    pub eye: V3,
    pub center: V3,
    pub up: V3,
    pub near: i64,
    pub far: i64,
    pub fovy: i64,
    pub aspect_ratio: i64,
}

/// The mathematical view of a `Camera`.
pub ghost struct Camerav {
    pub eye: V3v,
    pub center: V3v,
    pub up: V3v,
    pub near: int,
    pub far: int,
    pub fovy: int,
    pub aspect_ratio: int,
}

impl View for Camera {
    type V = Camerav;

    open spec fn view(&self) -> Camerav {
        Camerav {
            eye: self.eye@,
            center: self.center@,
            up: self.up@,
            near: self.near as int,
            far: self.far as int,
            fovy: self.fovy as int,
            aspect_ratio: self.aspect_ratio as int,
        }
    }
}

pub open spec fn camera_ok(c: Camerav) -> bool {
    &&& v3_ok(c.eye)
    &&& v3_ok(c.center)
    &&& v3_ok(c.up)
    &&& in_band(c.near)
    &&& in_band(c.far)
    &&& in_band(c.fovy)
    &&& in_band(c.aspect_ratio)
}

/// The composed view-projection transform of a camera.
pub open spec fn transform_v(c: Camerav) -> M4v {
    matmul_v(perspective_v(c.fovy, c.aspect_ratio, c.near, c.far),
        look_at_v(c.eye, c.center, c.up))
}

/// Truncated Maclaurin sine in fixed point.
pub fn sin_fx(x: i64) -> (r: i64)
    requires
        in_band(x as int),
    ensures
        r == sin_v(x as int),
        in_band(r as int),
{
    let x2 = fx_mul(x, x);
    let x3 = fx_mul(x2, x);
    let x5 = fx_mul(x3, x2);
    let x7 = fx_mul(x5, x2);
    fx_sub(fx_add(fx_sub(x, fx_divn(x3, 6)), fx_divn(x5, 120)), fx_divn(x7, 5040))
}

/// Truncated Maclaurin cosine in fixed point.
pub fn cos_fx(x: i64) -> (r: i64)
    requires
        in_band(x as int),
    ensures
        r == cos_v(x as int),
        in_band(r as int),
{
    let x2 = fx_mul(x, x);
    let x4 = fx_mul(x2, x2);
    let x6 = fx_mul(x4, x2);
    let x8 = fx_mul(x4, x4);
    fx_add(
        fx_sub(fx_add(fx_sub(ONE, fx_divn(x2, 2)), fx_divn(x4, 24)), fx_divn(x6, 720)),
        fx_divn(x8, 40320),
    )
}

fn look_at(eye: &V3, center: &V3, up: &V3) -> (r: M4)
    requires
        v3_ok(eye@),
        v3_ok(center@),
        v3_ok(up@),
    ensures
        r@ == look_at_v(eye@, center@, up@),
        m4_ok(r@),
{
    let f = center.sub(eye).normalize();
    let s = f.cross(up).normalize();
    let u = s.cross(&f);
    M4 {
        e00: s.x, e01: s.y, e02: s.z, e03: -eye.dot(&s),
        e10: u.x, e11: u.y, e12: u.z, e13: -eye.dot(&u),
        e20: -f.x, e21: -f.y, e22: -f.z, e23: eye.dot(&f),
        e30: 0, e31: 0, e32: 0, e33: ONE,
    }
}

fn perspective(fovy: i64, aspect: i64, near: i64, far: i64) -> (r: M4)
    requires
        in_band(fovy as int),
        in_band(aspect as int),
        in_band(near as int),
        in_band(far as int),
    ensures
        r@ == perspective_v(fovy as int, aspect as int, near as int, far as int),
        m4_ok(r@),
{
    let half = fx_divn(fovy, 2);
    let f = fx_div(cos_fx(half), sin_fx(half));
    let nf = fx_sub(near, far);
    let t = fx_mul(far, near);
    M4 {
        e00: fx_div(f, aspect), e01: 0, e02: 0, e03: 0,
        e10: 0, e11: f, e12: 0, e13: 0,
        e20: 0, e21: 0, e22: fx_div(fx_add(far, near), nf), e23: fx_div(fx_add(t, t), nf),
        e30: 0, e31: 0, e32: -ONE, e33: 0,
    }
}

impl Camera {
    /// A camera at `eye` looking toward `center`, with the default up
    /// vector `+Z`, near plane `0.1`, far plane `10`, a vertical field of
    /// view of one radian and an aspect ratio of one (all in fixed point).
    pub fn new(eye: V3, center: V3) -> (c: Camera)
        requires
            v3_ok(eye@),
            v3_ok(center@),
        ensures
            c@ == (Camerav {
                eye: eye@,
                center: center@,
                up: V3v { x: 0, y: 0, z: ONE as int },
                near: 6554,
                far: 655360,
                fovy: ONE as int,
                aspect_ratio: ONE as int,
            }),
            camera_ok(c@),
    {
        Camera {
            eye,
            center,
            up: V3 { x: 0, y: 0, z: ONE },
            near: 6554,
            far: 655360,
            fovy: ONE,
            aspect_ratio: ONE,
        }
    }

    /// Replace the up vector.
    pub fn up(self, up: V3) -> (c: Camera)
        requires
            camera_ok(self@),
            v3_ok(up@),
        ensures
            c@ == (Camerav { up: up@, ..self@ }),
            camera_ok(c@),
    {
        Camera { up, ..self }
    }

    /// Replace the near plane distance.
    pub fn near(self, near: i64) -> (c: Camera)
        requires
            camera_ok(self@),
            in_band(near as int),
        ensures
            c@ == (Camerav { near: near as int, ..self@ }),
            camera_ok(c@),
    {
        Camera { near, ..self }
    }

    /// Replace the far plane distance.
    pub fn far(self, far: i64) -> (c: Camera)
        requires
            camera_ok(self@),
            in_band(far as int),
        ensures
            c@ == (Camerav { far: far as int, ..self@ }),
            camera_ok(c@),
    {
        Camera { far, ..self }
    }

    /// Replace the vertical field of view (fixed-point radians).
    pub fn fovy(self, fovy: i64) -> (c: Camera)
        requires
            camera_ok(self@),
            in_band(fovy as int),
        ensures
            c@ == (Camerav { fovy: fovy as int, ..self@ }),
            camera_ok(c@),
    {
        Camera { fovy, ..self }
    }

    /// Replace the aspect ratio.
    pub fn aspect_ratio(self, aspect_ratio: i64) -> (c: Camera)
        requires
            camera_ok(self@),
            in_band(aspect_ratio as int),
        ensures
            c@ == (Camerav { aspect_ratio: aspect_ratio as int, ..self@ }),
            camera_ok(c@),
    {
        Camera { aspect_ratio, ..self }
    }

    /// The composed view-projection transform: `perspective * look_at`.
    pub fn transform(&self) -> (r: M4)
        requires
            camera_ok(self@),
        ensures
            r@ == transform_v(self@),
            m4_ok(r@),
    {
        let view = look_at(&self.eye, &self.center, &self.up);
        let proj = perspective(self.fovy, self.aspect_ratio, self.near, self.far);
        proj.matmul(&view)
    }
}

} // verus!

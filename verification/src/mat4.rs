//! 4x4 fixed-point matrices (row-major), with multiplication, determinant
//! and an adjugate-based inverse. These carry the camera's view-projection
//! transform and un-project pixels into world space.

use vstd::prelude::*;
use crate::fixed::{in_band, fx_add_v, fx_sub_v, fx_mul_v, fx_div_v, fx_add, fx_sub, fx_mul,
    fx_div, ONE};

verus! {

/// A homogeneous 4-vector of fixed-point scalars.
#[derive(Clone, Copy, PartialEq, Eq, Structural, Debug)]
pub struct V4 {
    pub x: i64,
    pub y: i64,
    pub z: i64,
    pub w: i64,
}

/// The mathematical view of a `V4`.
pub ghost struct V4v {
    pub x: int,
    pub y: int,
    pub z: int,
    pub w: int,
}

impl View for V4 {
    type V = V4v;

    open spec fn view(&self) -> V4v {
        V4v { x: self.x as int, y: self.y as int, z: self.z as int, w: self.w as int }
    }
}

pub open spec fn v4_ok(v: V4v) -> bool {
    in_band(v.x) && in_band(v.y) && in_band(v.z) && in_band(v.w)
}

/// A 4x4 matrix of fixed-point scalars; `eRC` is the entry at row `R`,
/// column `C`.
#[derive(Clone, Copy, PartialEq, Eq, Structural, Debug)]
pub struct M4 {
    pub e00: i64, pub e01: i64, pub e02: i64, pub e03: i64,
    pub e10: i64, pub e11: i64, pub e12: i64, pub e13: i64,
    pub e20: i64, pub e21: i64, pub e22: i64, pub e23: i64,
    pub e30: i64, pub e31: i64, pub e32: i64, pub e33: i64,
}

/// The mathematical view of an `M4`.
pub ghost struct M4v {
    pub e00: int, pub e01: int, pub e02: int, pub e03: int,
    pub e10: int, pub e11: int, pub e12: int, pub e13: int,
    pub e20: int, pub e21: int, pub e22: int, pub e23: int,
    pub e30: int, pub e31: int, pub e32: int, pub e33: int,
}

impl View for M4 {
    type V = M4v;

    open spec fn view(&self) -> M4v {
        M4v {
            e00: self.e00 as int, e01: self.e01 as int, e02: self.e02 as int, e03: self.e03 as int,
            e10: self.e10 as int, e11: self.e11 as int, e12: self.e12 as int, e13: self.e13 as int,
            e20: self.e20 as int, e21: self.e21 as int, e22: self.e22 as int, e23: self.e23 as int,
            e30: self.e30 as int, e31: self.e31 as int, e32: self.e32 as int, e33: self.e33 as int,
        }
    }
}

pub open spec fn m4_ok(m: M4v) -> bool {
    &&& in_band(m.e00) && in_band(m.e01) && in_band(m.e02) && in_band(m.e03)
    &&& in_band(m.e10) && in_band(m.e11) && in_band(m.e12) && in_band(m.e13)
    &&& in_band(m.e20) && in_band(m.e21) && in_band(m.e22) && in_band(m.e23)
    &&& in_band(m.e30) && in_band(m.e31) && in_band(m.e32) && in_band(m.e33)
}

/// A row of one matrix against a column of the other: the fixed-point
/// inner product of four pairs, summed left to right.
pub open spec fn row_dot_v(
    a0: int, a1: int, a2: int, a3: int, b0: int, b1: int, b2: int, b3: int,
) -> int {
    fx_add_v(
        fx_add_v(fx_add_v(fx_mul_v(a0, b0), fx_mul_v(a1, b1)), fx_mul_v(a2, b2)),
        fx_mul_v(a3, b3),
    )
}

/// The fixed-point determinant of a 3x3 matrix given row-major.
pub open spec fn det3_v(
    a: int, b: int, c: int, d: int, e: int, f: int, g: int, h: int, i: int,
) -> int {
    fx_add_v(
        fx_sub_v(
            fx_mul_v(a, fx_sub_v(fx_mul_v(e, i), fx_mul_v(f, h))),
            fx_mul_v(b, fx_sub_v(fx_mul_v(d, i), fx_mul_v(f, g))),
        ),
        fx_mul_v(c, fx_sub_v(fx_mul_v(d, h), fx_mul_v(e, g))),
    )
}

/// The fixed-point determinant, by cofactor expansion along the first row.
pub open spec fn det_v(m: M4v) -> int {
    let m00 = det3_v(m.e11, m.e12, m.e13, m.e21, m.e22, m.e23, m.e31, m.e32, m.e33);
    let m01 = det3_v(m.e10, m.e12, m.e13, m.e20, m.e22, m.e23, m.e30, m.e32, m.e33);
    let m02 = det3_v(m.e10, m.e11, m.e13, m.e20, m.e21, m.e23, m.e30, m.e31, m.e33);
    let m03 = det3_v(m.e10, m.e11, m.e12, m.e20, m.e21, m.e22, m.e30, m.e31, m.e32);
    fx_sub_v(
        fx_add_v(fx_sub_v(fx_mul_v(m.e00, m00), fx_mul_v(m.e01, m01)), fx_mul_v(m.e02, m02)),
        fx_mul_v(m.e03, m03),
    )
}

/// The adjugate-based inverse: entry `(i, j)` is the signed minor of
/// `(j, i)` divided by the determinant. Meaningful only when the
/// determinant is nonzero.
pub open spec fn inv_v(m: M4v) -> M4v {
    let det = det_v(m);
    M4v {
        e00: fx_div_v(det3_v(m.e11, m.e12, m.e13, m.e21, m.e22, m.e23, m.e31, m.e32, m.e33), det),
        e01: fx_div_v(-det3_v(m.e01, m.e02, m.e03, m.e21, m.e22, m.e23, m.e31, m.e32, m.e33), det),
        e02: fx_div_v(det3_v(m.e01, m.e02, m.e03, m.e11, m.e12, m.e13, m.e31, m.e32, m.e33), det),
        e03: fx_div_v(-det3_v(m.e01, m.e02, m.e03, m.e11, m.e12, m.e13, m.e21, m.e22, m.e23), det),
        e10: fx_div_v(-det3_v(m.e10, m.e12, m.e13, m.e20, m.e22, m.e23, m.e30, m.e32, m.e33), det),
        e11: fx_div_v(det3_v(m.e00, m.e02, m.e03, m.e20, m.e22, m.e23, m.e30, m.e32, m.e33), det),
        e12: fx_div_v(-det3_v(m.e00, m.e02, m.e03, m.e10, m.e12, m.e13, m.e30, m.e32, m.e33), det),
        e13: fx_div_v(det3_v(m.e00, m.e02, m.e03, m.e10, m.e12, m.e13, m.e20, m.e22, m.e23), det),
        e20: fx_div_v(det3_v(m.e10, m.e11, m.e13, m.e20, m.e21, m.e23, m.e30, m.e31, m.e33), det),
        e21: fx_div_v(-det3_v(m.e00, m.e01, m.e03, m.e20, m.e21, m.e23, m.e30, m.e31, m.e33), det),
        e22: fx_div_v(det3_v(m.e00, m.e01, m.e03, m.e10, m.e11, m.e13, m.e30, m.e31, m.e33), det),
        e23: fx_div_v(-det3_v(m.e00, m.e01, m.e03, m.e10, m.e11, m.e13, m.e20, m.e21, m.e23), det),
        e30: fx_div_v(-det3_v(m.e10, m.e11, m.e12, m.e20, m.e21, m.e22, m.e30, m.e31, m.e32), det),
        e31: fx_div_v(det3_v(m.e00, m.e01, m.e02, m.e20, m.e21, m.e22, m.e30, m.e31, m.e32), det),
        e32: fx_div_v(-det3_v(m.e00, m.e01, m.e02, m.e10, m.e11, m.e12, m.e30, m.e31, m.e32), det),
        e33: fx_div_v(det3_v(m.e00, m.e01, m.e02, m.e10, m.e11, m.e12, m.e20, m.e21, m.e22), det),
    }
}

/// Matrix times homogeneous vector.
pub open spec fn mul_v4_v(m: M4v, v: V4v) -> V4v {
    V4v {
        x: row_dot_v(m.e00, m.e01, m.e02, m.e03, v.x, v.y, v.z, v.w),
        y: row_dot_v(m.e10, m.e11, m.e12, m.e13, v.x, v.y, v.z, v.w),
        z: row_dot_v(m.e20, m.e21, m.e22, m.e23, v.x, v.y, v.z, v.w),
        w: row_dot_v(m.e30, m.e31, m.e32, m.e33, v.x, v.y, v.z, v.w),
    }
}

/// Matrix product `a * b`.
pub open spec fn matmul_v(a: M4v, b: M4v) -> M4v {
    M4v {
        e00: row_dot_v(a.e00, a.e01, a.e02, a.e03, b.e00, b.e10, b.e20, b.e30),
        e01: row_dot_v(a.e00, a.e01, a.e02, a.e03, b.e01, b.e11, b.e21, b.e31),
        e02: row_dot_v(a.e00, a.e01, a.e02, a.e03, b.e02, b.e12, b.e22, b.e32),
        e03: row_dot_v(a.e00, a.e01, a.e02, a.e03, b.e03, b.e13, b.e23, b.e33),
        e10: row_dot_v(a.e10, a.e11, a.e12, a.e13, b.e00, b.e10, b.e20, b.e30),
        e11: row_dot_v(a.e10, a.e11, a.e12, a.e13, b.e01, b.e11, b.e21, b.e31),
        e12: row_dot_v(a.e10, a.e11, a.e12, a.e13, b.e02, b.e12, b.e22, b.e32),
        e13: row_dot_v(a.e10, a.e11, a.e12, a.e13, b.e03, b.e13, b.e23, b.e33),
        e20: row_dot_v(a.e20, a.e21, a.e22, a.e23, b.e00, b.e10, b.e20, b.e30),
        e21: row_dot_v(a.e20, a.e21, a.e22, a.e23, b.e01, b.e11, b.e21, b.e31),
        e22: row_dot_v(a.e20, a.e21, a.e22, a.e23, b.e02, b.e12, b.e22, b.e32),
        e23: row_dot_v(a.e20, a.e21, a.e22, a.e23, b.e03, b.e13, b.e23, b.e33),
        e30: row_dot_v(a.e30, a.e31, a.e32, a.e33, b.e00, b.e10, b.e20, b.e30),
        e31: row_dot_v(a.e30, a.e31, a.e32, a.e33, b.e01, b.e11, b.e21, b.e31),
        e32: row_dot_v(a.e30, a.e31, a.e32, a.e33, b.e02, b.e12, b.e22, b.e32),
        e33: row_dot_v(a.e30, a.e31, a.e32, a.e33, b.e03, b.e13, b.e23, b.e33),
    }
}

/// The identity matrix.
pub open spec fn m4_ident_v() -> M4v {
    M4v {
        e00: ONE as int, e01: 0, e02: 0, e03: 0,
        e10: 0, e11: ONE as int, e12: 0, e13: 0,
        e20: 0, e21: 0, e22: ONE as int, e23: 0,
        e30: 0, e31: 0, e32: 0, e33: ONE as int,
    }
}

fn row_dot(a0: i64, a1: i64, a2: i64, a3: i64, b0: i64, b1: i64, b2: i64, b3: i64) -> (r: i64)
    requires
        in_band(a0 as int), in_band(a1 as int), in_band(a2 as int), in_band(a3 as int),
        in_band(b0 as int), in_band(b1 as int), in_band(b2 as int), in_band(b3 as int),
    ensures
        r == row_dot_v(a0 as int, a1 as int, a2 as int, a3 as int,
            b0 as int, b1 as int, b2 as int, b3 as int),
        in_band(r as int),
{
    fx_add(fx_add(fx_add(fx_mul(a0, b0), fx_mul(a1, b1)), fx_mul(a2, b2)), fx_mul(a3, b3))
}

fn det3(a: i64, b: i64, c: i64, d: i64, e: i64, f: i64, g: i64, h: i64, i: i64) -> (r: i64)
    requires
        in_band(a as int), in_band(b as int), in_band(c as int),
        in_band(d as int), in_band(e as int), in_band(f as int),
        in_band(g as int), in_band(h as int), in_band(i as int),
    ensures
        r == det3_v(a as int, b as int, c as int, d as int, e as int, f as int, g as int,
            h as int, i as int),
        in_band(r as int),
{
    fx_add(
        fx_sub(
            fx_mul(a, fx_sub(fx_mul(e, i), fx_mul(f, h))),
            fx_mul(b, fx_sub(fx_mul(d, i), fx_mul(f, g))),
        ),
        fx_mul(c, fx_sub(fx_mul(d, h), fx_mul(e, g))),
    )
}

impl M4 {
    /// Build a matrix from its sixteen entries, row-major.
    pub fn new(
        e00: i64, e01: i64, e02: i64, e03: i64,
        e10: i64, e11: i64, e12: i64, e13: i64,
        e20: i64, e21: i64, e22: i64, e23: i64,
        e30: i64, e31: i64, e32: i64, e33: i64,
    ) -> (r: M4)
        ensures
            r@ == (M4v {
                e00: e00 as int, e01: e01 as int, e02: e02 as int, e03: e03 as int,
                e10: e10 as int, e11: e11 as int, e12: e12 as int, e13: e13 as int,
                e20: e20 as int, e21: e21 as int, e22: e22 as int, e23: e23 as int,
                e30: e30 as int, e31: e31 as int, e32: e32 as int, e33: e33 as int,
            }),
    {
        M4 {
            e00, e01, e02, e03,
            e10, e11, e12, e13,
            e20, e21, e22, e23,
            e30, e31, e32, e33,
        }
    }

    /// The identity matrix.
    pub fn identity() -> (r: M4)
        ensures
            r@ == m4_ident_v(),
            m4_ok(r@),
    {
        M4 {
            e00: ONE, e01: 0, e02: 0, e03: 0,
            e10: 0, e11: ONE, e12: 0, e13: 0,
            e20: 0, e21: 0, e22: ONE, e23: 0,
            e30: 0, e31: 0, e32: 0, e33: ONE,
        }
    }

    /// Matrix times homogeneous vector.
    pub fn mul_v4(&self, v: &V4) -> (r: V4)
        requires
            m4_ok(self@),
            v4_ok(v@),
        ensures
            r@ == mul_v4_v(self@, v@),
            v4_ok(r@),
    {
        V4 {
            x: row_dot(self.e00, self.e01, self.e02, self.e03, v.x, v.y, v.z, v.w),
            y: row_dot(self.e10, self.e11, self.e12, self.e13, v.x, v.y, v.z, v.w),
            z: row_dot(self.e20, self.e21, self.e22, self.e23, v.x, v.y, v.z, v.w),
            w: row_dot(self.e30, self.e31, self.e32, self.e33, v.x, v.y, v.z, v.w),
        }
    }

    /// Matrix product `self * o`.
    pub fn matmul(&self, o: &M4) -> (r: M4)
        requires
            m4_ok(self@),
            m4_ok(o@),
        ensures
            r@ == matmul_v(self@, o@),
            m4_ok(r@),
    {
        M4 {
            e00: row_dot(self.e00, self.e01, self.e02, self.e03, o.e00, o.e10, o.e20, o.e30),
            e01: row_dot(self.e00, self.e01, self.e02, self.e03, o.e01, o.e11, o.e21, o.e31),
            e02: row_dot(self.e00, self.e01, self.e02, self.e03, o.e02, o.e12, o.e22, o.e32),
            e03: row_dot(self.e00, self.e01, self.e02, self.e03, o.e03, o.e13, o.e23, o.e33),
            e10: row_dot(self.e10, self.e11, self.e12, self.e13, o.e00, o.e10, o.e20, o.e30),
            e11: row_dot(self.e10, self.e11, self.e12, self.e13, o.e01, o.e11, o.e21, o.e31),
            e12: row_dot(self.e10, self.e11, self.e12, self.e13, o.e02, o.e12, o.e22, o.e32),
            e13: row_dot(self.e10, self.e11, self.e12, self.e13, o.e03, o.e13, o.e23, o.e33),
            e20: row_dot(self.e20, self.e21, self.e22, self.e23, o.e00, o.e10, o.e20, o.e30),
            e21: row_dot(self.e20, self.e21, self.e22, self.e23, o.e01, o.e11, o.e21, o.e31),
            e22: row_dot(self.e20, self.e21, self.e22, self.e23, o.e02, o.e12, o.e22, o.e32),
            e23: row_dot(self.e20, self.e21, self.e22, self.e23, o.e03, o.e13, o.e23, o.e33),
            e30: row_dot(self.e30, self.e31, self.e32, self.e33, o.e00, o.e10, o.e20, o.e30),
            e31: row_dot(self.e30, self.e31, self.e32, self.e33, o.e01, o.e11, o.e21, o.e31),
            e32: row_dot(self.e30, self.e31, self.e32, self.e33, o.e02, o.e12, o.e22, o.e32),
            e33: row_dot(self.e30, self.e31, self.e32, self.e33, o.e03, o.e13, o.e23, o.e33),
        }
    }

    /// The fixed-point determinant.
    pub fn det(&self) -> (r: i64)
        requires
            m4_ok(self@),
        ensures
            r == det_v(self@),
            in_band(r as int),
    {
        let m00 = det3(self.e11, self.e12, self.e13, self.e21, self.e22, self.e23, self.e31,
            self.e32, self.e33);
        let m01 = det3(self.e10, self.e12, self.e13, self.e20, self.e22, self.e23, self.e30,
            self.e32, self.e33);
        let m02 = det3(self.e10, self.e11, self.e13, self.e20, self.e21, self.e23, self.e30,
            self.e31, self.e33);
        let m03 = det3(self.e10, self.e11, self.e12, self.e20, self.e21, self.e22, self.e30,
            self.e31, self.e32);
        fx_sub(
            fx_add(fx_sub(fx_mul(self.e00, m00), fx_mul(self.e01, m01)), fx_mul(self.e02, m02)),
            fx_mul(self.e03, m03),
        )
    }

    /// The inverse matrix, or `None` exactly when the fixed-point
    /// determinant is zero.
    pub fn invert(&self) -> (r: Option<M4>)
        requires
            m4_ok(self@),
        ensures
            match r {
                None => det_v(self@) == 0,
                Some(inv) => det_v(self@) != 0 && inv@ == inv_v(self@) && m4_ok(inv@),
            },
    {
        let det = self.det();
        if det == 0 {
            return None;
        }
        Some(M4 {
            e00: fx_div(det3(self.e11, self.e12, self.e13, self.e21, self.e22, self.e23,
                self.e31, self.e32, self.e33), det),
            e01: fx_div(-det3(self.e01, self.e02, self.e03, self.e21, self.e22, self.e23,
                self.e31, self.e32, self.e33), det),
            e02: fx_div(det3(self.e01, self.e02, self.e03, self.e11, self.e12, self.e13,
                self.e31, self.e32, self.e33), det),
            e03: fx_div(-det3(self.e01, self.e02, self.e03, self.e11, self.e12, self.e13,
                self.e21, self.e22, self.e23), det),
            e10: fx_div(-det3(self.e10, self.e12, self.e13, self.e20, self.e22, self.e23,
                self.e30, self.e32, self.e33), det),
            e11: fx_div(det3(self.e00, self.e02, self.e03, self.e20, self.e22, self.e23,
                self.e30, self.e32, self.e33), det),
            e12: fx_div(-det3(self.e00, self.e02, self.e03, self.e10, self.e12, self.e13,
                self.e30, self.e32, self.e33), det),
            e13: fx_div(det3(self.e00, self.e02, self.e03, self.e10, self.e12, self.e13,
                self.e20, self.e22, self.e23), det),
            e20: fx_div(det3(self.e10, self.e11, self.e13, self.e20, self.e21, self.e23,
                self.e30, self.e31, self.e33), det),
            e21: fx_div(-det3(self.e00, self.e01, self.e03, self.e20, self.e21, self.e23,
                self.e30, self.e31, self.e33), det),
            e22: fx_div(det3(self.e00, self.e01, self.e03, self.e10, self.e11, self.e13,
                self.e30, self.e31, self.e33), det),
            e23: fx_div(-det3(self.e00, self.e01, self.e03, self.e10, self.e11, self.e13,
                self.e20, self.e21, self.e23), det),
            e30: fx_div(-det3(self.e10, self.e11, self.e12, self.e20, self.e21, self.e22,
                self.e30, self.e31, self.e32), det),
            e31: fx_div(det3(self.e00, self.e01, self.e02, self.e20, self.e21, self.e22,
                self.e30, self.e31, self.e32), det),
            e32: fx_div(-det3(self.e00, self.e01, self.e02, self.e10, self.e11, self.e12,
                self.e30, self.e31, self.e32), det),
            e33: fx_div(det3(self.e00, self.e01, self.e02, self.e10, self.e11, self.e12,
                self.e20, self.e21, self.e22), det),
        })
    }
}

} // verus!

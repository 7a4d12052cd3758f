//! Three-component fixed-point vectors, used for points, directions and
//! RGB colours alike.

use vstd::prelude::*;
use crate::fixed::{
    ONE, in_band, abs_v, sat_v, tdiv_v, isqrt_v, fx_add_v, fx_sub_v, fx_mul_v, fx_div_v,
    fx_sqrt_v, fx_add, fx_sub, fx_mul, fx_div, fx_sqrt, lemma_tdiv_bounds, lemma_tdiv_sign,
    lemma_isqrt,
};

verus! {

/// A vector (or point, or RGB colour) of three fixed-point scalars.
#[derive(Clone, Copy, PartialEq, Eq, Structural, Debug)]
pub struct V3 {
    pub x: i64,
    pub y: i64,
    pub z: i64,
}

/// The mathematical view of a `V3`: three unbounded integers.
pub ghost struct V3v {
    pub x: int,
    pub y: int,
    pub z: int,
}

impl View for V3 {
    type V = V3v;

    open spec fn view(&self) -> V3v {
        V3v { x: self.x as int, y: self.y as int, z: self.z as int }
    }
}

/// All three components lie in the scalar band.
pub open spec fn v3_ok(a: V3v) -> bool {
    in_band(a.x) && in_band(a.y) && in_band(a.z)
}

pub open spec fn v3_add_v(a: V3v, b: V3v) -> V3v {
    V3v { x: fx_add_v(a.x, b.x), y: fx_add_v(a.y, b.y), z: fx_add_v(a.z, b.z) }
}

pub open spec fn v3_sub_v(a: V3v, b: V3v) -> V3v {
    V3v { x: fx_sub_v(a.x, b.x), y: fx_sub_v(a.y, b.y), z: fx_sub_v(a.z, b.z) }
}

pub open spec fn v3_scale_v(a: V3v, k: int) -> V3v {
    V3v { x: fx_mul_v(a.x, k), y: fx_mul_v(a.y, k), z: fx_mul_v(a.z, k) }
}

/// Componentwise product, used for colour modulation.
pub open spec fn v3_cmul_v(a: V3v, b: V3v) -> V3v {
    V3v { x: fx_mul_v(a.x, b.x), y: fx_mul_v(a.y, b.y), z: fx_mul_v(a.z, b.z) }
}

pub open spec fn v3_dot_v(a: V3v, b: V3v) -> int {
    fx_add_v(fx_add_v(fx_mul_v(a.x, b.x), fx_mul_v(a.y, b.y)), fx_mul_v(a.z, b.z))
}

pub open spec fn v3_cross_v(a: V3v, b: V3v) -> V3v {
    V3v {
        x: fx_sub_v(fx_mul_v(a.y, b.z), fx_mul_v(a.z, b.y)),
        y: fx_sub_v(fx_mul_v(a.z, b.x), fx_mul_v(a.x, b.z)),
        z: fx_sub_v(fx_mul_v(a.x, b.y), fx_mul_v(a.y, b.x)),
    }
}

/// Fixed-point length: the square root of the fixed-point dot square.
pub open spec fn v3_len_v(a: V3v) -> int {
    fx_sqrt_v(v3_dot_v(a, a))
}

/// Normalisation: each component divided by the fixed-point length.
/// A vector whose fixed-point length is zero comes out as the zero vector.
pub open spec fn v3_normalize_v(a: V3v) -> V3v {
    let l = v3_len_v(a);
    V3v { x: fx_div_v(a.x, l), y: fx_div_v(a.y, l), z: fx_div_v(a.z, l) }
}

impl V3 {
    /// Build a vector from its three fixed-point components.
    pub fn new(x: i64, y: i64, z: i64) -> (r: V3)
        ensures
            r@ == (V3v { x: x as int, y: y as int, z: z as int }),
    {
        V3 { x, y, z }
    }

    pub fn add(&self, o: &V3) -> (r: V3)
        requires
            v3_ok(self@),
            v3_ok(o@),
        ensures
            r@ == v3_add_v(self@, o@),
            v3_ok(r@),
    {
        V3 { x: fx_add(self.x, o.x), y: fx_add(self.y, o.y), z: fx_add(self.z, o.z) }
    }

    pub fn sub(&self, o: &V3) -> (r: V3)
        requires
            v3_ok(self@),
            v3_ok(o@),
        ensures
            r@ == v3_sub_v(self@, o@),
            v3_ok(r@),
    {
        V3 { x: fx_sub(self.x, o.x), y: fx_sub(self.y, o.y), z: fx_sub(self.z, o.z) }
    }

    /// Scale by a fixed-point factor.
    pub fn scale(&self, k: i64) -> (r: V3)
        requires
            v3_ok(self@),
            in_band(k as int),
        ensures
            r@ == v3_scale_v(self@, k as int),
            v3_ok(r@),
    {
        V3 { x: fx_mul(self.x, k), y: fx_mul(self.y, k), z: fx_mul(self.z, k) }
    }

    /// Componentwise product, used for colour modulation.
    pub fn cmul(&self, o: &V3) -> (r: V3)
        requires
            v3_ok(self@),
            v3_ok(o@),
        ensures
            r@ == v3_cmul_v(self@, o@),
            v3_ok(r@),
    {
        V3 { x: fx_mul(self.x, o.x), y: fx_mul(self.y, o.y), z: fx_mul(self.z, o.z) }
    }

    pub fn dot(&self, o: &V3) -> (r: i64)
        requires
            v3_ok(self@),
            v3_ok(o@),
        ensures
            r == v3_dot_v(self@, o@),
            in_band(r as int),
    {
        let t1 = fx_mul(self.x, o.x);
        let t2 = fx_mul(self.y, o.y);
        let t3 = fx_mul(self.z, o.z);
        fx_add(fx_add(t1, t2), t3)
    }

    pub fn cross(&self, o: &V3) -> (r: V3)
        requires
            v3_ok(self@),
            v3_ok(o@),
        ensures
            r@ == v3_cross_v(self@, o@),
            v3_ok(r@),
    {
        V3 {
            x: fx_sub(fx_mul(self.y, o.z), fx_mul(self.z, o.y)),
            y: fx_sub(fx_mul(self.z, o.x), fx_mul(self.x, o.z)),
            z: fx_sub(fx_mul(self.x, o.y), fx_mul(self.y, o.x)),
        }
    }

    /// Fixed-point length of the vector.
    pub fn length(&self) -> (r: i64)
        requires
            v3_ok(self@),
        ensures
            r == v3_len_v(self@),
            0 <= r,
            in_band(r as int),
    {
        fx_sqrt(self.dot(self))
    }

    /// The vector scaled to unit length (in fixed point); the zero vector
    /// when the fixed-point length is zero. `lemma_normalize_unit` shows
    /// that for well-scaled inputs the result has squared length within a
    /// few ulps of one.
    pub fn normalize(&self) -> (r: V3)
        requires
            v3_ok(self@),
        ensures
            r@ == v3_normalize_v(self@),
            v3_ok(r@),
    {
        let l = self.length();
        V3 { x: fx_div(self.x, l), y: fx_div(self.y, l), z: fx_div(self.z, l) }
    }
}

proof fn lemma_mul_le_mono(c: int, a: int, b: int)
    by (nonlinear_arith)
    requires
        0 <= c,
        a <= b,
    ensures
        c * a <= c * b,
{
}

proof fn lemma_sq_mono(x: int, y: int)
    by (nonlinear_arith)
    requires
        0 <= x <= y,
    ensures
        x * x <= y * y,
{
}

proof fn lemma_sq_of_mul(x: int, y: int)
    by (nonlinear_arith)
    ensures
        (x * y) * (x * y) == (x * x) * (y * y),
{
}

proof fn lemma_distrib3(a: int, b: int, c: int, m: int)
    by (nonlinear_arith)
    ensures
        (a + b + c) * m == a * m + b * m + c * m,
{
}

proof fn lemma_len_lb(s: int, l: int)
    by (nonlinear_arith)
    requires
        s >= 65536,
        l >= 0,
        (l + 1) * (l + 1) > s * 65536,
    ensures
        l >= 65536,
{
}

proof fn lemma_upper_step(nn: int, l: int)
    by (nonlinear_arith)
    requires
        nn >= 0,
        l >= 65536,
        nn * (l * l) <= (l * l + 2 * l + 3 * 65536) * (65536 * 65536),
    ensures
        nn <= 65536 * 65536 + 5 * 65536,
{
}

proof fn lemma_comp_bound(n1: int, n2: int, n3: int)
    by (nonlinear_arith)
    requires
        n1 * n1 + n2 * n2 + n3 * n3 <= 65536 * 65536 + 5 * 65536,
        0 <= n1,
        0 <= n2,
        0 <= n3,
    ensures
        n1 <= 65538,
        n2 <= 65538,
        n3 <= 65538,
{
}

proof fn lemma_lower_step(nn: int, sum_n: int, l: int)
    by (nonlinear_arith)
    requires
        (nn + 2 * sum_n + 3) * (l * l) >= (l * l) * (65536 * 65536),
        sum_n <= 3 * 65538,
        l >= 65536,
    ensures
        nn >= 65536 * 65536 - 6 * 65536 - 15,
{
}

proof fn lemma_abs_sq(x: int)
    by (nonlinear_arith)
    ensures
        abs_v(x) * abs_v(x) == x * x,
{
}

/// One squared component of a dot square: the exact truncated quotient,
/// its sign, and its bracketing by the true square.
proof fn lemma_sq_term(x: int)
    requires
        abs_v(x) <= 0x800_0000,
    ensures
        fx_mul_v(x, x) == tdiv_v(x * x, 65536),
        0 <= fx_mul_v(x, x) <= 0x40_0000_0000,
        65536 * fx_mul_v(x, x) <= x * x,
        x * x < 65536 * (fx_mul_v(x, x) + 1),
{
    assert(0 <= x * x <= 0x40_0000_0000_0000) by (nonlinear_arith)
        requires
            abs_v(x) <= 0x800_0000,
    ;
    lemma_tdiv_sign(x * x, 65536);
    lemma_tdiv_bounds(x * x, 65536);
    let t = tdiv_v(x * x, 65536);
    assert(abs_v(t) == t);
    assert(abs_v(x * x) == x * x);
    assert(t * 65536 <= x * x);
    assert(x * x < (t + 1) * 65536);
    assert(sat_v(t) == t);
    assert(ONE as int == 65536);
}

/// One component of a normalised vector: the exact truncated quotient,
/// its magnitude bound, and its bracketing by the exact quotient.
proof fn lemma_norm_term(x: int, l: int)
    requires
        abs_v(x) <= 0x800_0000,
        l >= 65536,
    ensures
        fx_div_v(x, l) == tdiv_v(x * 65536, l),
        abs_v(fx_div_v(x, l)) <= abs_v(x),
        abs_v(fx_div_v(x, l)) * l <= abs_v(x) * 65536,
        abs_v(x) * 65536 < (abs_v(fx_div_v(x, l)) + 1) * l,
{
    assert(ONE as int == 65536);
    lemma_tdiv_bounds(x * 65536, l);
    let q = tdiv_v(x * 65536, l);
    assert(abs_v(x * 65536) == abs_v(x) * 65536);
    assert(abs_v(q) * l <= abs_v(x) * 65536);
    assert(abs_v(x) * 65536 < (abs_v(q) + 1) * l);
    lemma_mul_le_mono(abs_v(q), 65536, l);
    assert(abs_v(q) * 65536 <= abs_v(q) * l);
    assert(abs_v(q) <= abs_v(x));
    assert(sat_v(q) == q);
}

/// The normalisation invariant: a vector whose components are well
/// inside the band and whose fixed dot square is at least one has a
/// normalisation whose fixed dot square within a few ulps of one — unit
/// length, up to the truncation the representation forces. This applies
/// in particular to the direction a `Ray` stores at construction.
pub proof fn lemma_normalize_unit(a: V3v)
    requires
        abs_v(a.x) <= 0x800_0000,
        abs_v(a.y) <= 0x800_0000,
        abs_v(a.z) <= 0x800_0000,
        v3_dot_v(a, a) >= ONE as int,
    ensures
        (ONE as int) - 10 <= v3_dot_v(v3_normalize_v(a), v3_normalize_v(a)),
        v3_dot_v(v3_normalize_v(a), v3_normalize_v(a)) <= (ONE as int) + 5,
{
    assert(ONE as int == 65536);
    lemma_sq_term(a.x);
    lemma_sq_term(a.y);
    lemma_sq_term(a.z);
    let t1 = fx_mul_v(a.x, a.x);
    let t2 = fx_mul_v(a.y, a.y);
    let t3 = fx_mul_v(a.z, a.z);
    let s = v3_dot_v(a, a);
    assert(s == t1 + t2 + t3);
    let q = a.x * a.x + a.y * a.y + a.z * a.z;
    assert(65536 * s <= q);
    assert(q < 65536 * s + 3 * 65536);
    // the fixed length brackets s * 65536
    lemma_mul_le_mono(s, 1, 65536);
    assert(s * 65536 >= s);
    let l = v3_len_v(a);
    lemma_isqrt((s * 65536) as nat);
    assert(l == isqrt_v((s * 65536) as nat) as int);
    assert(l * l <= s * 65536 < (l + 1) * (l + 1));
    assert((l + 1) * (l + 1) == l * l + 2 * l + 1) by (nonlinear_arith);
    assert(s * 65536 <= l * l + 2 * l);
    lemma_len_lb(s, l);
    assert(l >= 65536);
    // the normalised components bracket the exact quotients
    lemma_norm_term(a.x, l);
    lemma_norm_term(a.y, l);
    lemma_norm_term(a.z, l);
    let n = v3_normalize_v(a);
    assert(n.x == fx_div_v(a.x, l) && n.y == fx_div_v(a.y, l) && n.z == fx_div_v(a.z, l));
    let n1 = abs_v(n.x);
    let n2 = abs_v(n.y);
    let n3 = abs_v(n.z);
    let nn = n1 * n1 + n2 * n2 + n3 * n3;
    // upper bound: nn * l^2 <= 65536^2 * q <= 65536^2 * (l^2 + 2l + 3 * 65536)
    lemma_sq_mono(n1 * l, abs_v(a.x) * 65536);
    lemma_sq_mono(n2 * l, abs_v(a.y) * 65536);
    lemma_sq_mono(n3 * l, abs_v(a.z) * 65536);
    lemma_sq_of_mul(n1, l);
    lemma_sq_of_mul(n2, l);
    lemma_sq_of_mul(n3, l);
    lemma_sq_of_mul(abs_v(a.x), 65536int);
    lemma_sq_of_mul(abs_v(a.y), 65536int);
    lemma_sq_of_mul(abs_v(a.z), 65536int);
    lemma_abs_sq(a.x);
    lemma_abs_sq(a.y);
    lemma_abs_sq(a.z);
    assert((n1 * n1) * (l * l) <= (a.x * a.x) * (65536 * 65536));
    assert((n2 * n2) * (l * l) <= (a.y * a.y) * (65536 * 65536));
    assert((n3 * n3) * (l * l) <= (a.z * a.z) * (65536 * 65536));
    lemma_distrib3(n1 * n1, n2 * n2, n3 * n3, l * l);
    lemma_distrib3(a.x * a.x, a.y * a.y, a.z * a.z, 65536int * 65536);
    assert(nn * (l * l) <= q * (65536 * 65536));
    assert(q <= l * l + 2 * l + 3 * 65536);
    lemma_mul_le_mono(65536int * 65536, q, l * l + 2 * l + 3 * 65536);
    assert(q * (65536 * 65536) <= (l * l + 2 * l + 3 * 65536) * (65536 * 65536));
    lemma_upper_step(nn, l);
    assert(nn <= 65536 * 65536 + 5 * 65536);
    lemma_comp_bound(n1, n2, n3);
    // lower bound: each (|n_i| + 1) * l exceeds |a_i| * 65536
    lemma_sq_mono(abs_v(a.x) * 65536, (n1 + 1) * l);
    lemma_sq_mono(abs_v(a.y) * 65536, (n2 + 1) * l);
    lemma_sq_mono(abs_v(a.z) * 65536, (n3 + 1) * l);
    lemma_sq_of_mul(n1 + 1, l);
    lemma_sq_of_mul(n2 + 1, l);
    lemma_sq_of_mul(n3 + 1, l);
    assert(((n1 + 1) * (n1 + 1)) * (l * l) >= (a.x * a.x) * (65536 * 65536));
    assert(((n2 + 1) * (n2 + 1)) * (l * l) >= (a.y * a.y) * (65536 * 65536));
    assert(((n3 + 1) * (n3 + 1)) * (l * l) >= (a.z * a.z) * (65536 * 65536));
    lemma_distrib3((n1 + 1) * (n1 + 1), (n2 + 1) * (n2 + 1), (n3 + 1) * (n3 + 1), l * l);
    assert((n1 + 1) * (n1 + 1) + (n2 + 1) * (n2 + 1) + (n3 + 1) * (n3 + 1)
        == nn + 2 * (n1 + n2 + n3) + 3) by (nonlinear_arith)
        requires
            nn == n1 * n1 + n2 * n2 + n3 * n3,
    ;
    assert(q >= l * l);
    lemma_mul_le_mono(65536int * 65536, l * l, q);
    assert((nn + 2 * (n1 + n2 + n3) + 3) * (l * l) >= (l * l) * (65536 * 65536));
    lemma_lower_step(nn, n1 + n2 + n3, l);
    assert(nn >= 65536 * 65536 - 6 * 65536 - 15);
    // the fixed dot square of the normalised vector
    assert(abs_v(n.x) <= 0x800_0000 && abs_v(n.y) <= 0x800_0000 && abs_v(n.z) <= 0x800_0000);
    lemma_sq_term(n.x);
    lemma_sq_term(n.y);
    lemma_sq_term(n.z);
    lemma_abs_sq(n.x);
    lemma_abs_sq(n.y);
    lemma_abs_sq(n.z);
    assert(nn == n.x * n.x + n.y * n.y + n.z * n.z);
    let u = v3_dot_v(n, n);
    assert(u == fx_mul_v(n.x, n.x) + fx_mul_v(n.y, n.y) + fx_mul_v(n.z, n.z));
    assert(65536 * u <= nn);
    assert(nn < 65536 * u + 3 * 65536);
    assert(u <= 65536 + 5);
    assert(u >= 65536 - 10);
}

} // verus!

//! The scalar type of the renderer: signed 16.16 fixed-point numbers.
//!
//! An `i64` value `v` stands for the real number `v / 65536`. All
//! operations round toward zero and saturate at `[-SAT, SAT]`, so every
//! scalar the library produces stays inside that band and no operation
//! can overflow or panic.

use vstd::prelude::*;

verus! {

/// The fixed-point representation of `1`.
pub const ONE: i64 = 65536;

/// Half of `ONE`, the fixed-point representation of `1/2`.
pub const HALF: i64 = 32768;

/// Saturation band: every scalar stays in `[-SAT, SAT]` (about 16.7
/// million in real units). Results outside the band are clamped to it,
/// much as IEEE floats overflow to infinity.
pub const SAT: i64 = 0x100_0000_0000;

pub open spec fn abs_v(a: int) -> int {
    if a >= 0 { a } else { -a }
}

/// Clamp to the scalar band.
pub open spec fn sat_v(a: int) -> int {
    if a > SAT { SAT as int } else if a < -(SAT as int) { -(SAT as int) } else { a }
}

/// Quotient rounded toward zero, the rounding every scalar operation uses.
pub open spec fn tdiv_v(a: int, b: int) -> int
    recommends
        b != 0,
{
    if (a >= 0) == (b >= 0) { abs_v(a) / abs_v(b) } else { -(abs_v(a) / abs_v(b)) }
}

/// Fixed-point product: `a * b / ONE`, rounded toward zero, saturated.
pub open spec fn fx_mul_v(a: int, b: int) -> int {
    sat_v(tdiv_v(a * b, ONE as int))
}

/// Fixed-point quotient: `a * ONE / b`, rounded toward zero, saturated.
/// Division by zero yields zero; callers that care test the divisor first.
pub open spec fn fx_div_v(a: int, b: int) -> int {
    if b == 0 { 0 } else { sat_v(tdiv_v(a * (ONE as int), b)) }
}

/// Saturating sum.
pub open spec fn fx_add_v(a: int, b: int) -> int {
    sat_v(a + b)
}

/// Saturating difference.
pub open spec fn fx_sub_v(a: int, b: int) -> int {
    sat_v(a - b)
}

/// Quotient of a fixed-point value by a plain integer, rounded toward zero.
pub open spec fn fx_divn_v(a: int, n: int) -> int
    recommends
        n >= 1,
{
    tdiv_v(a, n)
}

/// Floor of the square root of a natural number.
pub open spec fn isqrt_v(n: nat) -> nat
    decreases n,
{
    if n == 0 {
        0
    } else {
        let r = isqrt_v((n - 1) as nat);
        if (r + 1) * (r + 1) <= n { r + 1 } else { r }
    }
}

/// Fixed-point square root: floor of the square root of `a * ONE`.
/// Nonpositive inputs yield zero.
pub open spec fn fx_sqrt_v(a: int) -> int {
    if a <= 0 { 0 } else { isqrt_v((a * (ONE as int)) as nat) as int }
}

/// A scalar inside the band the operations keep.
pub open spec fn in_band(a: int) -> bool {
    -(SAT as int) <= a <= SAT as int
}

pub proof fn lemma_isqrt(n: nat)
    ensures
        isqrt_v(n) * isqrt_v(n) <= n < (isqrt_v(n) + 1) * (isqrt_v(n) + 1),
    decreases n,
{
    if n == 0 {
        assert(isqrt_v(n) == 0);
        assert(isqrt_v(n) * isqrt_v(n) <= n);
        assert(n < (isqrt_v(n) + 1) * (isqrt_v(n) + 1)) by (nonlinear_arith)
            requires
                n == 0,
                isqrt_v(n) == 0,
        ;
    } else {
        lemma_isqrt((n - 1) as nat);
        let r = isqrt_v((n - 1) as nat);
        assert(r * r <= n - 1 < (r + 1) * (r + 1));
        if (r + 1) * (r + 1) <= n {
            assert(isqrt_v(n) == r + 1);
            assert(n <= (r + 1) * (r + 1));
            assert((r + 1) * (r + 1) < (r + 2) * (r + 2)) by (nonlinear_arith);
            assert(n < (isqrt_v(n) + 1) * (isqrt_v(n) + 1));
        } else {
            assert(isqrt_v(n) == r);
            assert(isqrt_v(n) * isqrt_v(n) <= n);
            assert(n < (isqrt_v(n) + 1) * (isqrt_v(n) + 1));
        }
    }
}

pub proof fn lemma_isqrt_unique(n: nat, r: nat)
    requires
        r * r <= n,
        n < (r + 1) * (r + 1),
    ensures
        r == isqrt_v(n),
{
    lemma_isqrt(n);
    let s = isqrt_v(n);
    if r < s {
        assert((r + 1) * (r + 1) <= s * s) by (nonlinear_arith)
            requires
                r + 1 <= s,
        ;
        assert(false);
    }
    if s < r {
        assert((s + 1) * (s + 1) <= r * r) by (nonlinear_arith)
            requires
                s + 1 <= r,
        ;
        assert(false);
    }
}

/// Bounds of the truncating quotient: `|q| * b <= |a| < (|q| + 1) * b`.
pub proof fn lemma_tdiv_bounds(a: int, b: int)
    requires
        b >= 1,
    ensures
        abs_v(tdiv_v(a, b)) * b <= abs_v(a),
        abs_v(a) < (abs_v(tdiv_v(a, b)) + 1) * b,
        abs_v(tdiv_v(a, b)) <= abs_v(a),
{
    let p = abs_v(a);
    let q = p / b;
    assert(q * b <= p && p < (q + 1) * b && 0 <= q <= p) by (nonlinear_arith)
        requires
            p >= 0,
            b >= 1,
            q == p / b,
    ;
}

/// The truncating quotient keeps the sign of its dividend.
pub proof fn lemma_tdiv_sign(a: int, b: int)
    requires
        b >= 1,
    ensures
        a >= 0 ==> tdiv_v(a, b) >= 0,
        a <= 0 ==> tdiv_v(a, b) <= 0,
{
    assert(abs_v(a) / abs_v(b) >= 0) by (nonlinear_arith)
        requires
            abs_v(a) >= 0,
            abs_v(b) >= 1,
    ;
}

/// Dividing an exact multiple is exact: `tdiv(m * ONE, ONE) == m`.
pub proof fn lemma_tdiv_exact(m: int)
    ensures
        tdiv_v(m * 65536, 65536) == m,
{
    assert(abs_v(m * 65536) == abs_v(m) * 65536);
    assert((abs_v(m) * 65536) / 65536 == abs_v(m)) by (nonlinear_arith)
        requires
            abs_v(m) >= 0,
    ;
}

/// The truncating quotient is unchanged when both operands are negated.
pub proof fn lemma_tdiv_neg(a: int, b: int)
    requires
        b != 0,
    ensures
        tdiv_v(a, b) == tdiv_v(-a, -b),
{
    assert(abs_v(a) == abs_v(-a));
    assert(abs_v(b) == abs_v(-b));
    if a == 0 {
        assert(abs_v(a) / abs_v(b) == 0) by (nonlinear_arith)
            requires
                abs_v(a) == 0,
                abs_v(b) >= 1,
        ;
    }
}

fn sat_from_wide(x: i128) -> (r: i64)
    ensures
        r == sat_v(x as int),
        in_band(r as int),
{
    if x > SAT as i128 {
        SAT
    } else if x < -(SAT as i128) {
        -SAT
    } else {
        x as i64
    }
}

fn tdiv_wide(a: i128, b: i128) -> (r: i128)
    requires
        1 <= b,
        -0x1000_0000_0000_0000_0000_0000_0000 <= a <= 0x1000_0000_0000_0000_0000_0000_0000,
    ensures
        r == tdiv_v(a as int, b as int),
{
    if a >= 0 {
        let q = (a as u128) / (b as u128);
        assert(q <= a as u128) by {
            lemma_tdiv_bounds(a as int, b as int);
        };
        q as i128
    } else {
        let q = ((-a) as u128) / (b as u128);
        assert(q <= (-a) as u128) by {
            lemma_tdiv_bounds(a as int, b as int);
        };
        -(q as i128)
    }
}

/// Saturating fixed-point addition.
pub fn fx_add(a: i64, b: i64) -> (r: i64)
    requires
        in_band(a as int),
        in_band(b as int),
    ensures
        r == fx_add_v(a as int, b as int),
        in_band(r as int),
{
    let s = a + b;
    if s > SAT {
        SAT
    } else if s < -SAT {
        -SAT
    } else {
        s
    }
}

/// Saturating fixed-point subtraction.
pub fn fx_sub(a: i64, b: i64) -> (r: i64)
    requires
        in_band(a as int),
        in_band(b as int),
    ensures
        r == fx_sub_v(a as int, b as int),
        in_band(r as int),
{
    let s = a - b;
    if s > SAT {
        SAT
    } else if s < -SAT {
        -SAT
    } else {
        s
    }
}

/// Saturating fixed-point multiplication, rounded toward zero.
pub fn fx_mul(a: i64, b: i64) -> (r: i64)
    requires
        in_band(a as int),
        in_band(b as int),
    ensures
        r == fx_mul_v(a as int, b as int),
        in_band(r as int),
{
    proof {
        assert(-0x1_0000_0000_0000_0000_0000 <= (a as int) * (b as int)
            <= 0x1_0000_0000_0000_0000_0000) by (nonlinear_arith)
            requires
                -0x100_0000_0000 <= a as int <= 0x100_0000_0000,
                -0x100_0000_0000 <= b as int <= 0x100_0000_0000,
        ;
    }
    let p: i128 = (a as i128) * (b as i128);
    let q = tdiv_wide(p, ONE as i128);
    sat_from_wide(q)
}

/// Saturating fixed-point division, rounded toward zero; zero divisor
/// yields zero.
pub fn fx_div(a: i64, b: i64) -> (r: i64)
    requires
        in_band(a as int),
        in_band(b as int),
    ensures
        r == fx_div_v(a as int, b as int),
        in_band(r as int),
{
    if b == 0 {
        return 0;
    }
    let num: i128 = (a as i128) * (ONE as i128);
    let q = if b > 0 {
        tdiv_wide(num, b as i128)
    } else {
        proof {
            lemma_tdiv_neg(num as int, b as int);
        }
        tdiv_wide(-num, -(b as i128))
    };
    sat_from_wide(q)
}

/// Quotient of a fixed-point value by a plain positive integer, rounded
/// toward zero.
pub fn fx_divn(a: i64, n: i64) -> (r: i64)
    requires
        in_band(a as int),
        1 <= n,
    ensures
        r == fx_divn_v(a as int, n as int),
        in_band(r as int),
{
    let q = tdiv_wide(a as i128, n as i128);
    proof {
        lemma_tdiv_bounds(a as int, n as int);
    }
    q as i64
}

fn isqrt_exec(n: u64) -> (r: u64)
    requires
        n <= 0x100_0000_0000_0000,
    ensures
        r as nat == isqrt_v(n as nat),
        r <= 0x1000_0000,
{
    let mut lo: u64 = 0;
    let mut hi: u64 = 0x1000_0000;
    assert((0x1000_0000int + 1) * (0x1000_0000int + 1) > 0x100_0000_0000_0000int);
    while lo < hi
        invariant
            lo <= hi <= 0x1000_0000,
            n <= 0x100_0000_0000_0000,
            (lo as int) * (lo as int) <= n as int,
            (n as int) < (hi as int + 1) * (hi as int + 1),
        decreases hi - lo,
    {
        let mid = lo + (hi - lo + 1) / 2;
        assert(lo < mid <= hi);
        proof {
            assert((mid as int) * (mid as int) <= 0x100_0000_0000_0000) by (nonlinear_arith)
                requires
                    0 <= mid as int <= 0x1000_0000,
            ;
        }
        if mid * mid <= n {
            lo = mid;
        } else {
            hi = mid - 1;
        }
    }
    proof {
        lemma_isqrt_unique(n as nat, lo as nat);
    }
    lo
}

/// Fixed-point square root: floor of the square root of `a * ONE`.
/// Nonpositive inputs yield zero.
pub fn fx_sqrt(a: i64) -> (r: i64)
    requires
        in_band(a as int),
    ensures
        r == fx_sqrt_v(a as int),
        0 <= r,
        in_band(r as int),
{
    if a <= 0 {
        return 0;
    }
    let n: u64 = (a as u64) * (ONE as u64);
    let r = isqrt_exec(n);
    r as i64
}

/// One channel of a pixel write: clamp the colour to at most `ONE`, scale
/// to `[0, 255]` and truncate; negative channels come out as `0`.
pub open spec fn chan_byte_v(c: int) -> int {
    let m = if c < ONE as int { c } else { ONE as int };
    let s = tdiv_v(m * 255, ONE as int);
    if s < 0 { 0 } else { s }
}

/// Turn one colour channel into the byte written to the image.
pub fn chan_byte(c: i64) -> (r: u8)
    requires
        in_band(c as int),
    ensures
        r as int == chan_byte_v(c as int),
{
    let m = if c < ONE { c } else { ONE };
    let s = tdiv_wide((m as i128) * 255, ONE as i128);
    if s < 0 {
        0
    } else {
        proof {
            lemma_tdiv_bounds(m as int * 255, ONE as int);
            if m >= 0 {
                assert(abs_v(m as int * 255) == m as int * 255);
                assert(abs_v(s as int) * (ONE as int) <= m as int * 255);
                assert(m as int * 255 <= 255 * (ONE as int));
                assert(s as int <= 255);
            } else {
                lemma_tdiv_sign(m as int * 255, ONE as int);
                assert(s as int == 0);
            }
        }
        s as u8
    }
}

} // verus!

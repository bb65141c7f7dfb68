//! Fixed-point three-dimensional vector arithmetic.
//!
//! Coordinates are `i64` values at `SCALE` units per meter.  Unit-length
//! direction vectors are carried at the same scale, so a component of a unit
//! vector lies in `[-SCALE, SCALE]`.

use vstd::prelude::*;
use vstd::arithmetic::div_mod::{lemma_div_is_ordered, lemma_div_by_multiple};
use vstd::arithmetic::mul::{lemma_mul_inequality, lemma_mul_nonnegative};

verus! {

/// Fixed-point units per meter.
pub const SCALE: i64 = 1_000_000_000;

/// Largest coordinate magnitude the library works with (eight meters from
/// the origin), chosen so that every intermediate product below fits the
/// machine integer that computes it.
pub const MAX_COORD: i64 = 8_000_000_000;

/// A three-dimensional vector in fixed-point coordinates.
#[derive(Clone, Copy, Debug, PartialEq, Eq, Structural)]
pub struct Vec3Fx {
    pub x: i64,
    pub y: i64,
    pub z: i64,
}

/// Truncating division (the quotient is rounded toward zero), the rounding
/// that the executable sign-split divisions below perform.  Meaningful for
/// `b > 0`.
pub open spec fn tdiv(a: int, b: int) -> int {
    if a >= 0 {
        a / b
    } else {
        -((-a) / b)
    }
}

/// Every component's magnitude is bounded by `b`.
pub open spec fn vec_bounded(v: Vec3Fx, b: int) -> bool {
    -b <= v.x <= b && -b <= v.y <= b && -b <= v.z <= b
}

/// The vector lies within the library's working volume.
pub open spec fn vec_in_range(v: Vec3Fx) -> bool {
    vec_bounded(v, MAX_COORD as int)
}

/// Squared Euclidean length, as a mathematical integer.
pub open spec fn spec_len2(v: Vec3Fx) -> int {
    v.x * v.x + v.y * v.y + v.z * v.z
}

/// `r` is the integer square root of `n`, rounded down.
pub open spec fn is_sqrt_floor(n: int, r: int) -> bool {
    0 <= r && r * r <= n && n < (r + 1) * (r + 1)
}

/// The integer square root of `n`, rounded down (meaningful for `n >= 0`;
/// `lemma_sqrt_floor_exists` discharges the `choose`).
pub open spec fn sqrt_floor(n: int) -> int {
    choose|r: int| is_sqrt_floor(n, r)
}

/// The integer square root exists for every nonnegative integer.
pub proof fn lemma_sqrt_floor_exists(n: int)
    requires
        n >= 0,
    ensures
        is_sqrt_floor(n, sqrt_floor(n)),
    decreases n,
{
    if n == 0 {
        assert(is_sqrt_floor(0, 0));
    } else {
        lemma_sqrt_floor_exists(n - 1);
        let r = sqrt_floor(n - 1);
        if (r + 1) * (r + 1) <= n {
            // n - 1 < (r + 1) * (r + 1) <= n forces n == (r + 1) * (r + 1).
            assert((r + 1) * (r + 1) < (r + 2) * (r + 2)) by (nonlinear_arith)
                requires r >= 0;
            assert(is_sqrt_floor(n, r + 1));
        } else {
            assert(is_sqrt_floor(n, r));
        }
    }
    assert(exists|r: int| is_sqrt_floor(n, r));
}

/// The integer square root is unique, so any witness equals `sqrt_floor`.
pub proof fn lemma_sqrt_floor_unique(n: int, r: int)
    requires
        is_sqrt_floor(n, r),
    ensures
        r == sqrt_floor(n),
{
    let s = sqrt_floor(n);
    assert(is_sqrt_floor(n, s));
    if r < s {
        assert((r + 1) * (r + 1) <= s * s) by (nonlinear_arith)
            requires 0 <= r, r + 1 <= s;
        assert(false);
    }
    if s < r {
        assert((s + 1) * (s + 1) <= r * r) by (nonlinear_arith)
            requires 0 <= s, s + 1 <= r;
        assert(false);
    }
}

/// An upper bound on `n` gives an upper bound on its square root.
pub proof fn lemma_sqrt_floor_upper(n: int, r: int, b: int)
    requires
        is_sqrt_floor(n, r),
        0 <= b,
        n <= b * b,
    ensures
        r <= b,
{
    if r > b {
        assert((b + 1) * (b + 1) <= r * r) by (nonlinear_arith)
            requires 0 <= b, b + 1 <= r;
        assert(b * b < (b + 1) * (b + 1)) by (nonlinear_arith)
            requires 0 <= b;
        assert(false);
    }
}

/// A lower bound on `n` gives a lower bound on its square root.
pub proof fn lemma_sqrt_floor_lower(n: int, r: int, b: int)
    requires
        is_sqrt_floor(n, r),
        0 <= b,
        b * b <= n,
    ensures
        b <= r,
{
    if r < b {
        assert((r + 1) * (r + 1) <= b * b) by (nonlinear_arith)
            requires 0 <= r, r + 1 <= b;
        assert(false);
    }
}

/// Integer square root, rounded down.  Binary search over the answer.
pub fn isqrt_u128(n: u128) -> (r: u64)
    ensures
        is_sqrt_floor(n as int, r as int),
        r == sqrt_floor(n as int),
{
    let mut lo: u128 = 0;
    let mut hi: u128 = 0xffff_ffff_ffff_ffff;
    if n < hi {
        hi = n;
        assert(n < (hi + 1) * (hi + 1)) by (nonlinear_arith)
            requires hi == n, n >= 0;
    } else {
        assert(n < (hi + 1) * (hi + 1)) by (nonlinear_arith)
            requires hi == 0xffff_ffff_ffff_ffff, n <= u128::MAX;
    }
    while lo < hi
        invariant
            lo <= hi <= 0xffff_ffff_ffff_ffff,
            lo * lo <= n,
            n < (hi + 1) * (hi + 1),
        decreases hi - lo,
    {
        let ghost dist = hi - lo;
        let mid: u128 = lo + (hi - lo + 1) / 2;
        assert(lo < mid <= hi) by (nonlinear_arith)
            requires mid == lo + (hi - lo + 1) / 2, lo < hi;
        assert(mid * mid <= 0xffff_ffff_ffff_ffff * 0xffff_ffff_ffff_ffff) by (nonlinear_arith)
            requires 0 <= mid <= 0xffff_ffff_ffff_ffff;
        if mid * mid <= n {
            lo = mid;
        } else {
            hi = mid - 1;
        }
        assert(hi - lo < dist);
    }
    proof {
        lemma_sqrt_floor_unique(n as int, lo as int);
    }
    lo as u64
}

/// Componentwise difference `a - b` (meaningful when both vectors lie in the
/// working volume, where no component can overflow).
pub open spec fn spec_vec_sub(a: Vec3Fx, b: Vec3Fx) -> Vec3Fx {
    Vec3Fx { x: (a.x - b.x) as i64, y: (a.y - b.y) as i64, z: (a.z - b.z) as i64 }
}

/// Componentwise difference `a - b`, exact.
pub fn vec_sub(a: Vec3Fx, b: Vec3Fx) -> (r: Vec3Fx)
    requires
        vec_in_range(a),
        vec_in_range(b),
    ensures
        r == spec_vec_sub(a, b),
        r.x == a.x - b.x,
        r.y == a.y - b.y,
        r.z == a.z - b.z,
        vec_bounded(r, 2 * MAX_COORD as int),
{
    Vec3Fx { x: a.x - b.x, y: a.y - b.y, z: a.z - b.z }
}

/// Squared length of a vector, exact.
pub fn len2(v: Vec3Fx) -> (r: u128)
    requires
        vec_bounded(v, 2 * MAX_COORD as int),
    ensures
        r == spec_len2(v),
        r <= 768_000_000_000_000_000_000,
{
    let x = v.x as i128;
    let y = v.y as i128;
    let z = v.z as i128;
    proof {
        lemma_square_bound(x as int, 16_000_000_000);
        lemma_square_bound(y as int, 16_000_000_000);
        lemma_square_bound(z as int, 16_000_000_000);
    }
    let s: i128 = x * x + y * y + z * z;
    s as u128
}

/// The square of a value bounded by `b` is bounded by `b * b`.
proof fn lemma_square_bound(x: int, b: int)
    requires
        0 <= b,
        -b <= x <= b,
    ensures
        0 <= x * x <= b * b,
{
    assert(0 <= x * x <= b * b) by (nonlinear_arith)
        requires 0 <= b, -b <= x <= b;
}

/// Truncating division of `a` by a positive divisor `d`, exact with respect
/// to `tdiv`.
pub fn div_trunc(a: i64, d: i64) -> (r: i64)
    requires
        0 < d,
        a > i64::MIN,
    ensures
        r == tdiv(a as int, d as int),
{
    if a >= 0 {
        let q = (a as u64) / (d as u64);
        proof {
            lemma_div_is_ordered(a as int, i64::MAX as int, d as int);
            vstd::arithmetic::div_mod::lemma_div_nonincreasing(a as int, d as int);
        }
        q as i64
    } else {
        let m = -a;
        let q = (m as u64) / (d as u64);
        proof {
            vstd::arithmetic::div_mod::lemma_div_nonincreasing(m as int, d as int);
        }
        -(q as i64)
    }
}

/// The unit vector along `d`, at `SCALE`: each component is
/// `tdiv(d_i * SCALE, len)` where `len` is the length of `d` rounded down.
pub open spec fn spec_unit(d: Vec3Fx, len: int) -> Vec3Fx {
    Vec3Fx {
        x: tdiv(d.x * SCALE, len) as i64,
        y: tdiv(d.y * SCALE, len) as i64,
        z: tdiv(d.z * SCALE, len) as i64,
    }
}

/// One component of the normalization: `tdiv(c * SCALE, len)`, where
/// `|c| <= len`, so the result's magnitude is at most `SCALE`.
fn normalize_component(c: i64, len: u64) -> (r: i64)
    requires
        1 <= len <= i64::MAX,
        -(len as int) <= c <= len as int,
    ensures
        r == tdiv(c * SCALE, len as int),
        -(SCALE as int) <= r <= SCALE as int,
{
    if c >= 0 {
        let wide: u128 = (c as u128) * (SCALE as u128);
        let q: u128 = wide / (len as u128);
        proof {
            lemma_mul_nonnegative(c as int, SCALE as int);
            // c <= len, so c * SCALE <= len * SCALE and the quotient is at
            // most SCALE.
            lemma_mul_inequality(c as int, len as int, SCALE as int);
            lemma_div_is_ordered(c as int * SCALE as int, len as int * SCALE as int, len as int);
            lemma_div_by_multiple(SCALE as int, len as int);
            assert(len as int * SCALE as int == SCALE as int * len as int);
            assert(q == tdiv(c * SCALE, len as int));
        }
        q as i64
    } else {
        let m: i64 = -c;
        let wide: u128 = (m as u128) * (SCALE as u128);
        let q: u128 = wide / (len as u128);
        proof {
            lemma_mul_nonnegative(m as int, SCALE as int);
            lemma_mul_inequality(m as int, len as int, SCALE as int);
            lemma_div_is_ordered(m as int * SCALE as int, len as int * SCALE as int, len as int);
            lemma_div_by_multiple(SCALE as int, len as int);
            assert(len as int * SCALE as int == SCALE as int * len as int);
            assert(m as int * SCALE as int == -(c as int * SCALE as int));
            assert(q == -tdiv(c * SCALE, len as int));
        }
        -(q as i64)
    }
}

/// Normalize `d` to a unit vector at `SCALE`, given its rounded-down length
/// `len`.
pub fn normalize(d: Vec3Fx, len: u64) -> (r: Vec3Fx)
    requires
        1 <= len <= i64::MAX,
        is_sqrt_floor(spec_len2(d), len as int),
    ensures
        r == spec_unit(d, len as int),
        vec_bounded(r, SCALE as int),
{
    proof {
        lemma_component_le_len(d, len as int);
    }
    let x = normalize_component(d.x, len);
    let y = normalize_component(d.y, len);
    let z = normalize_component(d.z, len);
    Vec3Fx { x, y, z }
}

/// Each component's magnitude is at most the vector's length rounded down.
proof fn lemma_component_le_len(d: Vec3Fx, len: int)
    requires
        is_sqrt_floor(spec_len2(d), len),
    ensures
        -len <= d.x <= len,
        -len <= d.y <= len,
        -len <= d.z <= len,
{
    assert(d.x * d.x >= 0 && d.y * d.y >= 0 && d.z * d.z >= 0) by (nonlinear_arith);
    if d.x > len || -(d.x as int) > len {
        assert(d.x * d.x >= (len + 1) * (len + 1)) by (nonlinear_arith)
            requires 0 <= len, (d.x > len || -(d.x as int) > len);
        assert(false);
    }
    if d.y > len || -(d.y as int) > len {
        assert(d.y * d.y >= (len + 1) * (len + 1)) by (nonlinear_arith)
            requires 0 <= len, (d.y > len || -(d.y as int) > len);
        assert(false);
    }
    if d.z > len || -(d.z as int) > len {
        assert(d.z * d.z >= (len + 1) * (len + 1)) by (nonlinear_arith)
            requires 0 <= len, (d.z > len || -(d.z as int) > len);
        assert(false);
    }
}

/// Cross product of two vectors, exact over the integers.
pub open spec fn spec_cross(a: Vec3Fx, b: Vec3Fx) -> (int, int, int) {
    (
        a.y * b.z - a.z * b.y,
        a.z * b.x - a.x * b.z,
        a.x * b.y - a.y * b.x,
    )
}

/// The cross product of a vector with itself is zero.
pub proof fn lemma_cross_self_zero(a: Vec3Fx)
    ensures
        spec_cross(a, a) == (0int, 0int, 0int),
{
}

/// Cross product of two unit-scale vectors; each coordinate of the result is
/// exact and bounded by `2 * SCALE * SCALE`.
pub fn cross(a: Vec3Fx, b: Vec3Fx) -> (r: (i64, i64, i64))
    requires
        vec_bounded(a, SCALE as int),
        vec_bounded(b, SCALE as int),
    ensures
        (r.0 as int, r.1 as int, r.2 as int) == spec_cross(a, b),
        -2_000_000_000_000_000_000 <= r.0 <= 2_000_000_000_000_000_000,
        -2_000_000_000_000_000_000 <= r.1 <= 2_000_000_000_000_000_000,
        -2_000_000_000_000_000_000 <= r.2 <= 2_000_000_000_000_000_000,
{
    proof {
        lemma_unit_product_bound(a.y, b.z);
        lemma_unit_product_bound(a.z, b.y);
        lemma_unit_product_bound(a.z, b.x);
        lemma_unit_product_bound(a.x, b.z);
        lemma_unit_product_bound(a.x, b.y);
        lemma_unit_product_bound(a.y, b.x);
    }
    let cx = a.y * b.z - a.z * b.y;
    let cy = a.z * b.x - a.x * b.z;
    let cz = a.x * b.y - a.y * b.x;
    (cx, cy, cz)
}

/// The product of two unit-scale components is bounded by `SCALE * SCALE`.
proof fn lemma_unit_product_bound(p: i64, q: i64)
    requires
        -(SCALE as int) <= p <= SCALE as int,
        -(SCALE as int) <= q <= SCALE as int,
    ensures
        -1_000_000_000_000_000_000 <= p * q <= 1_000_000_000_000_000_000,
{
    assert(-1_000_000_000_000_000_000 <= p * q <= 1_000_000_000_000_000_000)
        by (nonlinear_arith)
        requires
            -(SCALE as int) <= p <= SCALE as int,
            -(SCALE as int) <= q <= SCALE as int,
            SCALE == 1_000_000_000,
    ;
}

} // verus!


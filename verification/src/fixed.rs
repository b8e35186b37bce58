//! Fixed-point scalars for the camera engine.
//!
//! Every normalized quantity of the engine (pan offsets, zoom factors,
//! animation progress) is a signed 64-bit count of millionths: the value
//! `SCALE` stands for `1.0`. All arithmetic keeps dividends non-negative,
//! so executable division and mathematical (floor) division agree.

use vstd::prelude::*;
use vstd::arithmetic::div_mod::{
    lemma_fundamental_div_mod, lemma_fundamental_div_mod_converse_div, lemma_div_is_ordered,
};

verus! {

/// The fixed-point unit: this many counts stand for `1.0`.
pub const SCALE: i64 = 1_000_000;

/// `x` forced into the interval `[lo, hi]`.
pub open spec fn clamped(x: int, lo: int, hi: int) -> int {
    if x < lo {
        lo
    } else if x > hi {
        hi
    } else {
        x
    }
}

/// Clamp a scalar into `[lo, hi]`.
pub fn clamp64(x: i64, lo: i64, hi: i64) -> (r: i64)
    requires
        lo <= hi,
    ensures
        r == clamped(x as int, lo as int, hi as int),
{
    if x < lo {
        lo
    } else if x > hi {
        hi
    } else {
        x
    }
}

/// The cubic ease-in-out curve `c^2 * (3 - 2c)` on the fixed-point grid,
/// where `c` is the argument forced into `[0, SCALE]`.
pub open spec fn spec_smooth_step(t: int) -> int {
    let c = clamped(t, 0, SCALE as int);
    c * c * (3 * SCALE - 2 * c) / ((SCALE as int) * (SCALE as int))
}

/// Eased interpolation phase: clamps to `[0, SCALE]`, then applies the
/// cubic `c^2 * (3 - 2c)`, which starts and stops with zero velocity.
pub fn smooth_step(t: i64) -> (r: i64)
    ensures
        r == spec_smooth_step(t as int),
        0 <= r <= SCALE,
{
    let c = clamp64(t, 0, SCALE);
    proof {
        lemma_smooth_step_numerator_bounds(c as int);
    }
    let num = c * c * (3 * SCALE - 2 * c);
    num / (SCALE * SCALE)
}

/// The ease numerator `c^2 * (3*SCALE - 2c)` stays within `[0, SCALE^3]`
/// for `c` in `[0, SCALE]`.
proof fn lemma_smooth_step_numerator_bounds(c: int)
    by (nonlinear_arith)
    requires
        0 <= c <= SCALE,
    ensures
        0 <= c * c <= (SCALE as int) * (SCALE as int),
        0 <= c * c * (3 * SCALE - 2 * c),
        c * c * (3 * SCALE - 2 * c) <= (SCALE as int) * (SCALE as int) * (SCALE as int),
{
    assert((SCALE as int) * (SCALE as int) * (SCALE as int) - c * c * (3 * SCALE - 2 * c)
        == (SCALE - c) * (SCALE - c) * (SCALE + 2 * c));
}

/// The ease curve maps `[0, SCALE]` into `[0, SCALE]`, with the endpoints
/// fixed: everything at or below `0` eases to `0`, everything at or above
/// `SCALE` eases to `SCALE`.
pub proof fn lemma_smooth_step_bounds(t: int)
    ensures
        0 <= spec_smooth_step(t) <= SCALE,
        t <= 0 ==> spec_smooth_step(t) == 0,
        t >= SCALE ==> spec_smooth_step(t) == SCALE,
{
    let s = SCALE as int;
    let c = clamped(t, 0, s);
    let num = c * c * (3 * s - 2 * c);
    lemma_smooth_step_numerator_bounds(c);
    lemma_div_is_ordered(0, num, s * s);
    lemma_div_is_ordered(num, s * s * s, s * s);
    assert(s * s * s / (s * s) == s) by (nonlinear_arith)
        requires s == SCALE as int;
    if t <= 0 {
        assert(num == 0) by (nonlinear_arith)
            requires c == 0 && num == c * c * (3 * SCALE - 2 * c);
    }
    if t >= SCALE {
        assert(c == s);
        assert(s * s * (3 * s - 2 * s) == s * s * s) by (nonlinear_arith);
    }
}

/// The ease curve never decreases.
pub proof fn lemma_smooth_step_monotonic(t1: int, t2: int)
    requires
        t1 <= t2,
    ensures
        spec_smooth_step(t1) <= spec_smooth_step(t2),
{
    let s = SCALE as int;
    let c1 = clamped(t1, 0, s);
    let c2 = clamped(t2, 0, s);
    assert(c1 * c1 * (3 * s - 2 * c1) <= c2 * c2 * (3 * s - 2 * c2)) by (nonlinear_arith)
        requires
            0 <= c1 <= c2 <= s,
    {
        assert(c2 * c2 * (3 * s - 2 * c2) - c1 * c1 * (3 * s - 2 * c1)
            == (c2 - c1) * (3 * s * (c1 + c2) - 2 * (c1 * c1 + c1 * c2 + c2 * c2)));
        assert((c2 - c1) * (3 * s * (c1 + c2) - 2 * (c1 * c1 + c1 * c2 + c2 * c2)) >= 0);
    }
    lemma_div_is_ordered(
        c1 * c1 * (3 * s - 2 * c1),
        c2 * c2 * (3 * s - 2 * c2),
        s * s,
    );
}

/// Interpolation between `a` and `b` at eased phase `e`, on the grid:
/// the mathematical value `a + (b - a) * e / SCALE`, rounded toward `a`'s
/// side down to the grid (floor of the exact value).
pub open spec fn spec_lerp(a: int, b: int, e: int) -> int {
    if b >= a {
        a + (b - a) * e / (SCALE as int)
    } else {
        a - ((a - b) * e + SCALE - 1) / (SCALE as int)
    }
}

/// Both branches of `spec_lerp` compute the floor of `a + (b - a) * e / SCALE`.
pub proof fn lemma_lerp_is_floor(a: int, b: int, e: int)
    ensures
        spec_lerp(a, b, e) == a + (b - a) * e / (SCALE as int),
{
    let s = SCALE as int;
    if b < a {
        let m = (a - b) * e;
        let n = (b - a) * e;
        assert(n == -m) by (nonlinear_arith)
            requires m == (a - b) * e && n == (b - a) * e;
        lemma_fundamental_div_mod(n, s);
        let q = n / s;
        let r = n % s;
        assert(m + s - 1 == (-q) * s + (s - r - 1)) by (nonlinear_arith)
            requires m == -n && n == q * s + r;
        lemma_fundamental_div_mod_converse_div(m + s - 1, s, -q, s - r - 1);
    }
}

/// Linear interpolation on the fixed-point grid.
pub fn lerp(a: i64, b: i64, e: i64) -> (r: i64)
    requires
        0 <= a <= SCALE,
        0 <= b <= SCALE,
        0 <= e <= SCALE,
    ensures
        r == spec_lerp(a as int, b as int, e as int),
        0 <= r <= SCALE,
{
    proof {
        lemma_lerp_in_interval(a as int, b as int, e as int, 0, SCALE as int);
    }
    if b >= a {
        proof {
            lemma_mul_bounds_for_lerp(b as int - a as int, e as int);
        }
        a + (b - a) * e / SCALE
    } else {
        proof {
            lemma_mul_bounds_for_lerp(a as int - b as int, e as int);
        }
        a - ((a - b) * e + (SCALE - 1)) / SCALE
    }
}

/// The product of a delta and a phase, both within `[0, SCALE]`, stays
/// within `[0, SCALE^2]`.
proof fn lemma_mul_bounds_for_lerp(d: int, e: int)
    by (nonlinear_arith)
    requires
        0 <= d <= SCALE,
        0 <= e <= SCALE,
    ensures
        0 <= d * e <= (SCALE as int) * (SCALE as int),
{
}

/// Interpolation stays inside any interval that holds both endpoints.
pub proof fn lemma_lerp_in_interval(a: int, b: int, e: int, lo: int, hi: int)
    requires
        lo <= a <= hi,
        lo <= b <= hi,
        0 <= e <= SCALE,
    ensures
        lo <= spec_lerp(a, b, e) <= hi,
{
    let s = SCALE as int;
    if b >= a {
        let d = b - a;
        assert(0 <= d * e <= d * s) by (nonlinear_arith)
            requires 0 <= d && 0 <= e <= s;
        lemma_div_is_ordered(0, d * e, s);
        lemma_div_is_ordered(d * e, d * s, s);
        assert(d * s / s == d) by (nonlinear_arith)
            requires s == SCALE as int && d == b - a;
    } else {
        let d = a - b;
        let n = d * e + s - 1;
        assert(0 <= n <= d * s + s - 1) by (nonlinear_arith)
            requires s == SCALE as int && 0 < d && 0 <= e <= s && n == d * e + s - 1;
        lemma_div_is_ordered(0, n, s);
        lemma_div_is_ordered(n, d * s + s - 1, s);
        assert((d * s + s - 1) / s == d) by {
            lemma_fundamental_div_mod_converse_div(d * s + s - 1, s, d, s - 1);
        }
    }
}

/// Floor division distributes over addition only up to rounding: the sum
/// of two quotients never exceeds the quotient of the sum.
proof fn lemma_div_add_le(m: int, n: int, d: int)
    requires
        0 < d,
    ensures
        m / d + n / d <= (m + n) / d,
{
    lemma_fundamental_div_mod(m, d);
    lemma_fundamental_div_mod(n, d);
    let qm = m / d;
    let rm = m % d;
    let qn = n / d;
    let rn = n % d;
    if rm + rn < d {
        assert((qm + qn) * d + (rm + rn) == m + n) by (nonlinear_arith)
            requires m == d * qm + rm && n == d * qn + rn;
        lemma_fundamental_div_mod_converse_div(m + n, d, qm + qn, rm + rn);
    } else {
        assert((qm + qn + 1) * d + (rm + rn - d) == m + n) by (nonlinear_arith)
            requires m == d * qm + rm && n == d * qn + rn;
        lemma_fundamental_div_mod_converse_div(m + n, d, qm + qn + 1, rm + rn - d);
    }
}

/// Interpolating a pair of scalars whose sums are bounded at both ends
/// keeps the sum of the interpolated values bounded: the crop offset and
/// the crop size can be eased together without the crop leaving the
/// screen.
pub proof fn lemma_lerp_sum_le(a: int, b: int, az: int, bz: int, e: int, bound: int)
    requires
        a + az <= bound,
        b + bz <= bound,
        0 <= e <= SCALE,
    ensures
        spec_lerp(a, b, e) + spec_lerp(az, bz, e) <= bound,
{
    let s = SCALE as int;
    lemma_lerp_is_floor(a, b, e);
    lemma_lerp_is_floor(az, bz, e);
    lemma_div_add_le((b - a) * e, (bz - az) * e, s);
    let d = (b + bz) - (a + az);
    assert((b - a) * e + (bz - az) * e == d * e) by (nonlinear_arith)
        requires d == (b + bz) - (a + az);
    if d >= 0 {
        assert(d * e <= d * s) by (nonlinear_arith)
            requires 0 <= d && 0 <= e <= s;
        lemma_div_is_ordered(d * e, d * s, s);
        assert(d * s / s == d) by (nonlinear_arith)
            requires s == SCALE as int && d == (b + bz) - (a + az);
    } else {
        assert(d * e <= 0) by (nonlinear_arith)
            requires d < 0 && 0 <= e;
        lemma_div_is_ordered(d * e, 0, s);
    }
}

/// At phase `0` interpolation returns the start; at phase `SCALE` it
/// returns the destination exactly.
pub proof fn lemma_lerp_endpoints(a: int, b: int)
    ensures
        spec_lerp(a, b, 0) == a,
        spec_lerp(a, b, SCALE as int) == b,
{
    let s = SCALE as int;
    if b >= a {
        let d = b - a;
        assert(d * 0 == 0) by (nonlinear_arith);
        assert(0int / s == 0);
        assert(d * s / s == d) by (nonlinear_arith)
            requires s == SCALE as int && d == b - a;
    } else {
        let d = a - b;
        assert(d * 0 == 0) by (nonlinear_arith);
        assert((s - 1) / s == 0);
        assert((d * s + s - 1) / s == d) by {
            lemma_fundamental_div_mod_converse_div(d * s + s - 1, s, d, s - 1);
        }
    }
}

} // verus!

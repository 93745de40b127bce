//! Fixed-point scalar arithmetic: all world quantities are `i64` values
//! carrying 1000 sub-units per world unit. Division rounds toward zero,
//! matching hardware division on magnitudes.

use vstd::prelude::*;

verus! {

/// Number of fixed-point sub-units in one world unit.
pub const FX_ONE: i64 = 1000;

/// Magnitude bound on any world quantity handed to the arithmetic helpers;
/// products of two such values still fit in an `i64`.
pub const FX_MAX: i64 = 2_000_000_000;

/// Truncating division (rounds toward zero); `d` must be positive.
pub open spec fn tdiv(n: int, d: int) -> int {
    if n >= 0 {
        n / d
    } else {
        -((-n) / d)
    }
}

/// Absolute value.
pub open spec fn iabs(n: int) -> int {
    if n >= 0 {
        n
    } else {
        -n
    }
}

/// Clamping into `[lo, hi]`.
pub open spec fn clamp_spec(v: int, lo: int, hi: int) -> int {
    if v < lo {
        lo
    } else if v > hi {
        hi
    } else {
        v
    }
}

/// Fixed-point product: `a * b` scaled back down by one unit.
pub open spec fn fx_mul_spec(a: int, b: int) -> int {
    tdiv(a * b, FX_ONE as int)
}

/// Fixed-point quotient: `a / b` scaled up by one unit before dividing.
pub open spec fn fx_div_spec(a: int, b: int) -> int {
    tdiv(a * (FX_ONE as int), b)
}

/// Linear interpolation from `a` to `b` by `t` (fixed-point, 0..=1000).
pub open spec fn lerp_spec(a: int, b: int, t: int) -> int {
    a + tdiv((b - a) * t, FX_ONE as int)
}

/// Where `v` sits between `a` and `b`, clamped to the fixed-point unit range.
pub open spec fn inv_lerp_spec(a: int, b: int, v: int) -> int {
    clamp_spec(tdiv((v - a) * (FX_ONE as int), b - a), 0, FX_ONE as int)
}

/// Truncating division stays within the dividend's magnitude and keeps its
/// sign.
pub proof fn lemma_tdiv_bounds(n: int, d: int)
    requires
        0 < d,
    ensures
        n >= 0 ==> 0 <= tdiv(n, d) <= n,
        n <= 0 ==> n <= tdiv(n, d) <= 0,
{
    if n >= 0 {
        vstd::arithmetic::div_mod::lemma_div_pos_is_pos(n, d);
        vstd::arithmetic::div_mod::lemma_div_nonincreasing(n, d);
    } else {
        vstd::arithmetic::div_mod::lemma_div_pos_is_pos(-n, d);
        vstd::arithmetic::div_mod::lemma_div_nonincreasing(-n, d);
    }
}

/// A magnitude bound on the dividend gives a magnitude bound on the
/// truncating quotient.
pub proof fn lemma_tdiv_in_range(n: int, d: int, m: int)
    requires
        0 < d,
        -m <= n <= m,
    ensures
        -(m / d) <= tdiv(n, d) <= m / d,
{
    if n >= 0 {
        vstd::arithmetic::div_mod::lemma_div_pos_is_pos(n, d);
        vstd::arithmetic::div_mod::lemma_div_is_ordered(n, m, d);
    } else {
        vstd::arithmetic::div_mod::lemma_div_pos_is_pos(-n, d);
        vstd::arithmetic::div_mod::lemma_div_is_ordered(-n, m, d);
    }
}

/// Multiplying the truncating quotient back by the divisor stays within the
/// dividend's magnitude.
pub proof fn lemma_tdiv_mul_back(n: int, d: int)
    requires
        0 < d,
    ensures
        iabs(tdiv(n, d) * d) <= iabs(n),
{
    let a = iabs(n);
    vstd::arithmetic::div_mod::lemma_fundamental_div_mod(a, d);
    vstd::arithmetic::div_mod::lemma_mod_bound(a, d);
    vstd::arithmetic::div_mod::lemma_div_pos_is_pos(a, d);
    assert(a / d * d <= a) by {
        assert(a == d * (a / d) + a % d);
        assert(a % d >= 0);
        vstd::arithmetic::mul::lemma_mul_is_commutative(d, a / d);
    }
    vstd::arithmetic::mul::lemma_mul_nonnegative(a / d, d);
    if n >= 0 {
        assert(tdiv(n, d) == a / d);
    } else {
        assert(tdiv(n, d) == -(a / d));
        assert((-(a / d)) * d == -(a / d * d)) by {
            vstd::arithmetic::mul::lemma_mul_unary_negation(a / d, d);
        }
    }
}

/// Magnitude bounds on the factors give a magnitude bound on a fixed-point
/// product.
pub proof fn lemma_fx_mul_bound(a: int, b: int, ma: int, mb: int)
    requires
        iabs(a) <= ma,
        iabs(b) <= mb,
    ensures
        -((ma * mb) / 1000) <= fx_mul_spec(a, b) <= (ma * mb) / 1000,
        iabs(fx_mul_spec(a, b)) <= (ma * mb) / 1000,
{
    assert(-(ma * mb) <= a * b <= ma * mb) by (nonlinear_arith)
        requires
            iabs(a) <= ma,
            iabs(b) <= mb,
    ;
    lemma_tdiv_in_range(a * b, 1000, ma * mb);
    vstd::arithmetic::div_mod::lemma_div_pos_is_pos(ma * mb, 1000);
}

/// Upper bound on a fixed-point quotient of a bounded non-negative value by
/// a divisor with a positive lower bound.
pub proof fn lemma_fx_div_upper(a: int, b: int, ma: int, bmin: int)
    requires
        0 <= a <= ma,
        1 <= bmin <= b,
    ensures
        0 <= fx_div_spec(a, b) <= (ma * 1000) / bmin,
{
    vstd::arithmetic::div_mod::lemma_div_pos_is_pos(a * 1000, b);
    vstd::arithmetic::div_mod::lemma_div_is_ordered(a * 1000, ma * 1000, b);
    vstd::arithmetic::div_mod::lemma_div_is_ordered_by_denominator(ma * 1000, bmin, b);
    vstd::arithmetic::mul::lemma_mul_nonnegative(a, 1000);
}

/// Lower bound on a fixed-point quotient of a non-negative value with a
/// lower bound, by a divisor with an upper bound.
pub proof fn lemma_fx_div_lower(a: int, b: int, amin: int, bmax: int)
    requires
        0 <= amin <= a,
        1 <= b <= bmax,
    ensures
        fx_div_spec(a, b) >= (amin * 1000) / bmax,
{
    vstd::arithmetic::mul::lemma_mul_nonnegative(amin, 1000);
    vstd::arithmetic::div_mod::lemma_div_is_ordered(amin * 1000, a * 1000, b);
    vstd::arithmetic::div_mod::lemma_div_is_ordered_by_denominator(amin * 1000, b, bmax);
}

/// Lower bound on a fixed-point product of non-negative factors when the
/// first factor has a lower bound.
pub proof fn lemma_fx_mul_lower_pos(a: int, b: int, amin: int)
    requires
        0 <= amin <= a,
        0 <= b,
    ensures
        fx_mul_spec(a, b) >= (amin * b) / 1000,
{
    assert(amin * b <= a * b) by (nonlinear_arith)
        requires
            0 <= amin <= a,
            0 <= b,
    ;
    vstd::arithmetic::mul::lemma_mul_nonnegative(amin, b);
    vstd::arithmetic::div_mod::lemma_div_is_ordered(amin * b, a * b, 1000);
}

/// Scaling a non-negative value by a unit fraction keeps it within its
/// original bound.
pub proof fn lemma_fx_mul_frac_le(t: int, s: int)
    requires
        0 <= t <= 1000,
        0 <= s,
    ensures
        0 <= fx_mul_spec(t, s) <= s,
{
    assert(0 <= t * s <= 1000 * s) by (nonlinear_arith)
        requires
            0 <= t <= 1000,
            0 <= s,
    ;
    vstd::arithmetic::div_mod::lemma_div_is_ordered(t * s, 1000 * s, 1000);
    vstd::arithmetic::div_mod::lemma_div_multiples_vanish(s, 1000);
    vstd::arithmetic::div_mod::lemma_div_pos_is_pos(t * s, 1000);
}

/// A product with one factor carrying a whole number of units divides back
/// exactly: `(k * 1000) * g / 1000 == k * g`.
pub proof fn lemma_fx_mul_exact_thousandths(k: int, g: int)
    requires
        0 <= k,
        0 <= g,
    ensures
        fx_mul_spec(k * 1000, g) == k * g,
        fx_mul_spec(-(k * 1000), g) == -(k * g),
{
    assert((k * 1000) * g == 1000 * (k * g)) by (nonlinear_arith);
    assert((-(k * 1000)) * g == -(1000 * (k * g))) by (nonlinear_arith);
    vstd::arithmetic::mul::lemma_mul_nonnegative(k, g);
    vstd::arithmetic::div_mod::lemma_div_multiples_vanish(k * g, 1000);
}

/// Division of a non-negative value by a positive one.
pub fn div_nn(a: i64, b: i64) -> (r: i64)
    requires
        0 <= a,
        0 < b,
    ensures
        r == a as int / b as int,
        r == tdiv(a as int, b as int),
        0 <= r <= a,
{
    proof {
        lemma_tdiv_bounds(a as int, b as int);
    }
    a / b
}

/// Truncating division of any value by a positive one.
pub fn tdiv_i64(n: i64, d: i64) -> (r: i64)
    requires
        0 < d,
        i64::MIN < n,
    ensures
        r == tdiv(n as int, d as int),
        iabs(r as int) <= iabs(n as int),
{
    proof {
        lemma_tdiv_bounds(n as int, d as int);
    }
    if n >= 0 {
        n / d
    } else {
        -((-n) / d)
    }
}

/// Fixed-point product of two bounded quantities.
pub fn fx_mul(a: i64, b: i64) -> (r: i64)
    requires
        -FX_MAX <= a <= FX_MAX,
        -FX_MAX <= b <= FX_MAX,
    ensures
        r == fx_mul_spec(a as int, b as int),
        iabs(r as int) <= iabs(a as int * b as int),
{
    proof {
        vstd::arithmetic::mul::lemma_mul_upper_bound(
            iabs(a as int) as int,
            FX_MAX as int,
            iabs(b as int) as int,
            FX_MAX as int,
        );
        vstd::arithmetic::mul::lemma_mul_nonnegative(iabs(a as int) as int, iabs(b as int) as int);
        assert(iabs(a as int * b as int) == iabs(a as int) * iabs(b as int)) by (nonlinear_arith);
        lemma_tdiv_bounds(a as int * b as int, FX_ONE as int);
    }
    let p: i64 = a * b;
    tdiv_i64(p, FX_ONE)
}

/// Fixed-point quotient of a bounded quantity by a positive one.
pub fn fx_div(a: i64, b: i64) -> (r: i64)
    requires
        -FX_MAX <= a <= FX_MAX,
        0 < b,
    ensures
        r == fx_div_spec(a as int, b as int),
        iabs(r as int) <= iabs(a as int * 1000),
{
    proof {
        lemma_tdiv_bounds(a as int * 1000, FX_ONE as int);
        lemma_tdiv_bounds(a as int * 1000, b as int);
    }
    let p: i64 = a * FX_ONE;
    tdiv_i64(p, b)
}

/// Clamps `v` into `[lo, hi]`.
pub fn clamp_i64(v: i64, lo: i64, hi: i64) -> (r: i64)
    requires
        lo <= hi,
    ensures
        r == clamp_spec(v as int, lo as int, hi as int),
        lo <= r <= hi,
{
    if v < lo {
        lo
    } else if v > hi {
        hi
    } else {
        v
    }
}

/// The smaller of two values.
pub fn min_i64(a: i64, b: i64) -> (r: i64)
    ensures
        r == if a <= b { a as int } else { b as int },
{
    if a <= b {
        a
    } else {
        b
    }
}

/// The larger of two values.
pub fn max_i64(a: i64, b: i64) -> (r: i64)
    ensures
        r == if a >= b { a as int } else { b as int },
{
    if a >= b {
        a
    } else {
        b
    }
}

/// Absolute value.
pub fn abs_i64(v: i64) -> (r: i64)
    requires
        i64::MIN < v,
    ensures
        r == iabs(v as int),
{
    if v >= 0 {
        v
    } else {
        -v
    }
}

/// Linear interpolation from `a` to `b` by the fixed-point fraction `t`;
/// the result lies between `a` and `b`, with `t == 0` giving `a` exactly and
/// a full fraction giving `b` exactly.
pub fn lerp_fx(a: i64, b: i64, t: i64) -> (r: i64)
    requires
        -FX_MAX <= a <= FX_MAX,
        -FX_MAX <= b <= FX_MAX,
        0 <= t <= FX_ONE,
    ensures
        r == lerp_spec(a as int, b as int, t as int),
        a <= b ==> a <= r <= b,
        b <= a ==> b <= r <= a,
        t == 0 ==> r == a,
        t == FX_ONE ==> r == b,
{
    let d: i64 = b - a;
    proof {
        lemma_lerp_step_bounds(d as int, t as int);
    }
    let p: i64 = d * t;
    let step: i64 = tdiv_i64(p, FX_ONE);
    a + step
}

/// The interpolation step `(d * t) / 1000` is bounded by `d` for a unit
/// fraction, and reproduces `d` exactly at the full fraction.
proof fn lemma_lerp_step_bounds(d: int, t: int)
    requires
        0 <= t <= FX_ONE,
    ensures
        d >= 0 ==> 0 <= tdiv(d * t, 1000) <= d,
        d <= 0 ==> d <= tdiv(d * t, 1000) <= 0,
        t == 0 ==> tdiv(d * t, 1000) == 0,
        t == FX_ONE ==> tdiv(d * t, 1000) == d,
{
    let m = iabs(d);
    assert(0 <= m * t <= m * 1000) by (nonlinear_arith)
        requires
            0 <= t <= 1000,
            0 <= m,
    ;
    vstd::arithmetic::div_mod::lemma_div_is_ordered(m * t, m * 1000, 1000);
    vstd::arithmetic::div_mod::lemma_div_pos_is_pos(m * t, 1000);
    assert((m * 1000) / 1000 == m) by {
        vstd::arithmetic::div_mod::lemma_div_by_multiple(m, 1000);
    }
    if d >= 0 {
        assert(tdiv(d * t, 1000) == (m * t) / 1000);
    } else {
        assert(d * t == -(m * t)) by (nonlinear_arith)
            requires
                m == -d,
        ;
        assert(tdiv(d * t, 1000) == -((m * t) / 1000));
    }
    if t == 1000 {
        assert((m * 1000) / 1000 == m);
    }
}

/// Where `v` sits between `a` and `b` as a clamped fixed-point fraction:
/// 0 at or below `a`, a full unit at or above `b`.
pub fn inv_lerp_fx(a: i64, b: i64, v: i64) -> (r: i64)
    requires
        -FX_MAX <= a < b <= FX_MAX,
        -FX_MAX <= v <= FX_MAX,
    ensures
        r == inv_lerp_spec(a as int, b as int, v as int),
        0 <= r <= FX_ONE,
        v <= a ==> r == 0,
        v >= b ==> r == FX_ONE,
{
    let num: i64 = v - a;
    let den: i64 = b - a;
    proof {
        lemma_tdiv_bounds(num as int * 1000, den as int);
        if v >= b {
            assert((den as int * 1000) / den as int == 1000) by {
                vstd::arithmetic::div_mod::lemma_div_multiples_vanish(1000, den as int);
                vstd::arithmetic::mul::lemma_mul_is_commutative(den as int, 1000);
            }
            vstd::arithmetic::div_mod::lemma_div_is_ordered(
                den as int * 1000,
                num as int * 1000,
                den as int,
            );
            assert(den as int * 1000 <= num as int * 1000) by (nonlinear_arith)
                requires
                    den as int <= num as int,
            ;
        }
    }
    let p: i64 = num * FX_ONE;
    let t: i64 = tdiv_i64(p, den);
    clamp_i64(t, 0, FX_ONE)
}

} // verus!

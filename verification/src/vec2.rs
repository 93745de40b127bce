//! Fixed-point 2D vectors, an exact integer square root, and direction
//! normalization whose result provably never exceeds unit magnitude.

use vstd::prelude::*;
use crate::fixed::{tdiv, iabs, lemma_tdiv_mul_back, tdiv_i64, FX_ONE};

verus! {

/// Magnitude bound on the components of a raw direction handed to
/// `normalize_or_zero`.
pub const DIR_MAX: i64 = 100_000;

/// A fixed-point 2D vector (1000 sub-units per world unit).
#[derive(Clone, Copy, PartialEq, Eq, Structural, Debug)]
pub struct Vec2Fx {
    pub x: i64,
    pub y: i64,
}

/// Squared magnitude.
pub open spec fn norm_sq_spec(v: Vec2Fx) -> int {
    v.x * v.x + v.y * v.y
}

/// Squared distance between two points.
pub open spec fn dist_sq_spec(a: Vec2Fx, b: Vec2Fx) -> int {
    (a.x - b.x) * (a.x - b.x) + (a.y - b.y) * (a.y - b.y)
}

/// `r` is the least non-negative integer whose square reaches `n`.
pub open spec fn is_ceil_sqrt(r: int, n: int) -> bool {
    &&& r >= 0
    &&& r * r >= n
    &&& r >= 1 ==> (r - 1) * (r - 1) < n
}

/// `r` is `v` scaled to the unit disc: zero for the zero vector, else each
/// component scaled by one unit and divided by the ceiling of `v`'s
/// magnitude (which `is_ceil_sqrt` pins uniquely).
pub open spec fn is_normalized_of(r: Vec2Fx, v: Vec2Fx) -> bool {
    if v.x == 0 && v.y == 0 {
        r.x == 0 && r.y == 0
    } else {
        exists|m: int|
            #[trigger] is_ceil_sqrt(m, norm_sq_spec(v)) && r.x == tdiv(v.x * 1000, m) && r.y
                == tdiv(v.y * 1000, m)
    }
}

impl Vec2Fx {
    /// Whether this is the zero vector.
    pub fn is_zero(&self) -> (r: bool)
        ensures
            r == (self.x == 0 && self.y == 0),
    {
        self.x == 0 && self.y == 0
    }
}

/// `0 <= v * v <= m * m` whenever `-m <= v <= m`.
proof fn lemma_square_bound(v: int, m: int)
    requires
        -m <= v <= m,
    ensures
        0 <= v * v <= m * m,
    decreases 0int,
{
    assert(0 <= v * v <= m * m) by (nonlinear_arith)
        requires
            -m <= v <= m,
    ;
}

/// The squared magnitude of a raw direction is non-negative and bounded,
/// and positive exactly when the direction is non-zero.
pub(crate) proof fn lemma_dir_norm_sq_bound(x: int, y: int)
    requires
        -DIR_MAX <= x <= DIR_MAX,
        -DIR_MAX <= y <= DIR_MAX,
    ensures
        0 <= x * x <= 10_000_000_000,
        0 <= y * y <= 10_000_000_000,
        0 <= x * x + y * y <= 20_000_000_000,
        !(x == 0 && y == 0) ==> x * x + y * y > 0,
{
    lemma_square_bound(x, DIR_MAX as int);
    lemma_square_bound(y, DIR_MAX as int);
    assert(x * x + y * y <= 20_000_000_000) by (nonlinear_arith)
        requires
            x * x <= 10_000_000_000,
            y * y <= 10_000_000_000,
    ;
    if !(x == 0 && y == 0) {
        assert(x * x + y * y > 0) by (nonlinear_arith)
            requires
                !(x == 0 && y == 0),
        ;
    }
}

/// The least `r` with `r * r >= n`, found by binary search.
pub fn sqrt_ceil(n: u64) -> (r: u64)
    requires
        n <= 8_000_000_000_000_000_000,
    ensures
        r * r >= n,
        r >= 1 ==> (r - 1) * (r - 1) < n,
        r <= 3_000_000_000,
        n == 0 ==> r == 0,
        n > 0 ==> r >= 1,
{
    let mut lo: u64 = 0;
    let mut hi: u64 = 3_000_000_000;
    proof {
        assert(3_000_000_000u64 * 3_000_000_000u64 >= n);
    }
    while lo < hi
        invariant
            lo <= hi <= 3_000_000_000,
            hi * hi >= n,
            lo >= 1 ==> (lo - 1) * (lo - 1) < n,
            n <= 8_000_000_000_000_000_000,
        decreases hi - lo,
    {
        let mid: u64 = lo + (hi - lo) / 2;
        proof {
            lemma_square_bound(mid as int, 3_000_000_000int);
        }
        if mid * mid >= n {
            hi = mid;
        } else {
            lo = mid + 1;
        }
    }
    lo
}

/// The ceiling square root is exact on perfect squares.
pub(crate) proof fn lemma_sqrt_ceil_exact(r: int, k: int)
    requires
        1 <= k,
        0 <= r,
        r * r >= k * k,
        r >= 1 ==> (r - 1) * (r - 1) < k * k,
    ensures
        r == k,
{
    assert(r >= k) by (nonlinear_arith)
        requires
            r * r >= k * k,
            0 <= r,
            1 <= k,
    ;
    assert(r - 1 < k) by (nonlinear_arith)
        requires
            (r - 1) * (r - 1) < k * k,
            0 <= r - 1,
            1 <= k,
    ;
}

/// Scales a raw direction to (at most) unit fixed-point magnitude; the zero
/// vector stays zero, and inputs lying exactly on an axis land exactly on the
/// unit point of that axis.
pub fn normalize_or_zero(v: Vec2Fx) -> (r: Vec2Fx)
    requires
        -crate::fixed::FX_MAX <= v.x <= crate::fixed::FX_MAX,
        -crate::fixed::FX_MAX <= v.y <= crate::fixed::FX_MAX,
    ensures
        norm_sq_spec(r) <= 1_000_000,
        iabs(r.x as int) <= 1000,
        iabs(r.y as int) <= 1000,
        is_normalized_of(r, v),
        (v.x == 0 && v.y == 0) ==> (r.x == 0 && r.y == 0),
        !(v.x == 0 && v.y == 0) ==> !(r.x == 0 && r.y == 0),
        v.y == 0 && v.x > 0 ==> (r.x == 1000 && r.y == 0),
        v.y == 0 && v.x < 0 ==> (r.x == -1000 && r.y == 0),
        v.x == 0 && v.y > 0 ==> (r.x == 0 && r.y == 1000),
        v.x == 0 && v.y < 0 ==> (r.x == 0 && r.y == -1000),
    {
    if v.x == 0 && v.y == 0 {
        return Vec2Fx { x: 0, y: 0 };
    }
    proof {
        lemma_square_bound(v.x as int, crate::fixed::FX_MAX as int);
        lemma_square_bound(v.y as int, crate::fixed::FX_MAX as int);
    }
    let nsq: u64 = (v.x * v.x) as u64 + (v.y * v.y) as u64;
    proof {
        assert(v.x as int * v.x as int + v.y as int * v.y as int > 0) by (nonlinear_arith)
            requires
                !(v.x == 0 && v.y == 0),
        ;
    }
    let m: u64 = sqrt_ceil(nsq);
    proof {
        if v.y == 0 {
            assert(nsq == iabs(v.x as int) * iabs(v.x as int)) by (nonlinear_arith)
                requires
                    nsq == v.x as int * v.x as int + v.y as int * v.y as int,
                    v.y == 0,
            ;
            lemma_sqrt_ceil_exact(m as int, iabs(v.x as int));
        }
        if v.x == 0 {
            assert(nsq == iabs(v.y as int) * iabs(v.y as int)) by (nonlinear_arith)
                requires
                    nsq == v.x as int * v.x as int + v.y as int * v.y as int,
                    v.x == 0,
            ;
            lemma_sqrt_ceil_exact(m as int, iabs(v.y as int));
        }
    }
    let mi: i64 = m as i64;
    let px: i64 = v.x * FX_ONE;
    let py: i64 = v.y * FX_ONE;
    let nx: i64 = tdiv_i64(px, mi);
    let ny: i64 = tdiv_i64(py, mi);
    proof {
        lemma_normalized_in_unit_disc(
            v.x as int,
            v.y as int,
            mi as int,
            nx as int,
            ny as int,
        );
        if v.y == 0 && v.x != 0 {
            lemma_axis_component_exact(v.x as int, mi as int);
        }
        if v.x == 0 && v.y != 0 {
            lemma_axis_component_exact(v.y as int, mi as int);
        }
        assert(is_ceil_sqrt(mi as int, norm_sq_spec(v)));
        lemma_normalized_nonzero(v.x as int, v.y as int, mi as int, nx as int, ny as int);
    }
    Vec2Fx { x: nx, y: ny }
}

/// Scaling a non-zero vector by one unit over the ceiling of its own
/// magnitude cannot vanish: the larger component keeps at least half a
/// unit.
proof fn lemma_normalized_nonzero(x: int, y: int, m: int, nx: int, ny: int)
    requires
        !(x == 0 && y == 0),
        is_ceil_sqrt(m, x * x + y * y),
        nx == tdiv(x * 1000, m),
        ny == tdiv(y * 1000, m),
    ensures
        !(nx == 0 && ny == 0),
{
    let a = if iabs(x) >= iabs(y) {
        iabs(x)
    } else {
        iabs(y)
    };
    assert(a >= 1);
    assert(x * x + y * y > 0) by (nonlinear_arith)
        requires
            !(x == 0 && y == 0),
    ;
    assert(m >= 1);
    assert(x * x + y * y <= 2 * (a * a)) by (nonlinear_arith)
        requires
            iabs(x) <= a,
            iabs(y) <= a,
    ;
    // The ceiling of the magnitude is at most twice the larger component.
    assert(m <= 2 * a) by (nonlinear_arith)
        requires
            m >= 1,
            a >= 1,
            (m - 1) * (m - 1) < 2 * (a * a),
    ;
    // The larger component, scaled and divided, keeps at least 500.
    assert(a * 1000 == (2 * a) * 500);
    vstd::arithmetic::div_mod::lemma_div_multiples_vanish(500, 2 * a);
    vstd::arithmetic::div_mod::lemma_div_is_ordered_by_denominator(a * 1000, m, 2 * a);
    assert((a * 1000) / m >= 500);
    if iabs(x) >= iabs(y) {
        assert(iabs(x * 1000) == a * 1000) by (nonlinear_arith)
            requires
                a == iabs(x),
        ;
        vstd::arithmetic::div_mod::lemma_div_pos_is_pos(a * 1000, m);
        if x * 1000 >= 0 {
            assert(nx == (a * 1000) / m);
        } else {
            assert(nx == -((a * 1000) / m));
        }
        assert(nx != 0);
    } else {
        assert(iabs(y * 1000) == a * 1000) by (nonlinear_arith)
            requires
                a == iabs(y),
        ;
        vstd::arithmetic::div_mod::lemma_div_pos_is_pos(a * 1000, m);
        if y * 1000 >= 0 {
            assert(ny == (a * 1000) / m);
        } else {
            assert(ny == -((a * 1000) / m));
        }
        assert(ny != 0);
    }
}

/// Dividing `c * 1000` by `|c|` lands exactly on the signed unit point.
proof fn lemma_axis_component_exact(c: int, m: int)
    requires
        c != 0,
        m == iabs(c),
    ensures
        tdiv(c * 1000, m) == if c > 0 { 1000int } else { -1000int },
{
    vstd::arithmetic::div_mod::lemma_div_multiples_vanish(1000, m);
    if c > 0 {
        assert(c * 1000 == m * 1000) by (nonlinear_arith)
            requires
                c == m,
        ;
    } else {
        assert(-(c * 1000) == m * 1000) by (nonlinear_arith)
            requires
                m == -c,
        ;
    }
}

/// A vector scaled down by (at least) the ceiling of its own magnitude lies
/// in the closed unit disc.
pub(crate) proof fn lemma_normalized_in_unit_disc(x: int, y: int, m: int, nx: int, ny: int)
    requires
        m >= 1,
        m * m >= x * x + y * y,
        nx == tdiv(x * 1000, m),
        ny == tdiv(y * 1000, m),
    ensures
        nx * nx + ny * ny <= 1_000_000,
        iabs(nx) <= 1000,
        iabs(ny) <= 1000,
{
    lemma_tdiv_mul_back(x * 1000, m);
    lemma_tdiv_mul_back(y * 1000, m);
    assert(iabs(nx * m) == iabs(nx) * m) by (nonlinear_arith)
        requires
            m >= 1,
    ;
    assert(iabs(ny * m) == iabs(ny) * m) by (nonlinear_arith)
        requires
            m >= 1,
    ;
    assert(iabs(x * 1000) == iabs(x) * 1000) by (nonlinear_arith);
    assert(iabs(y * 1000) == iabs(y) * 1000) by (nonlinear_arith);
    // |nx| * m <= |x| * 1000, so nx^2 * m^2 <= x^2 * 1000^2, likewise for y.
    assert(nx * nx * (m * m) <= x * x * 1_000_000) by (nonlinear_arith)
        requires
            iabs(nx) * m <= iabs(x) * 1000,
            m >= 1,
    ;
    assert(ny * ny * (m * m) <= y * y * 1_000_000) by (nonlinear_arith)
        requires
            iabs(ny) * m <= iabs(y) * 1000,
            m >= 1,
    ;
    assert((nx * nx + ny * ny) * (m * m) <= (x * x + y * y) * 1_000_000) by (nonlinear_arith)
        requires
            nx * nx * (m * m) <= x * x * 1_000_000,
            ny * ny * (m * m) <= y * y * 1_000_000,
    ;
    assert(nx * nx + ny * ny <= 1_000_000) by (nonlinear_arith)
        requires
            (nx * nx + ny * ny) * (m * m) <= (x * x + y * y) * 1_000_000,
            m * m >= x * x + y * y,
            m >= 1,
    ;
    assert(iabs(nx) <= 1000) by (nonlinear_arith)
        requires
            nx * nx + ny * ny <= 1_000_000,
    ;
    assert(iabs(ny) <= 1000) by (nonlinear_arith)
        requires
            nx * nx + ny * ny <= 1_000_000,
    ;
}

} // verus!

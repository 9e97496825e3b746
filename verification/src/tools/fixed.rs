//! Fixed-point arithmetic of the plane.
//!
//! Lengths and coordinates are whole numbers of units, a billion to the
//! pixel. Time is counted in microseconds and speed in pixels per second, so
//! a speed of `s` covers exactly `1000 * s` units per microsecond. Speeds
//! that have been split or scaled are kept in thousandths of a pixel per
//! second: one thousandth covers one unit per microsecond.

use vstd::prelude::*;

verus! {

/// Units in one pixel.
pub const UNITS_PER_PIXEL: i64 = 1_000_000_000;

/// Largest magnitude of a coordinate or of a length, in units.
pub const COORD_LIMIT: i64 = 4_611_686_018_427_387_904;

/// Thousandths per whole: the scale of a speed on a straight course.
pub const STRAIGHT_SCALE: u64 = 1000;

/// Thousandths kept of the speed on each axis of a diagonal course.
pub const DIAGONAL_SCALE: u64 = 707;

/// Whether `v` is a coordinate of the plane.
pub open spec fn on_plane(v: int) -> bool {
    -COORD_LIMIT <= v <= COORD_LIMIT
}

/// The coordinate of the plane nearest to `v`.
pub open spec fn clamp_coord(v: int) -> int {
    if v < -COORD_LIMIT {
        -(COORD_LIMIT as int)
    } else if v > COORD_LIMIT {
        COORD_LIMIT as int
    } else {
        v
    }
}

/// The length nearest to `v` that the plane can hold.
pub open spec fn clamp_length(v: int) -> int {
    if v < 0 {
        0
    } else if v > COORD_LIMIT {
        COORD_LIMIT as int
    } else {
        v
    }
}

/// Magnitude of `v`.
pub open spec fn magnitude(v: int) -> int {
    if v < 0 {
        -v
    } else {
        v
    }
}

/// Direction from `from` to `to` along one axis: -1, 0 or 1.
pub open spec fn sign_toward(from: int, to: int) -> int {
    if from > to {
        -1
    } else if from < to {
        1
    } else {
        0
    }
}

/// Whether `r` is the square root of `n`, rounded down.
pub open spec fn is_sqrt_of(r: int, n: int) -> bool {
    0 <= r && r * r <= n < (r + 1) * (r + 1)
}

/// The square root of `n`, rounded down.
pub open spec fn int_sqrt(n: int) -> int {
    choose|r: int| is_sqrt_of(r, n)
}

/// Squaring keeps the order of non-negative numbers.
pub proof fn lemma_square_monotonic(a: int, b: int)
    by (nonlinear_arith)
    requires
        0 <= a <= b,
    ensures
        a * a <= b * b,
{
}

/// At most one number is the rounded-down square root of `n`.
pub proof fn lemma_sqrt_unique(n: int, r1: int, r2: int)
    requires
        is_sqrt_of(r1, n),
        is_sqrt_of(r2, n),
    ensures
        r1 == r2,
{
    if r1 < r2 {
        lemma_square_monotonic(r1 + 1, r2);
    } else if r2 < r1 {
        lemma_square_monotonic(r2 + 1, r1);
    }
}

/// Every non-negative number has a rounded-down square root, and `int_sqrt`
/// names it.
pub proof fn lemma_int_sqrt(n: int)
    requires
        0 <= n,
    ensures
        is_sqrt_of(int_sqrt(n), n),
    decreases n,
{
    if n == 0 {
        assert(is_sqrt_of(0, n));
    } else {
        lemma_int_sqrt(n - 1);
        let r = int_sqrt(n - 1);
        if (r + 1) * (r + 1) <= n {
            assert((r + 2) * (r + 2) > (r + 1) * (r + 1)) by (nonlinear_arith)
                requires
                    0 <= r,
            ;
            assert((r + 1) * (r + 1) == r * r + 2 * r + 1) by (nonlinear_arith);
            assert((r + 2) * (r + 2) == r * r + 4 * r + 4) by (nonlinear_arith);
            assert(is_sqrt_of(r + 1, n));
        } else {
            assert(is_sqrt_of(r, n));
        }
    }
}

/// A number whose square does not exceed `n` does not exceed its root.
pub proof fn lemma_sqrt_lower_bound(b: int, n: int)
    requires
        0 <= b,
        b * b <= n,
    ensures
        b <= int_sqrt(n),
{
    assert(0 <= b * b) by (nonlinear_arith);
    lemma_int_sqrt(n);
    let r = int_sqrt(n);
    if r < b {
        lemma_square_monotonic(r + 1, b);
    }
}

/// The root of a perfect square.
pub proof fn lemma_sqrt_of_square(s: int)
    requires
        0 <= s,
    ensures
        int_sqrt(s * s) == s,
{
    assert(0 <= s * s) by (nonlinear_arith);
    assert(s * s < (s + 1) * (s + 1)) by (nonlinear_arith)
        requires
            0 <= s,
    ;
    assert(is_sqrt_of(s, s * s));
    lemma_int_sqrt(s * s);
    lemma_sqrt_unique(s * s, s, int_sqrt(s * s));
}

/// Moves a wide value onto the plane.
pub fn clamp_to_plane(v: i128) -> (r: i64)
    ensures
        r == clamp_coord(v as int),
{
    if v < -(COORD_LIMIT as i128) {
        -COORD_LIMIT
    } else if v > COORD_LIMIT as i128 {
        COORD_LIMIT
    } else {
        v as i64
    }
}

/// Distance between two coordinates along one axis.
pub fn axis_distance(a: i64, b: i64) -> (d: u64)
    ensures
        d == magnitude(a - b),
{
    if a >= b {
        (a as i128 - b as i128) as u64
    } else {
        (b as i128 - a as i128) as u64
    }
}

/// Direction from `from` to `to` along one axis.
pub fn direction_toward(from: i64, to: i64) -> (s: i8)
    ensures
        s == sign_toward(from as int, to as int),
{
    if from > to {
        -1
    } else if from < to {
        1
    } else {
        0
    }
}

/// Square root of `n`, rounded down.
pub fn isqrt(n: u128) -> (r: u64)
    ensures
        r == int_sqrt(n as int),
        is_sqrt_of(r as int, n as int),
{
    let mut lo: u128 = 0;
    let mut hi: u128 = 0x1_0000_0000_0000_0000;
    assert(hi * hi > n) by (nonlinear_arith)
        requires
            hi == 0x1_0000_0000_0000_0000,
            n <= u128::MAX,
    ;
    assert(lo * lo <= n) by (nonlinear_arith)
        requires
            lo == 0,
            0 <= n,
    ;
    while hi - lo > 1
        invariant
            lo < hi <= 0x1_0000_0000_0000_0000,
            lo * lo <= n < hi * hi,
        decreases hi - lo,
    {
        let mid: u128 = lo + (hi - lo) / 2;
        assert(mid * mid <= u128::MAX) by (nonlinear_arith)
            requires
                0 <= mid <= 0xffff_ffff_ffff_ffff,
        ;
        if mid * mid <= n {
            lo = mid;
        } else {
            hi = mid;
        }
    }
    proof {
        assert(hi == lo + 1);
        assert(is_sqrt_of(lo as int, n as int));
        lemma_int_sqrt(n as int);
        lemma_sqrt_unique(n as int, lo as int, int_sqrt(n as int));
    }
    lo as u64
}

} // verus!

//! Fixed-point plane geometry: vectors in micro-pixels or `MILLI`-scaled
//! direction units, an exact integer square root, normalization, and the
//! strict proximity test used by the collision checks.

use vstd::prelude::*;
use crate::MILLI;
use crate::COORD_LIMIT;
use vstd::arithmetic::div_mod::lemma_fundamental_div_mod;
use vstd::arithmetic::div_mod::lemma_mod_division_less_than_divisor;
use vstd::arithmetic::div_mod::lemma_div_pos_is_pos;

verus! {

/// A plane vector with exact integer components.
///
/// Positions and velocities use micro-pixel components; direction vectors use
/// `MILLI`-scaled components (a unit direction has length about `MILLI`).
#[derive(Clone, Copy, PartialEq, Eq, Structural, Debug)]
pub struct Vec2 {
    pub x: i64,
    pub y: i64,
}

impl Vec2 {
    /// Both components within `lim` of the origin.
    pub open spec fn bounded(self, lim: int) -> bool {
        -lim <= self.x <= lim && -lim <= self.y <= lim
    }

    /// A position the simulation will accept: far from integer overflow.
    pub open spec fn in_range(self) -> bool {
        self.bounded(COORD_LIMIT as int)
    }

    /// Squared Euclidean length.
    pub open spec fn len_sq(self) -> int {
        self.x * self.x + self.y * self.y
    }
}

/// Squared Euclidean distance between two points.
pub open spec fn dist_sq(a: Vec2, b: Vec2) -> int {
    (a.x - b.x) * (a.x - b.x) + (a.y - b.y) * (a.y - b.y)
}

/// The floor of the square root of `n`.
pub open spec fn sqrt_floor(n: nat) -> nat
    decreases n,
{
    if n == 0 {
        0
    } else {
        let r: nat = sqrt_floor((n - 1) as nat);
        if (r + 1) * (r + 1) <= n {
            r + 1
        } else {
            r
        }
    }
}

/// `sqrt_floor(n)` is indeed the floor of the square root.
pub proof fn lemma_sqrt_floor(n: nat)
    ensures
        sqrt_floor(n) * sqrt_floor(n) <= n,
        n < (sqrt_floor(n) + 1) * (sqrt_floor(n) + 1),
    decreases n,
{
    if n == 0 {
        assert(sqrt_floor(0) == 0);
        assert(n < (sqrt_floor(n) + 1) * (sqrt_floor(n) + 1)) by (nonlinear_arith)
            requires
                n == 0,
                sqrt_floor(n) == 0,
        {}
    } else {
        lemma_sqrt_floor((n - 1) as nat);
        let r: nat = sqrt_floor((n - 1) as nat);
        if (r + 1) * (r + 1) <= n {
            assert(sqrt_floor(n) == r + 1);
            assert(n < (sqrt_floor(n) + 1) * (sqrt_floor(n) + 1)) by (nonlinear_arith)
                requires
                    sqrt_floor(n) == r + 1,
                    (n - 1) < (r + 1) * (r + 1),
                    r >= 0,
            {}
        } else {
            assert(sqrt_floor(n) == r);
            assert(r * r <= n - 1);
        }
    }
}

/// No two distinct naturals are both square-root floors of `n`.
pub proof fn lemma_sqrt_floor_unique(n: nat, r: nat)
    requires
        r * r <= n,
        n < (r + 1) * (r + 1),
    ensures
        r == sqrt_floor(n),
{
    lemma_sqrt_floor(n);
    let s: nat = sqrt_floor(n);
    if r < s {
        assert(false) by (nonlinear_arith)
            requires
                r + 1 <= s,
                r >= 0,
                s * s <= n,
                n < (r + 1) * (r + 1),
        {}
    }
    if s < r {
        assert(false) by (nonlinear_arith)
            requires
                s + 1 <= r,
                s >= 0,
                r * r <= n,
                n < (s + 1) * (s + 1),
        {}
    }
}

/// Floor of the square root of `n`, by binary search.
pub fn isqrt(n: u128) -> (r: u128)
    ensures
        r == sqrt_floor(n as nat),
        r * r <= n,
        n < (r + 1) * (r + 1),
{
    let mut lo: u128 = 0;
    let mut hi: u128 = 0x10000000000000000;
    proof {
        assert(n < hi * hi) by (nonlinear_arith)
            requires
                hi == 0x10000000000000000,
                n <= 0xffffffffffffffffffffffffffffffff,
        {}
    }
    while lo + 1 < hi
        invariant
            lo < hi,
            hi <= 0x10000000000000000,
            lo * lo <= n,
            n < hi * hi,
        decreases hi - lo,
    {
        let mid: u128 = lo + (hi - lo) / 2;
        proof {
            assert(mid * mid <= 0xffffffffffffffffffffffffffffffff) by (nonlinear_arith)
                requires
                    0 <= mid <= 0xffffffffffffffff,
            {}
        }
        if mid * mid <= n {
            lo = mid;
        } else {
            hi = mid;
        }
    }
    proof {
        lemma_sqrt_floor_unique(n as nat, lo as nat);
    }
    lo
}

/// One component of the `MILLI`-scaled unit vector along `(a, ..)` when the
/// whole vector has length `len`: the magnitude is divided exactly and the
/// sign is kept.
pub open spec fn norm_component(a: int, len: int) -> int
    recommends
        len > 0,
{
    if a >= 0 {
        (a * MILLI) / len
    } else {
        -(((-a) * MILLI) / len)
    }
}

/// The `MILLI`-scaled unit vector with the direction of `v`.
pub open spec fn unit_of(v: Vec2) -> Vec2
    recommends
        v.len_sq() > 0,
{
    let len: int = sqrt_floor(v.len_sq() as nat) as int;
    Vec2 {
        x: norm_component(v.x as int, len) as i64,
        y: norm_component(v.y as int, len) as i64,
    }
}

/// A nonnegative magnitude at most `len` keeps its `MILLI`-scaled quotient
/// between `0` and `MILLI`.
proof fn lemma_norm_quotient_bounded(a: int, len: int)
    requires
        0 <= a <= len,
        len >= 1,
    ensures
        0 <= (a * MILLI) / len <= MILLI,
{
    assert(0 <= (a * 1000) / len <= 1000) by (nonlinear_arith)
        requires
            0 <= a <= len,
            len >= 1,
    {}
}

/// Normalizing a vector at least `MILLI` long really does land near unit
/// length: the squared length of the result is within integer rounding of
/// `MILLI * MILLI`.
pub proof fn lemma_unit_of_near_unit(v: Vec2)
    requires
        v.len_sq() >= MILLI * MILLI,
    ensures
        (MILLI - 3) * (MILLI - 3) <= unit_of(v).len_sq(),
        unit_of(v).len_sq() <= (MILLI + 1) * (MILLI + 1),
{
    let s: int = v.len_sq();
    let ax: int = if v.x >= 0 {
        v.x as int
    } else {
        -(v.x as int)
    };
    let ay: int = if v.y >= 0 {
        v.y as int
    } else {
        -(v.y as int)
    };
    assert(ax * ax == v.x * v.x && ay * ay == v.y * v.y) by (nonlinear_arith)
        requires
            ax == (if v.x >= 0 {
                v.x as int
            } else {
                -(v.x as int)
            }),
            ay == (if v.y >= 0 {
                v.y as int
            } else {
                -(v.y as int)
            }),
    {}
    let len: int = sqrt_floor(s as nat) as int;
    lemma_sqrt_floor(s as nat);
    assert(len >= MILLI) by (nonlinear_arith)
        requires
            s >= MILLI * MILLI,
            s < (len + 1) * (len + 1),
            len >= 0,
            MILLI == 1000,
    {}
    assert(ax <= len && ay <= len) by (nonlinear_arith)
        requires
            ax * ax + ay * ay == s,
            s < (len + 1) * (len + 1),
            ax >= 0,
            ay >= 0,
            len >= 0,
    {}
    let ux: int = (ax * MILLI) / len;
    let uy: int = (ay * MILLI) / len;
    lemma_norm_quotient_bounded(ax, len);
    lemma_norm_quotient_bounded(ay, len);
    lemma_fundamental_div_mod(ax * MILLI, len);
    lemma_fundamental_div_mod(ay * MILLI, len);
    lemma_mod_division_less_than_divisor(ax * MILLI, len);
    lemma_mod_division_less_than_divisor(ay * MILLI, len);
    let xx: int = len * ux;
    let yy: int = len * uy;
    assert(xx <= ax * MILLI && ax * MILLI <= xx + len - 1 && xx >= 0) by (nonlinear_arith)
        requires
            ax * MILLI == len * ((ax * MILLI) / len) + (ax * MILLI) % len,
            0 <= (ax * MILLI) % len < len,
            xx == len * ((ax * MILLI) / len),
            (ax * MILLI) / len >= 0,
            len >= 1,
    {}
    assert(yy <= ay * MILLI && ay * MILLI <= yy + len - 1 && yy >= 0) by (nonlinear_arith)
        requires
            ay * MILLI == len * ((ay * MILLI) / len) + (ay * MILLI) % len,
            0 <= (ay * MILLI) % len < len,
            yy == len * ((ay * MILLI) / len),
            (ay * MILLI) / len >= 0,
            len >= 1,
    {}
    // Upper bound: the quotients undershoot the exact ratio, so the squared
    // length stays under MILLI^2 * s / len^2, which is below (MILLI + 1)^2.
    assert(xx * xx + yy * yy <= MILLI * MILLI * s) by (nonlinear_arith)
        requires
            0 <= xx,
            xx <= ax * MILLI,
            0 <= yy,
            yy <= ay * MILLI,
            ax * ax + ay * ay == s,
            ax >= 0,
            ay >= 0,
            MILLI == 1000,
    {}
    assert(MILLI * MILLI * s < len * len * ((MILLI + 1) * (MILLI + 1))) by (nonlinear_arith)
        requires
            s < (len + 1) * (len + 1),
            MILLI <= len,
            MILLI == 1000,
    {}
    assert(ux * ux + uy * uy < (MILLI + 1) * (MILLI + 1)) by (nonlinear_arith)
        requires
            xx == len * ux,
            yy == len * uy,
            xx * xx + yy * yy < len * len * ((MILLI + 1) * (MILLI + 1)),
            len >= 1,
    {}
    // Lower bound: each quotient misses the exact ratio by less than one
    // division step, so the squared length loses at most a few MILLI.
    assert(MILLI * MILLI * (ax * ax) <= xx * xx + 2 * (len * xx) + len * len) by (nonlinear_arith)
        requires
            ax * MILLI <= xx + len,
            ax >= 0,
            xx >= 0,
            len >= 0,
            MILLI == 1000,
    {}
    assert(MILLI * MILLI * (ay * ay) <= yy * yy + 2 * (len * yy) + len * len) by (nonlinear_arith)
        requires
            ay * MILLI <= yy + len,
            ay >= 0,
            yy >= 0,
            len >= 0,
            MILLI == 1000,
    {}
    assert(MILLI * MILLI * s == MILLI * MILLI * (ax * ax) + MILLI * MILLI * (ay * ay))
        by (nonlinear_arith)
        requires
            ax * ax + ay * ay == s,
    {}
    assert(len * xx <= MILLI * (len * len) && len * yy <= MILLI * (len * len)) by (nonlinear_arith)
        requires
            xx == len * ux,
            yy == len * uy,
            ux <= MILLI,
            uy <= MILLI,
            len >= 0,
    {}
    assert(MILLI * MILLI * s >= MILLI * MILLI * (len * len)) by (nonlinear_arith)
        requires
            s >= len * len,
            MILLI == 1000,
    {}
    assert(xx * xx + yy * yy >= (len * len) * ((MILLI - 3) * (MILLI - 3))) by (nonlinear_arith)
        requires
            MILLI * MILLI * s <= xx * xx + yy * yy + 2 * (len * xx) + 2 * (len * yy) + 2 * (len
                * len),
            len * xx <= MILLI * (len * len),
            len * yy <= MILLI * (len * len),
            MILLI * MILLI * s >= MILLI * MILLI * (len * len),
            len * len >= 0,
            MILLI == 1000,
    {}
    assert(ux * ux + uy * uy >= (MILLI - 3) * (MILLI - 3)) by (nonlinear_arith)
        requires
            xx == len * ux,
            yy == len * uy,
            xx * xx + yy * yy >= (len * len) * ((MILLI - 3) * (MILLI - 3)),
            len >= 1,
    {}
    // The result's components are the quotients with their signs put back.
    let u = unit_of(v);
    assert(u.x as int == (if v.x >= 0 {
        ux
    } else {
        -ux
    }) && u.y as int == (if v.y >= 0 {
        uy
    } else {
        -uy
    }));
    assert(u.x * u.x == ux * ux && u.y * u.y == uy * uy) by (nonlinear_arith)
        requires
            u.x == ux || u.x == -ux,
            u.y == uy || u.y == -uy,
    {}
}

/// Scale `v` so its length is about `MILLI`, keeping its direction.
pub fn normalize(v: Vec2) -> (r: Vec2)
    requires
        v.bounded(COORD_LIMIT as int),
        v.len_sq() > 0,
    ensures
        r == unit_of(v),
        r.bounded(MILLI as int),
{
    let ax: u128 = if v.x >= 0 {
        v.x as u128
    } else {
        (-v.x) as u128
    };
    let ay: u128 = if v.y >= 0 {
        v.y as u128
    } else {
        (-v.y) as u128
    };
    proof {
        assert(ax * ax == v.x * v.x && ay * ay == v.y * v.y && ax * ax + ay * ay
            <= 0xffffffffffffffffffffffffffffffff) by (nonlinear_arith)
            requires
                ax == (if v.x >= 0 { v.x as int } else { -(v.x as int) }),
                ay == (if v.y >= 0 { v.y as int } else { -(v.y as int) }),
                -COORD_LIMIT <= v.x <= COORD_LIMIT,
                -COORD_LIMIT <= v.y <= COORD_LIMIT,
                COORD_LIMIT == 0x10000000000000,
        {}
    }
    let len: u128 = isqrt(ax * ax + ay * ay);
    proof {
        assert(ax <= len && ay <= len) by (nonlinear_arith)
            requires
                ax * ax + ay * ay < (len + 1) * (len + 1),
                ax >= 0,
                ay >= 0,
                len >= 0,
        {}
        lemma_norm_quotient_bounded(ax as int, len as int);
        lemma_norm_quotient_bounded(ay as int, len as int);
    }
    let mx: u128 = ax * 1000 / len;
    let my: u128 = ay * 1000 / len;
    let rx: i64 = if v.x >= 0 {
        mx as i64
    } else {
        -(mx as i64)
    };
    let ry: i64 = if v.y >= 0 {
        my as i64
    } else {
        -(my as i64)
    };
    Vec2 { x: rx, y: ry }
}

/// Strict proximity: whether `a` and `b` are closer than `thr` micro-pixels.
/// Points exactly `thr` apart are not close.
pub open spec fn close(a: Vec2, b: Vec2, thr: int) -> bool {
    dist_sq(a, b) < thr * thr
}

/// Compare the distance of `a` and `b` against `thr`, exactly: strictly
/// closer than `thr` gives `true`, a distance of exactly `thr` gives `false`.
pub fn within(a: Vec2, b: Vec2, thr: i64) -> (r: bool)
    requires
        a.in_range(),
        b.in_range(),
        0 <= thr <= COORD_LIMIT,
    ensures
        r == close(a, b, thr as int),
{
    let dx: i128 = a.x as i128 - b.x as i128;
    let dy: i128 = a.y as i128 - b.y as i128;
    proof {
        assert(0 <= dx * dx && 0 <= dy * dy && dx * dx + dy * dy
            <= 0x8000000000000000000000000000 && 0 <= thr * thr
            <= 0x8000000000000000000000000000) by (nonlinear_arith)
            requires
                -9007199254740992 <= dx <= 9007199254740992,
                -9007199254740992 <= dy <= 9007199254740992,
                0 <= thr <= 4503599627370496,
        {}
    }
    let d2: i128 = dx * dx + dy * dy;
    let t2: i128 = thr as i128 * thr as i128;
    d2 < t2
}

/// Squared distances decide the strict comparison against a squared
/// threshold exactly: `n < t * t` holds exactly when the distance itself,
/// the square root of `n` rounded down, is below `t`.
pub proof fn lemma_close_by_root(n: nat, t: nat)
    ensures
        (n < t * t) <==> (sqrt_floor(n) < t),
{
    lemma_sqrt_floor(n);
    let s: nat = sqrt_floor(n);
    if n < t * t {
        assert(s < t) by (nonlinear_arith)
            requires
                s * s <= n,
                n < t * t,
                s >= 0,
                t >= 0,
        {}
    }
    if s < t {
        assert(n < t * t) by (nonlinear_arith)
            requires
                n < (s + 1) * (s + 1),
                s + 1 <= t,
                s >= 0,
        {}
    }
}

/// The proximity test reads as a statement about the distance itself:
/// `a` and `b` are close under threshold `thr` exactly when their distance,
/// rounded down to whole micro-pixels, is strictly below `thr`. A pair
/// exactly `thr` apart is not close.
pub proof fn lemma_close_is_strict_distance(a: Vec2, b: Vec2, thr: int)
    requires
        thr >= 0,
    ensures
        close(a, b, thr) <==> sqrt_floor(dist_sq(a, b) as nat) < thr,
{
    assert(dist_sq(a, b) >= 0) by (nonlinear_arith);
    lemma_close_by_root(dist_sq(a, b) as nat, thr as nat);
}

/// Comparing squared distances decides the strict distance comparison: for
/// nonnegative `d` and `t`, `d * d < t * t` exactly when `d < t`.
pub proof fn lemma_strict_threshold(d: nat, t: nat)
    ensures
        (d * d < t * t) <==> (d < t),
{
    if d < t {
        assert(d * d < t * t) by (nonlinear_arith)
            requires
                d < t,
        {}
    }
    if d >= t {
        assert(d * d >= t * t) by (nonlinear_arith)
            requires
                d >= t,
        {}
    }
}

} // verus!

//! Fixed-point scalar arithmetic: truncating division, a multiply-then-divide
//! primitive proved exact against its mathematical definition, and an integer
//! square root.

use vstd::prelude::*;

verus! {

/// Sub-units per whole unit: all fixed-point values are in thousandths.
pub const SCALE: i64 = 1000;

/// Absolute value over the mathematical integers.
pub open spec fn iabs(n: int) -> int {
    if n >= 0 {
        n
    } else {
        -n
    }
}

/// Division truncating toward zero (the behaviour of `/` on the machine
/// integers), for positive divisors.
pub open spec fn tdiv(n: int, d: int) -> int {
    if n >= 0 {
        n / d
    } else {
        -((-n) / d)
    }
}

/// Floor of the square root; zero on non-positive arguments.
pub open spec fn sqrt_floor(n: int) -> int
    decreases n,
{
    if n <= 0 {
        0
    } else {
        let s = sqrt_floor(n - 1);
        if (s + 1) * (s + 1) <= n {
            s + 1
        } else {
            s
        }
    }
}

/// `sqrt_floor(n)` is the unique `r >= 0` with `r * r <= n < (r + 1) * (r + 1)`.
pub proof fn lemma_sqrt_floor_bounds(n: int)
    requires
        n >= 0,
    ensures
        0 <= sqrt_floor(n),
        sqrt_floor(n) * sqrt_floor(n) <= n,
        n < (sqrt_floor(n) + 1) * (sqrt_floor(n) + 1),
    decreases n,
{
    if n > 0 {
        lemma_sqrt_floor_bounds(n - 1);
        let s = sqrt_floor(n - 1);
        if (s + 1) * (s + 1) <= n {
            assert((s + 1) * (s + 1) < (s + 2) * (s + 2)) by (nonlinear_arith)
                requires
                    s >= 0,
            ;
        }
    }
}

/// No other value satisfies the square-root bracketing.
pub proof fn lemma_sqrt_floor_unique(n: int, r: int)
    requires
        0 <= r,
        r * r <= n,
        n < (r + 1) * (r + 1),
    ensures
        r == sqrt_floor(n),
{
    assert(r * r >= 0) by (nonlinear_arith)
        requires
            r >= 0,
    ;
    lemma_sqrt_floor_bounds(n);
    let s = sqrt_floor(n);
    if r < s {
        assert((r + 1) * (r + 1) <= s * s) by (nonlinear_arith)
            requires
                0 <= r,
                r < s,
        ;
    } else if s < r {
        assert((s + 1) * (s + 1) <= r * r) by (nonlinear_arith)
            requires
                0 <= s,
                s < r,
        ;
    }
}

/// A magnitude bound carries through truncating division: if `|n| <= b * d`
/// then `|tdiv(n, d)| <= b`.
pub proof fn lemma_tdiv_abs_le(n: int, d: int, b: int)
    requires
        d >= 1,
        b >= 0,
        iabs(n) <= b * d,
    ensures
        iabs(tdiv(n, d)) <= b,
{
    if n >= 0 {
        assert(0 <= n / d <= b) by (nonlinear_arith)
            requires
                d >= 1,
                b >= 0,
                0 <= n <= b * d,
        ;
    } else {
        assert(0 <= (-n) / d <= b) by (nonlinear_arith)
            requires
                d >= 1,
                b >= 0,
                0 <= -n <= b * d,
        ;
    }
}

/// Magnitude bounds on two factors bound their product.
pub proof fn lemma_abs_mul_le(a: int, b: int, ba: int, bb: int)
    requires
        0 <= ba,
        0 <= bb,
        iabs(a) <= ba,
        iabs(b) <= bb,
    ensures
        iabs(a * b) <= ba * bb,
        iabs(a) * iabs(b) <= ba * bb,
{
    let ia = iabs(a);
    let ib = iabs(b);
    assert(-(ba * bb) <= a * b <= ba * bb && ia * ib <= ba * bb) by (nonlinear_arith)
        requires
            -ba <= a <= ba,
            -bb <= b <= bb,
            0 <= ia <= ba,
            0 <= ib <= bb,
            0 <= ba,
            0 <= bb,
    ;
}

/// Magnitude of an `i64` as a `u64`.
pub fn abs_u64(a: i64) -> (r: u64)
    requires
        a != i64::MIN,
    ensures
        r == iabs(a as int),
{
    if a >= 0 {
        a as u64
    } else {
        (-a) as u64
    }
}

/// `a * b / d`, truncating toward zero, computed through unsigned magnitudes
/// so that no intermediate overflows.
pub fn mul_div(a: i64, b: i64, d: i64) -> (r: i64)
    requires
        d >= 1,
        iabs(a as int) <= i64::MAX,
        iabs(b as int) <= i64::MAX,
        iabs(a as int) * iabs(b as int) <= i64::MAX,
    ensures
        r == tdiv(a as int * b as int, d as int),
        iabs(r as int) * (d as int) <= iabs(a as int) * iabs(b as int),
{
    let ma = abs_u64(a);
    let mb = abs_u64(b);
    let m: u64 = ma * mb;
    let q: u64 = m / (d as u64);
    proof {
        assert(q * d <= m) by (nonlinear_arith)
            requires
                d >= 1,
                q == (m as int) / (d as int),
                m >= 0,
        ;
        assert(q <= m) by (nonlinear_arith)
            requires
                d >= 1,
                q * d <= m,
                q >= 0,
        ;
    }
    let qi: i64 = q as i64;
    let neg = (a < 0) != (b < 0);
    proof {
        let ab = (a as int) * (b as int);
        if a >= 0 && b >= 0 {
            assert(ab == ma * mb) by (nonlinear_arith)
                requires
                    a >= 0,
                    b >= 0,
                    ma == a as int,
                    mb == b as int,
                    ab == (a as int) * (b as int),
            ;
        } else if a < 0 && b < 0 {
            assert(ab == ma * mb) by (nonlinear_arith)
                requires
                    a < 0,
                    b < 0,
                    ma == -(a as int),
                    mb == -(b as int),
                    ab == (a as int) * (b as int),
            ;
        } else {
            assert(-ab == ma * mb) by (nonlinear_arith)
                requires
                    (a < 0 && b >= 0) || (a >= 0 && b < 0),
                    ma == iabs(a as int),
                    mb == iabs(b as int),
                    ab == (a as int) * (b as int),
            ;
            assert(m == 0 ==> (m as int) / (d as int) == 0) by (nonlinear_arith)
                requires
                    d >= 1,
            ;
        }
    }
    if neg {
        -qi
    } else {
        qi
    }
}

/// Integer square root of a `u64` by binary search.
pub fn isqrt(n: u64) -> (r: u64)
    ensures
        r == sqrt_floor(n as int),
        r * r <= n,
        n < (r + 1) * (r + 1),
{
    let mut lo: u64 = 0;
    let mut hi: u64 = 4_294_967_296;
    proof {
        assert((4_294_967_296 as int) * (4_294_967_296 as int) == 18446744073709551616)
            by (nonlinear_arith);
    }
    while lo + 1 < hi
        invariant
            lo < hi <= 4_294_967_296,
            lo * lo <= n,
            (n as int) < (hi as int) * (hi as int),
        decreases hi - lo,
    {
        let mid = lo + (hi - lo) / 2;
        proof {
            assert((mid as int) * (mid as int) <= (4_294_967_295 as int) * (4_294_967_295 as int))
                by (nonlinear_arith)
                requires
                    0 <= mid < 4_294_967_296,
            ;
            assert((4_294_967_295 as int) * (4_294_967_295 as int) == 18446744065119617025)
                by (nonlinear_arith);
        }
        let sq = mid * mid;
        if sq <= n {
            lo = mid;
        } else {
            hi = mid;
        }
    }
    proof {
        lemma_sqrt_floor_unique(n as int, lo as int);
    }
    lo
}

} // verus!

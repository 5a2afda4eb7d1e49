//! 2D fixed-point vectors and the Euclidean distance on the fixed-point grid.

use vstd::prelude::*;
use crate::fixed::{abs_u64, iabs, isqrt, lemma_sqrt_floor_bounds, sqrt_floor};
use crate::params::COORD_LIMIT;

verus! {

/// A point or velocity on the plane, both coordinates in thousandths of a
/// unit.
#[derive(Clone, Copy, PartialEq, Eq, Debug)]
pub struct Vec2 {
    pub x: i64,
    pub y: i64,
}

impl Vec2 {
    /// Both coordinates are within the machine bound under which the
    /// distance arithmetic cannot overflow.
    pub open spec fn in_range(self) -> bool {
        iabs(self.x as int) <= COORD_LIMIT && iabs(self.y as int) <= COORD_LIMIT
    }

    pub fn new(x: i64, y: i64) -> (v: Vec2)
        ensures
            v.x == x,
            v.y == y,
    {
        Vec2 { x, y }
    }
}

/// Squared Euclidean distance between two points, over the mathematical
/// integers.
pub open spec fn distance_sq(a: Vec2, b: Vec2) -> int {
    (a.x - b.x) * (a.x - b.x) + (a.y - b.y) * (a.y - b.y)
}

/// Euclidean distance between two points, rounded down to the fixed-point
/// grid.
pub open spec fn distance(a: Vec2, b: Vec2) -> int {
    sqrt_floor(distance_sq(a, b))
}

/// The distance is non-negative and dominates the magnitude of each
/// coordinate difference.
pub proof fn lemma_distance_dominates(a: Vec2, b: Vec2)
    ensures
        0 <= distance(a, b),
        iabs(a.x - b.x) <= distance(a, b),
        iabs(a.y - b.y) <= distance(a, b),
{
    let dx = a.x - b.x;
    let dy = a.y - b.y;
    let dsq = distance_sq(a, b);
    assert(dx * dx <= dsq && dy * dy <= dsq && 0 <= dsq) by (nonlinear_arith)
        requires
            dsq == dx * dx + dy * dy,
    ;
    lemma_sqrt_floor_bounds(dsq);
    let d = distance(a, b);
    assert(-d <= dx <= d && -d <= dy <= d) by (nonlinear_arith)
        requires
            dx * dx < (d + 1) * (d + 1),
            dy * dy < (d + 1) * (d + 1),
            d >= 0,
    ;
}

/// Euclidean distance: sum of the squared coordinate differences, then the
/// integer square root.
pub fn distance_between(a: Vec2, b: Vec2) -> (d: i64)
    requires
        a.in_range(),
        b.in_range(),
    ensures
        d == distance(a, b),
        0 <= d < 3_000_000_000,
{
    let dx = a.x - b.x;
    let dy = a.y - b.y;
    let mx = abs_u64(dx);
    let my = abs_u64(dy);
    proof {
        assert(mx * mx == (dx as int) * (dx as int) && mx * mx <= 4_000_000_000_000_000_000)
            by (nonlinear_arith)
            requires
                mx == dx as int || mx == -(dx as int),
                mx <= 2_000_000_000,
        ;
        assert(my * my == (dy as int) * (dy as int) && my * my <= 4_000_000_000_000_000_000)
            by (nonlinear_arith)
            requires
                my == dy as int || my == -(dy as int),
                my <= 2_000_000_000,
        ;
    }
    let sq = mx * mx + my * my;
    let r = isqrt(sq);
    proof {
        assert(r < 3_000_000_000) by (nonlinear_arith)
            requires
                (r as int) * (r as int) <= 8_000_000_000_000_000_000,
                r >= 0,
        ;
    }
    r as i64
}

} // verus!

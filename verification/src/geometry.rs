//! Planar integer geometry: positions, squared distances, and the
//! truncated Euclidean distance used to rank targets.

use vstd::prelude::*;

verus! {

/// A position in the plane, in whole world units.
#[derive(Clone, Copy, PartialEq, Eq, Structural, Debug)]
pub struct Coord2D {
    pub x: i32,
    pub y: i32,
}

/// Squared Euclidean distance between two positions.
pub open spec fn dist_sq(a: Coord2D, b: Coord2D) -> int {
    (a.x - b.x) * (a.x - b.x) + (a.y - b.y) * (a.y - b.y)
}

impl Coord2D {
    pub fn new(x: i32, y: i32) -> (r: Coord2D)
        ensures
            r.x == x,
            r.y == y,
    {
        Coord2D { x, y }
    }

    /// Squared distance to `other`; always exact, no overflow.
    pub fn dist_sq_to(&self, other: &Coord2D) -> (r: i128)
        ensures
            r == dist_sq(*self, *other),
            r >= 0,
    {
        let dx: i64 = (self.x as i64) - (other.x as i64);
        let dy: i64 = (self.y as i64) - (other.y as i64);
        proof {
            assert((dx as i128) * (dx as i128) + (dy as i128) * (dy as i128)
                <= 0x4_0000_0000_0000_0000 + 0x4_0000_0000_0000_0000
                && (dx as i128) * (dx as i128) >= 0
                && (dy as i128) * (dy as i128) >= 0) by (nonlinear_arith)
                requires
                    -0x1_0000_0000 <= dx <= 0x1_0000_0000,
                    -0x1_0000_0000 <= dy <= 0x1_0000_0000,
            ;
        }
        (dx as i128) * (dx as i128) + (dy as i128) * (dy as i128)
    }

    /// Euclidean distance to `other`, truncated to a whole number.
    /// This is the key by which targets are ranked.
    pub fn trunc_dist_to(&self, other: &Coord2D) -> (r: u64)
        ensures
            r == sqrt_floor(dist_sq(*self, *other) as nat),
    {
        let d: i128 = self.dist_sq_to(other);
        isqrt(d as u128)
    }
}

/// Largest `r` with `r * r <= n`.
pub open spec fn sqrt_floor(n: nat) -> nat
    decreases n,
{
    if n == 0 {
        0
    } else {
        let s = sqrt_floor((n - 1) as nat);
        if (s + 1) * (s + 1) <= n {
            s + 1
        } else {
            s
        }
    }
}

pub proof fn lemma_sqrt_floor_bounds(n: nat)
    ensures
        sqrt_floor(n) * sqrt_floor(n) <= n,
        n < (sqrt_floor(n) + 1) * (sqrt_floor(n) + 1),
    decreases n,
{
    if n == 0 {
        assert(sqrt_floor(n) == 0);
        assert(n < (sqrt_floor(n) + 1) * (sqrt_floor(n) + 1)) by (nonlinear_arith)
            requires n == 0nat && sqrt_floor(n) == 0,
        ;
    } else {
        lemma_sqrt_floor_bounds((n - 1) as nat);
        let s = sqrt_floor((n - 1) as nat);
        if (s + 1) * (s + 1) <= n {
            assert(sqrt_floor(n) == s + 1);
            assert((s + 1) * (s + 1) < (s + 2) * (s + 2)) by (nonlinear_arith);
            assert(sqrt_floor(n) * sqrt_floor(n) <= n);
            assert(n < (sqrt_floor(n) + 1) * (sqrt_floor(n) + 1));
        } else {
            assert(sqrt_floor(n) == s);
            assert(s * s <= n - 1 < n);
            assert(sqrt_floor(n) * sqrt_floor(n) <= n);
            assert(n < (sqrt_floor(n) + 1) * (sqrt_floor(n) + 1));
        }
    }
}

pub proof fn lemma_sqrt_floor_unique(n: nat, r: nat)
    requires
        r * r <= n,
        n < (r + 1) * (r + 1),
    ensures
        r == sqrt_floor(n),
{
    let f = sqrt_floor(n);
    lemma_sqrt_floor_bounds(n);
    if r < f {
        assert((r + 1) * (r + 1) <= f * f) by (nonlinear_arith)
            requires r + 1 <= f,
        ;
    }
    if f < r {
        assert((f + 1) * (f + 1) <= r * r) by (nonlinear_arith)
            requires f + 1 <= r,
        ;
    }
}

/// Integer square root: the exact floor of the real square root.
pub fn isqrt(n: u128) -> (r: u64)
    ensures
        r == sqrt_floor(n as nat),
        (r as int) * (r as int) <= n as int,
        (n as int) < ((r as int) + 1) * ((r as int) + 1),
{
    let mut lo: u128 = 0;
    let mut hi: u128 = 0x1_0000_0000_0000_0000;
    proof {
        assert((hi as int) * (hi as int) > u128::MAX) by (nonlinear_arith)
            requires hi == 0x1_0000_0000_0000_0000u128,
        ;
    }
    while hi - lo > 1
        invariant
            lo < hi <= 0x1_0000_0000_0000_0000,
            (lo as int) * (lo as int) <= n as int,
            (n as int) < (hi as int) * (hi as int),
        decreases hi - lo,
    {
        let mid: u128 = lo + (hi - lo) / 2;
        proof {
            assert((mid as int) * (mid as int) <= u128::MAX) by (nonlinear_arith)
                requires mid < 0x1_0000_0000_0000_0000u128,
            ;
        }
        if mid * mid <= n {
            lo = mid;
        } else {
            hi = mid;
        }
    }
    proof {
        lemma_sqrt_floor_unique(n as nat, lo as nat);
    }
    lo as u64
}

} // verus!

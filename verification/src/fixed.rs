//! Fixed-point scalars and the small amount of integer geometry the
//! tessellator needs: square roots and cross products.
//!
//! All coordinates are Q16.16 fixed-point numbers: [`ONE`] units stand
//! for 1.0 in the normalized coordinate space.

use vstd::prelude::*;

verus! {

/// Number of fixed-point units per 1.0 of normalized space (Q16.16).
pub const ONE: i32 = 65536;

/// Radial tessellation tolerance in fixed-point units; about `1e-4`
/// of a normalized unit.  Every vertex of a tessellated circle lies
/// within this distance of the true circle.
pub const TOLERANCE: i32 = 7;

/// A point (or offset) in the normalized coordinate space.
#[derive(Clone, Copy, Debug, PartialEq, Eq, Structural)]
pub struct Point {
    pub x: i32,
    pub y: i32,
}

/// A rectangle extent: width and height in fixed-point units.
#[derive(Clone, Copy, Debug, PartialEq, Eq, Structural)]
pub struct Size {
    pub width: i32,
    pub height: i32,
}

/// Twice the signed area of the triangle `(o, a, b)`; positive when
/// the three points wind counterclockwise.
pub open spec fn cross(o: Point, a: Point, b: Point) -> int {
    (a.x - o.x) * (b.y - o.y) - (a.y - o.y) * (b.x - o.x)
}

/// Computes [`cross`] exactly; `i128` is wide enough for any `i32`
/// coordinates.
pub fn cross_of(o: Point, a: Point, b: Point) -> (c: i128)
    ensures
        c == cross(o, a, b),
{
    let ax: i64 = a.x as i64 - o.x as i64;
    let ay: i64 = a.y as i64 - o.y as i64;
    let bx: i64 = b.x as i64 - o.x as i64;
    let by: i64 = b.y as i64 - o.y as i64;
    proof {
        assert(-0x2_0000_0000 < ax < 0x2_0000_0000);
        assert(-0x2_0000_0000 < by < 0x2_0000_0000);
        assert(-0x4_0000_0000_0000_0000 < ax * by < 0x4_0000_0000_0000_0000)
            by (nonlinear_arith)
            requires
                -0x2_0000_0000 < ax < 0x2_0000_0000,
                -0x2_0000_0000 < by < 0x2_0000_0000,
        ;
        assert(-0x4_0000_0000_0000_0000 < ay * bx < 0x4_0000_0000_0000_0000)
            by (nonlinear_arith)
            requires
                -0x2_0000_0000 < ay < 0x2_0000_0000,
                -0x2_0000_0000 < bx < 0x2_0000_0000,
        ;
    }
    (ax as i128) * (by as i128) - (ay as i128) * (bx as i128)
}

/// Floor of the square root of `n`.
pub fn isqrt_u64(n: u64) -> (r: u64)
    ensures
        r * r <= n,
        n < (r + 1) * (r + 1),
{
    let mut lo: u64 = 0;
    let mut hi: u64 = 0x1_0000_0000;
    proof {
        assert(n < 0x1_0000_0000 * 0x1_0000_0000);
    }
    while hi - lo > 1
        invariant
            lo < hi <= 0x1_0000_0000,
            lo * lo <= n,
            n < hi * hi,
        decreases hi - lo,
    {
        let mid: u64 = lo + (hi - lo) / 2;
        proof {
            assert((mid as int) * (mid as int) <= 0x1_0000_0000 * 0x1_0000_0000)
                by (nonlinear_arith)
                requires
                    0 <= mid <= 0x1_0000_0000,
            ;
        }
        if (mid as u128) * (mid as u128) <= n as u128 {
            lo = mid;
        } else {
            hi = mid;
        }
    }
    lo
}

} // verus!

//! Shape outlines: the circle ring, triangle-fan index lists, and the
//! diagonal test used to fill arbitrary quads.

use vstd::prelude::*;

use crate::fixed::cross;
use crate::fixed::cross_of;
use crate::fixed::isqrt_u64;
use crate::fixed::Point;
use crate::fixed::TOLERANCE;

verus! {

/// Ring points per quadrant of a tessellated circle.
pub const QUARTER_POINTS: usize = 64;

/// Ring points of a whole tessellated circle (four quadrants).
pub const RING_POINTS: usize = 256;

/// Triangles of a circle's fan: `RING_POINTS - 2`.
pub const RING_TRIANGLES: usize = 254;

/// Indices of a circle's fan: `3 * RING_TRIANGLES`.
pub const RING_INDICES: usize = 762;

/// `p` lies on the circle of radius `rad` around `c`, up to the
/// tessellation tolerance: its squared distance from the center never
/// exceeds `rad^2`, and (for radii at least the tolerance) never falls
/// below `(rad - TOLERANCE)^2`.
pub open spec fn on_circle(c: Point, rad: i32, p: Point) -> bool {
    let dx = p.x - c.x;
    let dy = p.y - c.y;
    &&& dx * dx + dy * dy <= rad * rad
    &&& rad >= TOLERANCE ==> dx * dx + dy * dy >= (rad - TOLERANCE) * (rad - TOLERANCE)
}

/// The center and radius admit ring points without `i32` overflow.
pub open spec fn circle_in_range(c: Point, rad: i32) -> bool {
    &&& c.x - rad >= i32::MIN
    &&& c.x + rad <= i32::MAX
    &&& c.y - rad >= i32::MIN
    &&& c.y + rad <= i32::MAX
}

/// For `b` the floor square root of `rad^2 - a^2`, the point `(a, b)`
/// lies on the radius-`rad` circle up to [`TOLERANCE`].
proof fn lemma_circle_vertex_bounds(rad: int, a: int, b: int)
    by (nonlinear_arith)
    requires
        1 <= rad,
        0 <= a <= rad,
        0 <= b,
        b * b <= rad * rad - a * a,
        rad * rad - a * a < (b + 1) * (b + 1),
    ensures
        a * a + b * b <= rad * rad,
        b <= rad,
        rad >= 7 ==> a * a + b * b >= (rad - 7) * (rad - 7),
{
}

/// One ring point of the circle around `center`: the offset
/// `(a, b) = (rad * (QUARTER_POINTS - s) / QUARTER_POINTS, floor_sqrt(rad^2 - a^2))`
/// mirrored into the quadrant selected by the two sign flags.
fn circle_point(center: Point, rad: i32, s: usize, neg_x: bool, neg_y: bool) -> (p: Point)
    requires
        1 <= rad,
        s <= QUARTER_POINTS,
        circle_in_range(center, rad),
    ensures
        on_circle(center, rad, p),
        s == 0 ==> p == (Point {
            x: if neg_x { (center.x - rad) as i32 } else { (center.x + rad) as i32 },
            y: center.y,
        }),
        s == QUARTER_POINTS ==> p == (Point {
            x: center.x,
            y: if neg_y { (center.y - rad) as i32 } else { (center.y + rad) as i32 },
        }),
{
    let ks: i64 = (QUARTER_POINTS - s) as i64;
    proof {
        assert((rad as i64) * ks <= (rad as i64) * 64 && 0 <= (rad as i64) * ks)
            by (nonlinear_arith)
            requires
                0 <= ks <= 64,
                0 <= rad < 0x8000_0000,
        ;
    }
    let prod: i64 = (rad as i64) * ks;
    let a64: i64 = prod / 64;
    proof {
        assert(0 <= a64 <= rad) by (nonlinear_arith)
            requires
                a64 == prod / 64,
                0 <= prod <= (rad as i64) * 64,
                1 <= rad < 0x8000_0000,
        ;
    }
    let a: i32 = a64 as i32;
    proof {
        assert((rad as u64) * (rad as u64) < 0x8000_0000 * 0x8000_0000 && (a as u64) * (a as u64)
            <= (rad as u64) * (rad as u64)) by (nonlinear_arith)
            requires
                0 <= a <= rad < 0x8000_0000,
        ;
    }
    let rr: u64 = (rad as u64) * (rad as u64);
    let aa: u64 = (a as u64) * (a as u64);
    let b64: u64 = isqrt_u64(rr - aa);
    proof {
        lemma_circle_vertex_bounds(rad as int, a as int, b64 as int);
        if s == 0 {
            assert(a64 == rad) by (nonlinear_arith)
                requires
                    a64 == prod / 64,
                    prod == (rad as i64) * ks,
                    ks == 64,
            ;
            assert(b64 == 0) by (nonlinear_arith)
                requires
                    (b64 as int) * (b64 as int) <= 0,
                    0 <= b64,
            ;
        }
        if s == QUARTER_POINTS {
            assert(a64 == 0) by (nonlinear_arith)
                requires
                    a64 == prod / 64,
                    prod == (rad as i64) * ks,
                    ks == 0,
            ;
            assert(rad * rad <= rr < (rad + 1) * (rad + 1)) by (nonlinear_arith)
                requires
                    1 <= rad < 0x8000_0000,
                    rr == (rad as int) * (rad as int),
            ;
            assert(b64 == rad) by {
                if b64 < rad {
                    assert((b64 + 1) * (b64 + 1) <= (rad as int) * (rad as int))
                        by (nonlinear_arith)
                        requires
                            0 <= b64 + 1 <= rad,
                    ;
                }
                if b64 > rad {
                    assert((rad + 1) * (rad + 1) <= (b64 as int) * (b64 as int))
                        by (nonlinear_arith)
                        requires
                            0 <= rad + 1 <= b64,
                    ;
                }
            }
        }
    }
    let b: i32 = b64 as i32;
    let x: i32 = if neg_x {
        center.x - a
    } else {
        center.x + a
    };
    let y: i32 = if neg_y {
        center.y - b
    } else {
        center.y + b
    };
    let p = Point { x, y };
    proof {
        let dx = p.x - center.x;
        let dy = p.y - center.y;
        assert(dx * dx == (a as int) * (a as int) && dy * dy == (b as int) * (b as int))
            by (nonlinear_arith)
            requires
                dx == a || dx == -(a as int),
                dy == b || dy == -(b as int),
        ;
    }
    p
}

/// The closed ring of a tessellated circle: [`RING_POINTS`] points,
/// every one on the circle up to [`TOLERANCE`], walked counterclockwise
/// starting at the rightmost point; the four cardinal points of the
/// circle are hit exactly.
#[verifier::loop_isolation(false)]
pub fn circle_ring(center: Point, rad: i32) -> (pts: Vec<Point>)
    requires
        1 <= rad,
        circle_in_range(center, rad),
    ensures
        pts@.len() == RING_POINTS,
        forall|i: int| 0 <= i < pts@.len() ==> on_circle(center, rad, #[trigger] pts@[i]),
        pts@[0] == (Point { x: (center.x + rad) as i32, y: center.y }),
        pts@[64] == (Point { x: center.x, y: (center.y + rad) as i32 }),
        pts@[128] == (Point { x: (center.x - rad) as i32, y: center.y }),
        pts@[192] == (Point { x: center.x, y: (center.y - rad) as i32 }),
{
    let mut pts: Vec<Point> = Vec::new();
    let mut t: usize = 0;
    while t < QUARTER_POINTS
        invariant
            t <= QUARTER_POINTS,
            pts@.len() == t,
            forall|i: int| 0 <= i < pts@.len() ==> on_circle(center, rad, #[trigger] pts@[i]),
            t >= 1 ==> pts@[0] == (Point { x: (center.x + rad) as i32, y: center.y }),
        decreases QUARTER_POINTS - t,
    {
        let p = circle_point(center, rad, t, false, false);
        pts.push(p);
        t = t + 1;
    }
    t = 0;
    while t < QUARTER_POINTS
        invariant
            t <= QUARTER_POINTS,
            pts@.len() == QUARTER_POINTS + t,
            forall|i: int| 0 <= i < pts@.len() ==> on_circle(center, rad, #[trigger] pts@[i]),
            pts@[0] == (Point { x: (center.x + rad) as i32, y: center.y }),
            t >= 1 ==> pts@[64] == (Point { x: center.x, y: (center.y + rad) as i32 }),
        decreases QUARTER_POINTS - t,
    {
        let p = circle_point(center, rad, QUARTER_POINTS - t, true, false);
        pts.push(p);
        t = t + 1;
    }
    t = 0;
    while t < QUARTER_POINTS
        invariant
            t <= QUARTER_POINTS,
            pts@.len() == 2 * QUARTER_POINTS + t,
            forall|i: int| 0 <= i < pts@.len() ==> on_circle(center, rad, #[trigger] pts@[i]),
            pts@[0] == (Point { x: (center.x + rad) as i32, y: center.y }),
            pts@[64] == (Point { x: center.x, y: (center.y + rad) as i32 }),
            t >= 1 ==> pts@[128] == (Point { x: (center.x - rad) as i32, y: center.y }),
        decreases QUARTER_POINTS - t,
    {
        let p = circle_point(center, rad, t, true, true);
        pts.push(p);
        t = t + 1;
    }
    t = 0;
    while t < QUARTER_POINTS
        invariant
            t <= QUARTER_POINTS,
            pts@.len() == 3 * QUARTER_POINTS + t,
            forall|i: int| 0 <= i < pts@.len() ==> on_circle(center, rad, #[trigger] pts@[i]),
            pts@[0] == (Point { x: (center.x + rad) as i32, y: center.y }),
            pts@[64] == (Point { x: center.x, y: (center.y + rad) as i32 }),
            pts@[128] == (Point { x: (center.x - rad) as i32, y: center.y }),
            t >= 1 ==> pts@[192] == (Point { x: center.x, y: (center.y - rad) as i32 }),
        decreases QUARTER_POINTS - t,
    {
        let p = circle_point(center, rad, QUARTER_POINTS - t, false, true);
        pts.push(p);
        t = t + 1;
    }
    pts
}

/// The index a triangle fan holds at position `i`: the fan's triangles
/// are `(0, t+1, t+2)` for consecutive `t`, laid out three indices per
/// triangle.
pub open spec fn fan_index_at(i: int) -> int {
    if i % 3 == 0 {
        0
    } else if i % 3 == 1 {
        i / 3 + 1
    } else {
        i / 3 + 2
    }
}

/// The triangle-fan index list for a convex outline of `count` points:
/// triangles `(0, t, t+1)` for `t` in `1 .. count-1`.
pub fn fan_indices(count: usize) -> (tris: Vec<u16>)
    requires
        3 <= count <= 65536,
    ensures
        tris@.len() == 3 * (count - 2),
        forall|i: int| 0 <= i < tris@.len() ==> (#[trigger] tris@[i]) < count,
        forall|i: int| 0 <= i < tris@.len() ==> (#[trigger] tris@[i]) == fan_index_at(i),
{
    let mut tris: Vec<u16> = Vec::new();
    let mut t: usize = 1;
    while t < count - 1
        invariant
            3 <= count <= 65536,
            1 <= t <= count - 1,
            tris@.len() == 3 * (t - 1),
            forall|i: int| 0 <= i < tris@.len() ==> (#[trigger] tris@[i]) < count,
            forall|i: int| 0 <= i < tris@.len() ==> (#[trigger] tris@[i]) == fan_index_at(i),
        decreases count - t,
    {
        tris.push(0u16);
        tris.push(t as u16);
        tris.push((t + 1) as u16);
        t = t + 1;
    }
    tris
}

/// `x` and `y` lie strictly on opposite sides of zero.
pub open spec fn opposite_sides(x: int, y: int) -> bool {
    (x < 0 && 0 < y) || (y < 0 && 0 < x)
}

/// Segments `a-b` and `c-d` properly cross: each segment's endpoints
/// lie strictly on opposite sides of the other segment's line.
pub open spec fn segments_cross(a: Point, b: Point, c: Point, d: Point) -> bool {
    &&& opposite_sides(cross(a, b, c), cross(a, b, d))
    &&& opposite_sides(cross(c, d, a), cross(c, d, b))
}

/// Decides [`segments_cross`].
pub fn check_crossing(a: Point, b: Point, c: Point, d: Point) -> (r: bool)
    ensures
        r == segments_cross(a, b, c, d),
{
    let s1: i128 = cross_of(a, b, c);
    let s2: i128 = cross_of(a, b, d);
    let s3: i128 = cross_of(c, d, a);
    let s4: i128 = cross_of(c, d, b);
    ((s1 < 0 && 0 < s2) || (s2 < 0 && 0 < s1)) && ((s3 < 0 && 0 < s4) || (s4 < 0 && 0 < s3))
}

/// `num/den` of the way along an axis step of `delta`, rounded half
/// away from zero.
pub open spec fn round_frac(num: int, den: int, delta: int) -> int
    recommends
        0 < num <= den,
{
    if delta >= 0 {
        (num * delta + den / 2) / den
    } else {
        -((num * (-delta) + den / 2) / den)
    }
}

/// The point where segment `a-b` crosses segment `c-d`, rounded to
/// the fixed-point lattice: `a` plus `num/den` of the step to `b`,
/// where `num/den` is the crossing parameter derived from the signed
/// areas of `a` and `b` against the line `c-d`.
pub open spec fn crossing_point(a: Point, b: Point, c: Point, d: Point) -> Point {
    let ca = cross(c, d, a);
    let cb = cross(c, d, b);
    let num = if ca < 0 { -ca } else { ca };
    let den = if ca < 0 { cb - ca } else { ca - cb };
    Point {
        x: (a.x + round_frac(num, den, b.x - a.x)) as i32,
        y: (a.y + round_frac(num, den, b.y - a.y)) as i32,
    }
}

/// The rounded fraction of a bounded step stays within the step, so
/// crossing points stay inside their segment's bounding box.
proof fn lemma_round_frac_in_step(num: int, den: int, mag: int)
    by (nonlinear_arith)
    requires
        0 < num <= den,
        0 <= mag,
    ensures
        0 <= (num * mag + den / 2) / den <= mag,
{
}

/// Computes [`round_frac`] exactly for a properly normalized
/// fraction and an `i32`-sized step.
fn round_frac_of(num: i128, den: i128, delta: i64) -> (r: i64)
    requires
        0 < num <= den,
        den < 0x1_0000_0000_0000_0000_0000,
        -0x1_0000_0000 < delta < 0x1_0000_0000,
    ensures
        r == round_frac(num as int, den as int, delta as int),
        delta >= 0 ==> 0 <= r <= delta,
        delta < 0 ==> delta <= r <= 0,
{
    let mag: u64 = if delta >= 0 {
        delta as u64
    } else {
        (-delta) as u64
    };
    proof {
        assert((num as int) * (mag as int) < 0x1_0000_0000_0000_0000_0000 * 0x1_0000_0000)
            by (nonlinear_arith)
            requires
                0 <= num < 0x1_0000_0000_0000_0000_0000,
                0 <= mag < 0x1_0000_0000,
        ;
        lemma_round_frac_in_step(num as int, den as int, mag as int);
    }
    let q128: u128 = ((num as u128) * (mag as u128) + (den as u128) / 2) / (den as u128);
    let q: i64 = q128 as i64;
    if delta >= 0 {
        q
    } else {
        -q
    }
}

/// Computes [`crossing_point`] for two properly crossing segments.
pub fn crossing_point_of(a: Point, b: Point, c: Point, d: Point) -> (p: Point)
    requires
        segments_cross(a, b, c, d),
    ensures
        p == crossing_point(a, b, c, d),
{
    let ca: i128 = cross_of(c, d, a);
    let cb: i128 = cross_of(c, d, b);
    proof {
        assert(ca == (d.x - c.x) * (a.y - c.y) - (d.y - c.y) * (a.x - c.x));
        assert(cb == (d.x - c.x) * (b.y - c.y) - (d.y - c.y) * (b.x - c.x));
        assert(-0x4_0000_0000_0000_0000 < (d.x - c.x) * (a.y - c.y) < 0x4_0000_0000_0000_0000
            && -0x4_0000_0000_0000_0000 < (d.y - c.y) * (a.x - c.x) < 0x4_0000_0000_0000_0000
            && -0x4_0000_0000_0000_0000 < (d.x - c.x) * (b.y - c.y) < 0x4_0000_0000_0000_0000
            && -0x4_0000_0000_0000_0000 < (d.y - c.y) * (b.x - c.x) < 0x4_0000_0000_0000_0000)
            by (nonlinear_arith)
            requires
                -0x1_0000_0000 < d.x - c.x < 0x1_0000_0000,
                -0x1_0000_0000 < d.y - c.y < 0x1_0000_0000,
                -0x1_0000_0000 < a.x - c.x < 0x1_0000_0000,
                -0x1_0000_0000 < a.y - c.y < 0x1_0000_0000,
                -0x1_0000_0000 < b.x - c.x < 0x1_0000_0000,
                -0x1_0000_0000 < b.y - c.y < 0x1_0000_0000,
        ;
    }
    let num: i128 = if ca < 0 {
        -ca
    } else {
        ca
    };
    let den: i128 = if ca < 0 {
        cb - ca
    } else {
        ca - cb
    };
    let dx: i64 = b.x as i64 - a.x as i64;
    let dy: i64 = b.y as i64 - a.y as i64;
    let rx: i64 = round_frac_of(num, den, dx);
    let ry: i64 = round_frac_of(num, den, dy);
    let px: i64 = a.x as i64 + rx;
    let py: i64 = a.y as i64 + ry;
    Point { x: px as i32, y: py as i32 }
}

/// The quad `(p0, p1, p2, p3)` can be filled by splitting along the
/// diagonal from `p0` to `p2`: both resulting triangles are non-empty
/// and wind the same way.
pub open spec fn diagonal_split_ok(p0: Point, p1: Point, p2: Point, p3: Point) -> bool {
    &&& cross(p0, p1, p2) != 0
    &&& cross(p0, p2, p3) != 0
    &&& (cross(p0, p1, p2) > 0 <==> cross(p0, p2, p3) > 0)
}

/// Decides [`diagonal_split_ok`].
pub fn check_diagonal(p0: Point, p1: Point, p2: Point, p3: Point) -> (ok: bool)
    ensures
        ok == diagonal_split_ok(p0, p1, p2, p3),
{
    let c1: i128 = cross_of(p0, p1, p2);
    let c2: i128 = cross_of(p0, p2, p3);
    c1 != 0 && c2 != 0 && ((c1 > 0) == (c2 > 0))
}

} // verus!

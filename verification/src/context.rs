//! The rendering context: the geometry buffer, the screen extent
//! state, and the frame scheduler's decision steps.

use vstd::prelude::*;

use crate::error::PumiceError;
use crate::error::PumiceResult;
use crate::fixed::cross;
use crate::fixed::cross_of;
use crate::fixed::Point;
use crate::fixed::Size;
use crate::fixed::ONE;
use crate::geometry::mesh_vertex;
use crate::geometry::rot_none;
use crate::geometry::Color;
use crate::geometry::GeometryBuffer;
use crate::geometry::Rot;
use crate::geometry::Rotation;
use crate::geometry::Vertex;
use crate::geometry::MAX_VERTICES;
use crate::scheduler::aspect_of;
use crate::scheduler::extent_ok;
use crate::scheduler::has_close;
use crate::scheduler::extent_usable;
use crate::scheduler::has_resize;
use crate::scheduler::ready_count;
use crate::scheduler::usable_script;
use crate::scheduler::PendingFrame;
use crate::scheduler::AcquireOutcome;
use crate::scheduler::App;
use crate::scheduler::Event;
use crate::scheduler::FlushOutcome;
use crate::scheduler::FrameInputs;
use crate::scheduler::RunOutcome;
use crate::scheduler::RunReport;
use crate::shapes::check_crossing;
use crate::shapes::check_diagonal;
use crate::shapes::crossing_point;
use crate::shapes::crossing_point_of;
use crate::shapes::circle_in_range;
use crate::shapes::circle_ring;
use crate::shapes::diagonal_split_ok;
use crate::shapes::fan_index_at;
use crate::shapes::fan_indices;
use crate::shapes::on_circle;
use crate::shapes::segments_cross;
use crate::shapes::RING_INDICES;
use crate::shapes::RING_POINTS;

verus! {

/// The rendering context.  It owns the per-frame geometry buffer and
/// the frame scheduler's state; the platform resources themselves
/// (window, device, presentation chain) are owned by the embedding
/// program, which drives this state machine with their outcomes.
pub struct GraphicsContext {
    /// The per-frame accumulation buffer; cleared after every frame.
    pub geometry: GeometryBuffer,
    /// The normalized coordinate bounds of the current window: the
    /// visible space is `[-x, x] * [-y, y]` with `y` always [`ONE`]
    /// and `x` the aspect ratio in Q16.16.  Recomputed only when a
    /// confirmed resize (or an out-of-date chain) forces a rebuild.
    pub screen_maxes: Point,
    /// A rebuild of the presentation chain is owed before the next
    /// acquire.
    pub rebuild_pending: bool,
    /// A close request was observed; the loop returns at the end of
    /// the current iteration.
    pub close_requested: bool,
    /// The color the `Submit` step's render pass clears the frame to.
    /// The host sets it (or passes it through the loop entry point of
    /// a real embedding); the engine's own steps carry it unchanged.
    pub clear_color: Color,
}

/// The corner points of an axis-aligned rectangle, counterclockwise
/// from its origin.
pub open spec fn rect_points(pos: Point, sides: Size) -> Seq<Point> {
    seq![
        pos,
        Point { x: (pos.x + sides.width) as i32, y: pos.y },
        Point { x: (pos.x + sides.width) as i32, y: (pos.y + sides.height) as i32 },
        Point { x: pos.x, y: (pos.y + sides.height) as i32 },
    ]
}

/// The two triangles that fill a quad, as indices into its four
/// points: split along the diagonal from point 0 to point 2, or from
/// point 1 to point 3.
pub open spec fn quad_tris(first_diagonal: bool) -> Seq<int> {
    if first_diagonal {
        seq![0, 1, 2, 0, 2, 3]
    } else {
        seq![1, 2, 3, 1, 3, 0]
    }
}

/// The points a quad fill emits: the four given corners, plus — for
/// a self-intersecting outline — the point where its two crossing
/// edges meet.
pub open spec fn quad_fill_points(p0: Point, p1: Point, p2: Point, p3: Point) -> Seq<Point> {
    if diagonal_split_ok(p0, p1, p2, p3) || diagonal_split_ok(p1, p2, p3, p0) {
        seq![p0, p1, p2, p3]
    } else if segments_cross(p0, p1, p2, p3) {
        seq![p0, p1, p2, p3, crossing_point(p0, p1, p2, p3)]
    } else {
        seq![p0, p1, p2, p3, crossing_point(p1, p2, p3, p0)]
    }
}

/// The triangles of a quad fill, as indices into
/// [`quad_fill_points`]: a diagonal split for a simple outline, or
/// the two lobes around the crossing point for a self-intersecting
/// one — the triangles the non-zero-winding rule fills on a crossed
/// quad.
pub open spec fn quad_fill_tris(p0: Point, p1: Point, p2: Point, p3: Point) -> Seq<int> {
    if diagonal_split_ok(p0, p1, p2, p3) {
        seq![0, 1, 2, 0, 2, 3]
    } else if diagonal_split_ok(p1, p2, p3, p0) {
        seq![1, 2, 3, 1, 3, 0]
    } else if segments_cross(p0, p1, p2, p3) {
        seq![4, 1, 2, 4, 3, 0]
    } else {
        seq![4, 2, 3, 4, 0, 1]
    }
}

/// A quad the fill accepts: a simple outline with a usable diagonal,
/// or a self-intersecting outline whose opposite edges properly
/// cross.  What remains — zero-area outlines, collinear points,
/// outlines that touch without crossing — is degenerate.
pub open spec fn quad_fillable(p0: Point, p1: Point, p2: Point, p3: Point) -> bool {
    ||| diagonal_split_ok(p0, p1, p2, p3)
    ||| diagonal_split_ok(p1, p2, p3, p0)
    ||| segments_cross(p0, p1, p2, p3)
    ||| segments_cross(p1, p2, p3, p0)
}

/// The rotation attribute all four vertices of a rectangle carry.
pub open spec fn rot_attr(rot: Option<Rotation>) -> Rot {
    match rot {
        Option::None => rot_none(),
        Option::Some(r) => Rot { degrees: r.degrees, px: r.point.x, py: r.point.y },
    }
}

/// `post`'s geometry is `pre`'s with exactly the mesh
/// `(pts, tris, color, rot)` appended: the old vertices and indices
/// are untouched, each point of `pts` became a vertex carrying `color`
/// and `rot`, and each entry of `tris` was rebased past the old
/// vertices.
pub open spec fn appended_mesh(
    pre: GraphicsContext,
    post: GraphicsContext,
    pts: Seq<Point>,
    tris: Seq<int>,
    color: Color,
    rot: Rot,
) -> bool {
    &&& post.geometry.vertices@.len() == pre.geometry.vertices@.len() + pts.len()
    &&& post.geometry.indices@.len() == pre.geometry.indices@.len() + tris.len()
    &&& forall|i: int|
        0 <= i < pre.geometry.vertices@.len() ==> #[trigger] post.geometry.vertices@[i]
            == pre.geometry.vertices@[i]
    &&& forall|i: int|
        pre.geometry.vertices@.len() <= i < post.geometry.vertices@.len()
            ==> #[trigger] post.geometry.vertices@[i] == mesh_vertex(
            pts[i - pre.geometry.vertices@.len()],
            color,
            rot,
        )
    &&& forall|i: int|
        0 <= i < pre.geometry.indices@.len() ==> #[trigger] post.geometry.indices@[i]
            == pre.geometry.indices@[i]
    &&& forall|i: int|
        pre.geometry.indices@.len() <= i < post.geometry.indices@.len()
            ==> #[trigger] post.geometry.indices@[i] == pre.geometry.vertices@.len() + tris[i
            - pre.geometry.indices@.len()]
}

/// The four corners a rectangle tessellation emits span exactly the
/// bounding box `[pos.x, pos.x + width] x [pos.y, pos.y + height]`:
/// every corner lies inside it, and each of its four edges is
/// attained.
pub proof fn lemma_rect_bounding_box(pos: Point, sides: Size)
    requires
        1 <= sides.width,
        1 <= sides.height,
        pos.x + sides.width <= i32::MAX,
        pos.y + sides.height <= i32::MAX,
    ensures
        forall|i: int|
            0 <= i < 4 ==> pos.x <= (#[trigger] rect_points(pos, sides)[i]).x <= pos.x
                + sides.width,
        forall|i: int|
            0 <= i < 4 ==> pos.y <= (#[trigger] rect_points(pos, sides)[i]).y <= pos.y
                + sides.height,
        rect_points(pos, sides)[0].x == pos.x,
        rect_points(pos, sides)[1].x == pos.x + sides.width,
        rect_points(pos, sides)[0].y == pos.y,
        rect_points(pos, sides)[2].y == pos.y + sides.height,
{
    assert forall|i: int| 0 <= i < 4 implies pos.x <= (#[trigger] rect_points(pos, sides)[i]).x
        <= pos.x + sides.width && pos.y <= rect_points(pos, sides)[i].y <= pos.y
        + sides.height by {
        if i == 0 || i == 3 {
            assert(rect_points(pos, sides)[i].x == pos.x);
        } else {
            assert(rect_points(pos, sides)[i].x == pos.x + sides.width);
        }
    }
}

/// `post` holds the same geometry as `pre`.
pub open spec fn same_geometry(pre: GraphicsContext, post: GraphicsContext) -> bool {
    &&& post.geometry.vertices@ == pre.geometry.vertices@
    &&& post.geometry.indices@ == pre.geometry.indices@
}

/// `post` holds the same scheduler state (screen extent and flags) as
/// `pre`.
pub open spec fn same_frame_state(pre: GraphicsContext, post: GraphicsContext) -> bool {
    &&& post.screen_maxes == pre.screen_maxes
    &&& post.rebuild_pending == pre.rebuild_pending
    &&& post.close_requested == pre.close_requested
    &&& post.clear_color == pre.clear_color
}

impl GraphicsContext {
    /// Well-formedness: the geometry buffer's indices are in bounds
    /// and the screen extent is a positive horizontal bound with the
    /// vertical bound pinned to [`ONE`].
    pub open spec fn wf(&self) -> bool {
        &&& self.geometry.wf()
        &&& 1 <= self.screen_maxes.x
        &&& self.screen_maxes.y == ONE
    }

    /// A fresh context: empty geometry buffer, square screen extent,
    /// no rebuild owed, no close requested, and an opaque-black clear
    /// color.
    pub fn new() -> (ctx: GraphicsContext)
        ensures
            ctx.wf(),
            ctx.geometry.vertices@.len() == 0,
            ctx.geometry.indices@.len() == 0,
            ctx.screen_maxes == (Point { x: ONE, y: ONE }),
            !ctx.rebuild_pending,
            !ctx.close_requested,
            ctx.clear_color == (Color { r: 0, g: 0, b: 0, a: ONE }),
    {
        GraphicsContext {
            geometry: GeometryBuffer::new(),
            screen_maxes: Point { x: ONE, y: ONE },
            rebuild_pending: false,
            close_requested: false,
            clear_color: Color { r: 0, g: 0, b: 0, a: ONE },
        }
    }

    /// Appends the four points as vertices and the six indices of the
    /// chosen diagonal split.
    fn push_quad_mesh(
        &mut self,
        p0: Point,
        p1: Point,
        p2: Point,
        p3: Point,
        first_diagonal: bool,
        color: Color,
        rot: Rot,
    )
        requires
            old(self).wf(),
            old(self).geometry.vertices@.len() + 4 <= MAX_VERTICES,
        ensures
            final(self).wf(),
            same_frame_state(*old(self), *final(self)),
            appended_mesh(
                *old(self),
                *final(self),
                seq![p0, p1, p2, p3],
                quad_tris(first_diagonal),
                color,
                rot,
            ),
    {
        let mut pts: Vec<Point> = Vec::new();
        pts.push(p0);
        pts.push(p1);
        pts.push(p2);
        pts.push(p3);
        let mut tris: Vec<u16> = Vec::new();
        if first_diagonal {
            tris.push(0);
            tris.push(1);
            tris.push(2);
            tris.push(0);
            tris.push(2);
            tris.push(3);
        } else {
            tris.push(1);
            tris.push(2);
            tris.push(3);
            tris.push(1);
            tris.push(3);
            tris.push(0);
        }
        proof {
            assert(pts@ =~= seq![p0, p1, p2, p3]);
            assert(forall|i: int| 0 <= i < tris@.len() ==> (#[trigger] tris@[i]) < pts@.len());
            assert(forall|i: int|
                0 <= i < tris@.len() ==> (#[trigger] tris@[i]) == quad_tris(first_diagonal)[i]);
        }
        self.geometry.append_shape(&pts, &tris, color, rot);
        proof {
            let pre = *old(self);
            let s = seq![p0, p1, p2, p3];
            let q = quad_tris(first_diagonal);
            let vlen0 = pre.geometry.vertices@.len() as int;
            let ilen0 = pre.geometry.indices@.len() as int;
            assert forall|i: int|
                vlen0 <= i < self.geometry.vertices@.len() implies #[trigger] self.geometry.vertices@[i]
                == mesh_vertex(s[i - vlen0], color, rot) by {
                assert(self.geometry.vertices@[vlen0 + (i - vlen0)] == mesh_vertex(
                    pts@[i - vlen0],
                    color,
                    rot,
                ));
            }
            assert forall|i: int|
                ilen0 <= i < self.geometry.indices@.len() implies #[trigger] self.geometry.indices@[i]
                == vlen0 + q[i - ilen0] by {
                assert(self.geometry.indices@[ilen0 + (i - ilen0)] == vlen0 + tris@[i - ilen0]);
                assert(tris@[i - ilen0] == q[i - ilen0]);
            }
            assert(appended_mesh(pre, *self, s, q, color, rot));
        }
    }

    /// Tessellates a filled circle of radius `rad` around `pos`.
    ///
    /// On success, [`crate::shapes::RING_POINTS`] vertices are
    /// appended, every one within [`crate::fixed::TOLERANCE`] of the
    /// true circle, filled by a triangle fan.  A non-positive radius
    /// is degenerate and appends nothing; a full buffer rejects the
    /// shape and appends nothing.
    pub fn new_circle(&mut self, pos: Point, rad: i32, color: Color) -> (res: PumiceResult<()>)
        requires
            old(self).wf(),
            rad >= 1 ==> circle_in_range(pos, rad),
        ensures
            final(self).wf(),
            same_frame_state(*old(self), *final(self)),
            res is Err ==> same_geometry(*old(self), *final(self)),
            res == Err::<(), PumiceError>(PumiceError::DegenerateGeometry) <==> rad < 1,
            res == Err::<(), PumiceError>(PumiceError::GeometryFull) <==> rad >= 1 && old(self).geometry.vertices@.len() + RING_POINTS > MAX_VERTICES,
            res is Ok <==> rad >= 1 && old(self).geometry.vertices@.len() + RING_POINTS
                <= MAX_VERTICES,
            res is Ok ==> final(self).geometry.vertices@.len() == old(self).geometry.vertices@.len() + RING_POINTS,
            res is Ok ==> final(self).geometry.indices@.len() == old(self).geometry.indices@.len()
                + RING_INDICES,
            res is Ok ==> forall|i: int|
                0 <= i < old(self).geometry.vertices@.len() ==> #[trigger] final(self).geometry.vertices@[i] == old(self).geometry.vertices@[i],
            res is Ok ==> forall|i: int|
                0 <= i < old(self).geometry.indices@.len() ==> #[trigger] final(self).geometry.indices@[i] == old(self).geometry.indices@[i],
            res is Ok ==> forall|i: int|
                old(self).geometry.vertices@.len() <= i < final(self).geometry.vertices@.len()
                    ==> ((#[trigger] final(self).geometry.vertices@[i]).color == color && final(self).geometry.vertices@[i].rot == rot_none() && on_circle(
                    pos,
                    rad,
                    final(self).geometry.vertices@[i].position,
                )),
            res is Ok ==> forall|i: int|
                old(self).geometry.indices@.len() <= i < final(self).geometry.indices@.len()
                    ==> #[trigger] final(self).geometry.indices@[i] == old(self).geometry.vertices@.len() + fan_index_at(i - old(self).geometry.indices@.len()),
            res is Ok ==> final(self).geometry.vertices@[old(self).geometry.vertices@.len()
                as int].position == (Point { x: (pos.x + rad) as i32, y: pos.y }),
            res is Ok ==> final(self).geometry.vertices@[old(self).geometry.vertices@.len() as int + 64].position
                == (Point { x: pos.x, y: (pos.y + rad) as i32 }),
            res is Ok ==> final(self).geometry.vertices@[old(self).geometry.vertices@.len() as int + 128].position
                == (Point { x: (pos.x - rad) as i32, y: pos.y }),
            res is Ok ==> final(self).geometry.vertices@[old(self).geometry.vertices@.len() as int + 192].position
                == (Point { x: pos.x, y: (pos.y - rad) as i32 }),
    {
        if rad < 1 {
            return Err(PumiceError::DegenerateGeometry);
        }
        if self.geometry.vertices.len() > MAX_VERTICES - RING_POINTS {
            return Err(PumiceError::GeometryFull);
        }
        let pts: Vec<Point> = circle_ring(pos, rad);
        let tris: Vec<u16> = fan_indices(RING_POINTS);
        self.geometry.append_shape(&pts, &tris, color, Rot { degrees: 0, px: 0, py: 0 });
        proof {
            let pre = *old(self);
            let vlen0 = pre.geometry.vertices@.len() as int;
            let ilen0 = pre.geometry.indices@.len() as int;
            assert forall|i: int|
                vlen0 <= i < self.geometry.vertices@.len() implies ((#[trigger] self.geometry.vertices@[i]).color
                == color && self.geometry.vertices@[i].rot == rot_none() && on_circle(
                pos,
                rad,
                self.geometry.vertices@[i].position,
            )) by {
                let j = i - vlen0;
                assert(self.geometry.vertices@[i] == mesh_vertex(
                    pts@[j],
                    color,
                    (Rot { degrees: 0, px: 0, py: 0 }),
                ));
                assert(on_circle(pos, rad, pts@[j]));
            }
            assert forall|i: int|
                ilen0 <= i < self.geometry.indices@.len() implies #[trigger] self.geometry.indices@[i]
                == vlen0 + fan_index_at(i - ilen0) by {
                assert(self.geometry.indices@[ilen0 + (i - ilen0)] == vlen0 + tris@[i - ilen0]);
                assert(tris@[i - ilen0] == fan_index_at(i - ilen0));
            }
            assert(self.geometry.vertices@[vlen0 + 0] == mesh_vertex(
                pts@[0],
                color,
                (Rot { degrees: 0, px: 0, py: 0 }),
            ));
            assert(self.geometry.vertices@[vlen0 + 64] == mesh_vertex(
                pts@[64],
                color,
                (Rot { degrees: 0, px: 0, py: 0 }),
            ));
            assert(self.geometry.vertices@[vlen0 + 128] == mesh_vertex(
                pts@[128],
                color,
                (Rot { degrees: 0, px: 0, py: 0 }),
            ));
            assert(self.geometry.vertices@[vlen0 + 192] == mesh_vertex(
                pts@[192],
                color,
                (Rot { degrees: 0, px: 0, py: 0 }),
            ));
        }
        Ok(())
    }

    /// Tessellates an axis-aligned rectangle with origin `pos` and
    /// extent `sides`, optionally tagged with a rotation that the GPU
    /// applies at draw time.
    ///
    /// On success, exactly the rectangle's four corners are appended,
    /// filled by two triangles, all four vertices carrying the same
    /// color and rotation attribute.  A non-positive width or height
    /// is degenerate and appends nothing; a full buffer rejects the
    /// shape and appends nothing.
    pub fn new_rectangle_full(
        &mut self,
        pos: Point,
        sides: Size,
        color: Color,
        rot: Option<Rotation>,
    ) -> (res: PumiceResult<()>)
        requires
            old(self).wf(),
            sides.width >= 1 && sides.height >= 1 ==> pos.x + sides.width <= i32::MAX && pos.y
                + sides.height <= i32::MAX,
        ensures
            final(self).wf(),
            same_frame_state(*old(self), *final(self)),
            res is Err ==> same_geometry(*old(self), *final(self)),
            res == Err::<(), PumiceError>(PumiceError::DegenerateGeometry) <==> sides.width < 1
                || sides.height < 1,
            res == Err::<(), PumiceError>(PumiceError::GeometryFull) <==> sides.width >= 1
                && sides.height >= 1 && old(self).geometry.vertices@.len() + 4 > MAX_VERTICES,
            res is Ok <==> sides.width >= 1 && sides.height >= 1 && old(self).geometry.vertices@.len() + 4 <= MAX_VERTICES,
            res is Ok ==> appended_mesh(
                *old(self),
                *final(self),
                rect_points(pos, sides),
                quad_tris(true),
                color,
                rot_attr(rot),
            ),
    {
        if sides.width < 1 || sides.height < 1 {
            return Err(PumiceError::DegenerateGeometry);
        }
        if self.geometry.vertices.len() > MAX_VERTICES - 4 {
            return Err(PumiceError::GeometryFull);
        }
        let x1: i32 = pos.x + sides.width;
        let y1: i32 = pos.y + sides.height;
        let attr: Rot = match rot {
            Option::None => Rot { degrees: 0, px: 0, py: 0 },
            Option::Some(r) => Rot { degrees: r.degrees, px: r.point.x, py: r.point.y },
        };
        self.push_quad_mesh(
            pos,
            Point { x: x1, y: pos.y },
            Point { x: x1, y: y1 },
            Point { x: pos.x, y: y1 },
            true,
            color,
            attr,
        );
        Ok(())
    }

    /// Tessellates an unrotated rectangle; see [`Self::new_rectangle_full`].
    pub fn new_rectangle(&mut self, pos: Point, sides: Size, color: Color) -> (res: PumiceResult<
        (),
    >)
        requires
            old(self).wf(),
            sides.width >= 1 && sides.height >= 1 ==> pos.x + sides.width <= i32::MAX && pos.y
                + sides.height <= i32::MAX,
        ensures
            final(self).wf(),
            same_frame_state(*old(self), *final(self)),
            res is Err ==> same_geometry(*old(self), *final(self)),
            res == Err::<(), PumiceError>(PumiceError::DegenerateGeometry) <==> sides.width < 1
                || sides.height < 1,
            res == Err::<(), PumiceError>(PumiceError::GeometryFull) <==> sides.width >= 1
                && sides.height >= 1 && old(self).geometry.vertices@.len() + 4 > MAX_VERTICES,
            res is Ok <==> sides.width >= 1 && sides.height >= 1 && old(self).geometry.vertices@.len() + 4 <= MAX_VERTICES,
            res is Ok ==> appended_mesh(
                *old(self),
                *final(self),
                rect_points(pos, sides),
                quad_tris(true),
                color,
                rot_none(),
            ),
    {
        self.new_rectangle_full(pos, sides, color, Option::None)
    }

    /// Tessellates a rectangle rotated by `degrees` (Q16.16) around
    /// its own center; see [`Self::new_rectangle_full`].  All four
    /// vertices carry the same `(angle, pivot)` rotation attribute,
    /// the pivot being the rectangle's center (rounded down half a
    /// unit when a side is odd).
    pub fn new_rectangle_rotcenter(
        &mut self,
        pos: Point,
        sides: Size,
        degrees: i32,
        color: Color,
    ) -> (res: PumiceResult<()>)
        requires
            old(self).wf(),
            sides.width >= 1 && sides.height >= 1 ==> pos.x + sides.width <= i32::MAX && pos.y
                + sides.height <= i32::MAX,
        ensures
            final(self).wf(),
            same_frame_state(*old(self), *final(self)),
            res is Err ==> same_geometry(*old(self), *final(self)),
            res == Err::<(), PumiceError>(PumiceError::DegenerateGeometry) <==> sides.width < 1
                || sides.height < 1,
            res == Err::<(), PumiceError>(PumiceError::GeometryFull) <==> sides.width >= 1
                && sides.height >= 1 && old(self).geometry.vertices@.len() + 4 > MAX_VERTICES,
            res is Ok <==> sides.width >= 1 && sides.height >= 1 && old(self).geometry.vertices@.len() + 4 <= MAX_VERTICES,
            res is Ok ==> appended_mesh(
                *old(self),
                *final(self),
                rect_points(pos, sides),
                quad_tris(true),
                color,
                (Rot {
                    degrees,
                    px: (pos.x + sides.width / 2) as i32,
                    py: (pos.y + sides.height / 2) as i32,
                }),
            ),
    {
        if sides.width < 1 || sides.height < 1 {
            return Err(PumiceError::DegenerateGeometry);
        }
        let pivot = Point { x: pos.x + sides.width / 2, y: pos.y + sides.height / 2 };
        self.new_rectangle_full(pos, sides, color, Option::Some(Rotation { degrees, point: pivot }))
    }

    /// Tessellates an arbitrary quad from its four points, which need
    /// not form a convex shape.
    ///
    /// A simple outline is split along whichever diagonal yields two
    /// non-empty triangles winding the same way (the `0-2` diagonal is
    /// tried first).  A self-intersecting outline — two opposite edges
    /// properly cross — is filled by its two lobes around the crossing
    /// point, which becomes a fifth vertex, as the non-zero-winding
    /// rule fills it.  What remains (zero-area outlines, collinear
    /// points, outlines that touch without crossing) is degenerate and
    /// nothing is appended.
    pub fn new_quad(&mut self, points: [Point; 4], color: Color) -> (res: PumiceResult<()>)
        requires
            old(self).wf(),
        ensures
            final(self).wf(),
            same_frame_state(*old(self), *final(self)),
            res is Err ==> same_geometry(*old(self), *final(self)),
            res == Err::<(), PumiceError>(PumiceError::DegenerateGeometry) <==> !quad_fillable(
                points@[0],
                points@[1],
                points@[2],
                points@[3],
            ),
            res == Err::<(), PumiceError>(PumiceError::GeometryFull) <==> quad_fillable(
                points@[0],
                points@[1],
                points@[2],
                points@[3],
            ) && old(self).geometry.vertices@.len() + quad_fill_points(
                points@[0],
                points@[1],
                points@[2],
                points@[3],
            ).len() > MAX_VERTICES,
            res is Ok <==> quad_fillable(points@[0], points@[1], points@[2], points@[3]) && old(self).geometry.vertices@.len() + quad_fill_points(
                points@[0],
                points@[1],
                points@[2],
                points@[3],
            ).len() <= MAX_VERTICES,
            res is Ok ==> appended_mesh(
                *old(self),
                *final(self),
                quad_fill_points(points@[0], points@[1], points@[2], points@[3]),
                quad_fill_tris(points@[0], points@[1], points@[2], points@[3]),
                color,
                rot_none(),
            ),
    {
        let p0: Point = points[0];
        let p1: Point = points[1];
        let p2: Point = points[2];
        let p3: Point = points[3];
        let first: bool = check_diagonal(p0, p1, p2, p3);
        let second: bool = check_diagonal(p1, p2, p3, p0);
        if first || second {
            if self.geometry.vertices.len() > MAX_VERTICES - 4 {
                return Err(PumiceError::GeometryFull);
            }
            self.push_quad_mesh(p0, p1, p2, p3, first, color, Rot { degrees: 0, px: 0, py: 0 });
            proof {
                assert(points@ =~= seq![p0, p1, p2, p3]);
                assert(quad_fill_points(p0, p1, p2, p3) =~= seq![p0, p1, p2, p3]);
                assert(quad_fill_tris(p0, p1, p2, p3) =~= quad_tris(first));
                assert(appended_mesh(
                    *old(self),
                    *self,
                    quad_fill_points(points@[0], points@[1], points@[2], points@[3]),
                    quad_fill_tris(points@[0], points@[1], points@[2], points@[3]),
                    color,
                    rot_none(),
                ));
            }
            return Ok(());
        }
        let cross_a: bool = check_crossing(p0, p1, p2, p3);
        let cross_b: bool = check_crossing(p1, p2, p3, p0);
        if !cross_a && !cross_b {
            return Err(PumiceError::DegenerateGeometry);
        }
        if self.geometry.vertices.len() > MAX_VERTICES - 5 {
            return Err(PumiceError::GeometryFull);
        }
        let x: Point = if cross_a {
            crossing_point_of(p0, p1, p2, p3)
        } else {
            crossing_point_of(p1, p2, p3, p0)
        };
        let mut pts: Vec<Point> = Vec::new();
        pts.push(p0);
        pts.push(p1);
        pts.push(p2);
        pts.push(p3);
        pts.push(x);
        let mut tris: Vec<u16> = Vec::new();
        if cross_a {
            tris.push(4);
            tris.push(1);
            tris.push(2);
            tris.push(4);
            tris.push(3);
            tris.push(0);
        } else {
            tris.push(4);
            tris.push(2);
            tris.push(3);
            tris.push(4);
            tris.push(0);
            tris.push(1);
        }
        proof {
            assert(pts@ =~= seq![p0, p1, p2, p3, x]);
            assert(forall|i: int| 0 <= i < tris@.len() ==> (#[trigger] tris@[i]) < pts@.len());
            assert(forall|i: int|
                0 <= i < tris@.len() ==> (#[trigger] tris@[i]) == quad_fill_tris(p0, p1, p2, p3)[i]);
        }
        self.geometry.append_shape(&pts, &tris, color, Rot { degrees: 0, px: 0, py: 0 });
        proof {
            let pre = *old(self);
            let vlen0 = pre.geometry.vertices@.len() as int;
            let ilen0 = pre.geometry.indices@.len() as int;
            let fp = quad_fill_points(p0, p1, p2, p3);
            let ft = quad_fill_tris(p0, p1, p2, p3);
            assert(fp =~= pts@);
            assert forall|i: int|
                vlen0 <= i < self.geometry.vertices@.len() implies #[trigger] self.geometry.vertices@[i]
                == mesh_vertex(fp[i - vlen0], color, rot_none()) by {
                assert(self.geometry.vertices@[vlen0 + (i - vlen0)] == mesh_vertex(
                    pts@[i - vlen0],
                    color,
                    (Rot { degrees: 0, px: 0, py: 0 }),
                ));
            }
            assert forall|i: int|
                ilen0 <= i < self.geometry.indices@.len() implies #[trigger] self.geometry.indices@[i]
                == vlen0 + ft[i - ilen0] by {
                assert(self.geometry.indices@[ilen0 + (i - ilen0)] == vlen0 + tris@[i - ilen0]);
                assert(tris@[i - ilen0] == ft[i - ilen0]);
            }
            assert(appended_mesh(pre, *self, fp, ft, color, rot_none()));
        }
        Ok(())
    }

    /// Tessellates a triangle from its three points.
    ///
    /// A triangle with zero signed area is degenerate and appends
    /// nothing; otherwise its three points become three vertices and
    /// one triangle.
    pub fn new_triangle(&mut self, points: [Point; 3], color: Color) -> (res: PumiceResult<()>)
        requires
            old(self).wf(),
        ensures
            final(self).wf(),
            same_frame_state(*old(self), *final(self)),
            res is Err ==> same_geometry(*old(self), *final(self)),
            res == Err::<(), PumiceError>(PumiceError::DegenerateGeometry) <==> cross(
                points@[0],
                points@[1],
                points@[2],
            ) == 0,
            res == Err::<(), PumiceError>(PumiceError::GeometryFull) <==> cross(
                points@[0],
                points@[1],
                points@[2],
            ) != 0 && old(self).geometry.vertices@.len() + 3 > MAX_VERTICES,
            res is Ok <==> cross(points@[0], points@[1], points@[2]) != 0 && old(self).geometry.vertices@.len() + 3 <= MAX_VERTICES,
            res is Ok ==> appended_mesh(
                *old(self),
                *final(self),
                points@,
                seq![0, 1, 2],
                color,
                rot_none(),
            ),
    {
        let p0: Point = points[0];
        let p1: Point = points[1];
        let p2: Point = points[2];
        let area: i128 = cross_of(p0, p1, p2);
        if area == 0 {
            return Err(PumiceError::DegenerateGeometry);
        }
        if self.geometry.vertices.len() > MAX_VERTICES - 3 {
            return Err(PumiceError::GeometryFull);
        }
        let mut pts: Vec<Point> = Vec::new();
        pts.push(p0);
        pts.push(p1);
        pts.push(p2);
        let mut tris: Vec<u16> = Vec::new();
        tris.push(0);
        tris.push(1);
        tris.push(2);
        proof {
            assert(points@ =~= seq![p0, p1, p2]);
            assert(forall|i: int| 0 <= i < tris@.len() ==> (#[trigger] tris@[i]) < pts@.len());
        }
        self.geometry.append_shape(&pts, &tris, color, Rot { degrees: 0, px: 0, py: 0 });
        proof {
            let pre = *old(self);
            let vlen0 = pre.geometry.vertices@.len() as int;
            let ilen0 = pre.geometry.indices@.len() as int;
            let q: Seq<int> = seq![0, 1, 2];
            assert forall|i: int|
                vlen0 <= i < self.geometry.vertices@.len() implies #[trigger] self.geometry.vertices@[i]
                == mesh_vertex(points@[i - vlen0], color, rot_none()) by {
                assert(self.geometry.vertices@[vlen0 + (i - vlen0)] == mesh_vertex(
                    pts@[i - vlen0],
                    color,
                    (Rot { degrees: 0, px: 0, py: 0 }),
                ));
            }
            assert forall|i: int|
                ilen0 <= i < self.geometry.indices@.len() implies #[trigger] self.geometry.indices@[i]
                == vlen0 + q[i - ilen0] by {
                assert(self.geometry.indices@[ilen0 + (i - ilen0)] == vlen0 + tris@[i - ilen0]);
            }
            assert(appended_mesh(pre, *self, points@, q, color, rot_none()));
        }
        Ok(())
    }

    /// The `AcquireImage` decision: on a ready image, proceed with its
    /// index; on an out-of-date chain, record that a rebuild is owed
    /// and retry the acquire on the next iteration — never a fatal
    /// error.
    pub fn handle_acquire(&mut self, outcome: &AcquireOutcome) -> (proceed: Option<usize>)
        ensures
            same_geometry(*old(self), *final(self)),
            final(self).screen_maxes == old(self).screen_maxes,
            final(self).close_requested == old(self).close_requested,
            final(self).clear_color == old(self).clear_color,
            old(self).wf() ==> final(self).wf(),
            outcome is OutOfDate ==> proceed is None && final(self).rebuild_pending,
            *outcome matches AcquireOutcome::Ready(i) ==> proceed == Some(i) && final(
                self).rebuild_pending == old(self).rebuild_pending,
    {
        match outcome {
            AcquireOutcome::Ready(image_index) => Some(*image_index),
            AcquireOutcome::OutOfDate => {
                self.rebuild_pending = true;
                None
            },
        }
    }

    /// The `Rebuild` step, run after the presentation chain has been
    /// recreated for the given window extent: recompute the screen
    /// extent state from the new aspect ratio and clear the owed
    /// rebuild.
    pub fn apply_rebuild(&mut self, width: u32, height: u32)
        requires
            extent_ok(width, height),
        ensures
            same_geometry(*old(self), *final(self)),
            final(self).close_requested == old(self).close_requested,
            final(self).clear_color == old(self).clear_color,
            !final(self).rebuild_pending,
            final(self).screen_maxes.x == aspect_of(width, height),
            final(self).screen_maxes.y == ONE,
            old(self).geometry.wf() ==> final(self).wf(),
    {
        let aspect: u64 = (width as u64) * 65536 / (height as u64);
        self.screen_maxes = Point { x: aspect as i32, y: 65536 };
        self.rebuild_pending = false;
    }

    /// The step after `Present`: record an out-of-date chain for the
    /// next iteration's rebuild (any other submission failure leaves
    /// the state untouched — the frame future is reset by the
    /// embedder), then clear the geometry buffer unconditionally so
    /// stale geometry never leaks into the next frame.
    pub fn finish_frame(&mut self, outcome: &FlushOutcome)
        ensures
            final(self).geometry.vertices@.len() == 0,
            final(self).geometry.indices@.len() == 0,
            final(self).screen_maxes == old(self).screen_maxes,
            final(self).close_requested == old(self).close_requested,
            final(self).clear_color == old(self).clear_color,
            final(self).rebuild_pending == (old(self).rebuild_pending || *outcome
                == FlushOutcome::OutOfDate),
            old(self).wf() ==> final(self).wf(),
    {
        match outcome {
            FlushOutcome::OutOfDate => {
                self.rebuild_pending = true;
            },
            FlushOutcome::Completed => {},
            FlushOutcome::Failed => {},
        }
        self.geometry.clear();
    }

    /// The `Upload` step's copy: the vertex and index data handed to
    /// the GPU-visible buffers, sized exactly to the geometry
    /// buffer's current length (the buffers are re-allocated each
    /// frame; the engine accepts this cost for simplicity over a
    /// ring-buffer scheme).
    pub fn upload_data(&self) -> (data: (Vec<Vertex>, Vec<u16>))
        ensures
            data.0@ == self.geometry.vertices@,
            data.1@ == self.geometry.indices@,
    {
        let mut verts: Vec<Vertex> = Vec::new();
        let mut k: usize = 0;
        while k < self.geometry.vertices.len()
            invariant
                k <= self.geometry.vertices@.len(),
                verts@ == self.geometry.vertices@.subrange(0, k as int),
            decreases self.geometry.vertices@.len() - k,
        {
            verts.push(self.geometry.vertices[k]);
            proof {
                assert(self.geometry.vertices@.subrange(0, k + 1)
                    =~= self.geometry.vertices@.subrange(0, k as int).push(
                    self.geometry.vertices@[k as int],
                ));
            }
            k = k + 1;
        }
        let mut idxs: Vec<u16> = Vec::new();
        let mut j: usize = 0;
        while j < self.geometry.indices.len()
            invariant
                j <= self.geometry.indices@.len(),
                idxs@ == self.geometry.indices@.subrange(0, j as int),
            decreases self.geometry.indices@.len() - j,
        {
            idxs.push(self.geometry.indices[j]);
            proof {
                assert(self.geometry.indices@.subrange(0, j + 1)
                    =~= self.geometry.indices@.subrange(0, j as int).push(
                    self.geometry.indices@[j as int],
                ));
            }
            j = j + 1;
        }
        proof {
            assert(verts@ =~= self.geometry.vertices@);
            assert(idxs@ =~= self.geometry.indices@);
        }
        (verts, idxs)
    }

    /// The aspect-correction scale the `Upload` step binds as the
    /// frame's uniform data: the Q16.16 reciprocal of each screen
    /// extent bound (the vertical factor is always exactly 1.0).
    pub fn uniform_scale(&self) -> (s: (i64, i64))
        requires
            self.wf(),
        ensures
            s.0 == 4294967296int / (self.screen_maxes.x as int),
            s.1 == 65536,
    {
        let sx: i64 = 4294967296i64 / (self.screen_maxes.x as i64);
        let sy: i64 = 4294967296i64 / (self.screen_maxes.y as i64);
        (sx, sy)
    }

    /// The event dispatch step: drain the queued platform events,
    /// forwarding every event to the host's event hook before the
    /// engine interprets it.  A close request sets the close flag
    /// consumed at the end of the iteration; a resize marks a rebuild
    /// owed at the top of the next acquire.  A hook failure stops the
    /// dispatch at that event and is propagated.
    #[verifier::loop_isolation(false)]
    pub fn dispatch_events<A: App>(&mut self, app: &mut A, events: &Vec<Event>) -> (res:
        PumiceResult<()>)
        ensures
            same_geometry(*old(self), *final(self)),
            final(self).screen_maxes == old(self).screen_maxes,
            final(self).clear_color == old(self).clear_color,
            old(self).wf() ==> final(self).wf(),
            old(self).close_requested ==> final(self).close_requested,
            old(self).rebuild_pending ==> final(self).rebuild_pending,
            res is Ok ==> final(self).close_requested == (old(self).close_requested || has_close(
                events@,
            )),
            res is Ok ==> final(self).rebuild_pending == (old(self).rebuild_pending || has_resize(
                events@,
            )),
            res is Err ==> events@.len() >= 1,
            res is Err ==> exists|k: int|
                0 <= k < events@.len() && final(self).close_requested == (old(self).close_requested || has_close(#[trigger] events@.subrange(0, k))) && final(self).rebuild_pending == (old(self).rebuild_pending || has_resize(
                    events@.subrange(0, k),
                )),
    {
        let mut k: usize = 0;
        while k < events.len()
            invariant
                k <= events@.len(),
                same_geometry(*old(self), *self),
                self.screen_maxes == old(self).screen_maxes,
                self.clear_color == old(self).clear_color,
                self.close_requested == (old(self).close_requested || has_close(
                    events@.subrange(0, k as int),
                )),
                self.rebuild_pending == (old(self).rebuild_pending || has_resize(
                    events@.subrange(0, k as int),
                )),
            decreases events@.len() - k,
        {
            let ev: Event = events[k];
            match app.on_event(&ev) {
                Err(e) => {
                    proof {
                        // name the scanned prefix, so the error
                        // postcondition's witness is at hand
                        let kk = k as int;
                        assert(0 <= kk < events@.len() && self.close_requested == (old(self).close_requested || has_close(events@.subrange(0, kk)))
                            && self.rebuild_pending == (old(self).rebuild_pending || has_resize(
                            events@.subrange(0, kk),
                        )));
                    }
                    return Err(e);
                },
                Ok(()) => {},
            }
            proof {
                lemma_event_scan_step(events@, k as int);
            }
            match ev {
                Event::CloseRequested => {
                    self.close_requested = true;
                },
                Event::Resized(_, _) => {
                    self.rebuild_pending = true;
                },
                Event::Other => {},
            }
            k = k + 1;
        }
        proof {
            assert(events@.subrange(0, events@.len() as int) =~= events@);
        }
        Ok(())
    }

    /// The frame loop, driven by a script of per-iteration platform
    /// inputs.  Each iteration applies the rebuild owed from the
    /// previous one — skipping the rebuild, and with it the acquire,
    /// while the window reports an unusable extent, as a minimized
    /// window does — then handles the acquire outcome, runs the
    /// host's update hook, performs the upload step, finishes the
    /// frame (threading the pending-frame chain), and drains the
    /// iteration's events.  It returns when a close request is
    /// observed (after completing any in-progress frame, acquiring no
    /// further image), when a hook fails, or when the script ends.
    ///
    /// An embedder driving a real window runs the same steps, feeding
    /// in each platform outcome as it happens instead of from a
    /// script.
    #[verifier::loop_isolation(false)]
    pub fn run<A: App>(&mut self, app: &mut A, script: &Vec<FrameInputs>) -> (report: RunReport)
        requires
            old(self).wf(),
            !old(self).close_requested,
            old(self).geometry.vertices@.len() == 0,
            old(self).geometry.indices@.len() == 0,
        ensures
            final(self).wf(),
            report.outcome is Closed ==> final(self).close_requested,
            report.outcome is Closed ==> final(self).geometry.vertices@.len() == 0 && final(self).geometry.indices@.len() == 0,
            report.outcome is Closed ==> exists|j: int|
                0 <= j < script@.len() && has_close((#[trigger] script@[j]).events@),
            report.outcome is ScriptEnded ==> !final(self).close_requested,
            report.outcome is ScriptEnded ==> final(self).geometry.vertices@.len() == 0 && final(self).geometry.indices@.len() == 0,
            report.outcome is ScriptEnded && usable_script(script@) ==> report.frames_presented
                == ready_count(script@),
            report.outcome is Stopped ==> exists|j: int|
                0 <= j < script@.len() && ((#[trigger] script@[j]).acquire is Ready
                    || script@[j].events@.len() >= 1),
            report.frames_presented <= script@.len(),
            report.rebuilds <= script@.len(),
    {
        let mut pending: PendingFrame = PendingFrame::completed();
        let mut i: usize = 0;
        let mut frames: usize = 0;
        let mut rebuilds: usize = 0;
        while i < script.len()
            invariant
                i <= script@.len(),
                self.wf(),
                !self.close_requested,
                self.geometry.vertices@.len() == 0,
                self.geometry.indices@.len() == 0,
                usable_script(script@) ==> frames == ready_count(script@.subrange(0, i as int)),
                pending.frame <= frames,
                frames <= i,
                rebuilds <= i,
            decreases script@.len() - i,
        {
            let inputs: &FrameInputs = &script[i];
            if self.rebuild_pending && extent_usable(inputs.window_width, inputs.window_height) {
                self.apply_rebuild(inputs.window_width, inputs.window_height);
                rebuilds = rebuilds + 1;
            }
            // while a rebuild is still owed (the window reported an
            // unusable extent), the chain cannot serve an acquire:
            // retry on a later iteration
            let proceed: Option<usize> = if self.rebuild_pending {
                None
            } else {
                self.handle_acquire(&inputs.acquire)
            };
            match proceed {
                None => {},
                Some(_image_index) => {
                    proof {
                        assert(script@[i as int].acquire is Ready);
                    }
                    match app.on_update(self) {
                        Err(e) => {
                            return RunReport {
                                outcome: RunOutcome::Stopped(e),
                                frames_presented: frames,
                                rebuilds,
                            };
                        },
                        Ok(()) => {},
                    }
                    let _upload: (Vec<Vertex>, Vec<u16>) = self.upload_data();
                    let _scale: (i64, i64) = self.uniform_scale();
                    pending = pending.chain(&inputs.flush);
                    self.finish_frame(&inputs.flush);
                    frames = frames + 1;
                },
            }
            match self.dispatch_events(app, &inputs.events) {
                Err(e) => {
                    proof {
                        assert(script@[i as int].events@.len() >= 1);
                    }
                    return RunReport {
                        outcome: RunOutcome::Stopped(e),
                        frames_presented: frames,
                        rebuilds,
                    };
                },
                Ok(()) => {},
            }
            if self.close_requested {
                proof {
                    assert(has_close(script@[i as int].events@));
                }
                return RunReport {
                    outcome: RunOutcome::Closed,
                    frames_presented: frames,
                    rebuilds,
                };
            }
            proof {
                assert(script@.subrange(0, i + 1).drop_last() =~= script@.subrange(0, i as int));
                assert(script@.subrange(0, i + 1).last() == script@[i as int]);
            }
            i = i + 1;
        }
        proof {
            assert(script@.subrange(0, script@.len() as int) =~= script@);
        }
        RunReport { outcome: RunOutcome::ScriptEnded, frames_presented: frames, rebuilds }
    }
}

/// Extending an event scan by one event extends what it saw: the
/// prefix of length `k + 1` holds a close (or resize) exactly when
/// the prefix of length `k` does or event `k` is one.
proof fn lemma_event_scan_step(s: Seq<Event>, k: int)
    requires
        0 <= k < s.len(),
    ensures
        has_close(s.subrange(0, k + 1)) == (has_close(s.subrange(0, k))
            || s[k] is CloseRequested),
        has_resize(s.subrange(0, k + 1)) == (has_resize(s.subrange(0, k)) || s[k] is Resized),
{
    let a = s.subrange(0, k);
    let b = s.subrange(0, k + 1);
    assert(b[k] == s[k]);
    if has_close(b) {
        let i = choose|i: int| 0 <= i < b.len() && (#[trigger] b[i]) is CloseRequested;
        if i < k {
            assert(a[i] is CloseRequested);
        }
    }
    if has_close(a) {
        let i = choose|i: int| 0 <= i < a.len() && (#[trigger] a[i]) is CloseRequested;
        assert(b[i] is CloseRequested);
    }
    if s[k] is CloseRequested {
        assert(b[k] is CloseRequested);
    }
    if has_resize(b) {
        let i = choose|i: int| 0 <= i < b.len() && (#[trigger] b[i]) is Resized;
        if i < k {
            assert(a[i] is Resized);
        }
    }
    if has_resize(a) {
        let i = choose|i: int| 0 <= i < a.len() && (#[trigger] a[i]) is Resized;
        assert(b[i] is Resized);
    }
    if s[k] is Resized {
        assert(b[k] is Resized);
    }
}

} // verus!

//! Vertices and the per-frame geometry accumulation buffer.

use vstd::prelude::*;

use crate::fixed::Point;

verus! {

/// An RGBA fill color; each channel is a Q16.16 value where
/// [`crate::fixed::ONE`] stands for full intensity.
#[derive(Clone, Copy, Debug, PartialEq, Eq, Structural)]
pub struct Color {
    pub r: i32,
    pub g: i32,
    pub b: i32,
    pub a: i32,
}

/// The per-vertex rotation attribute: an angle in degrees (Q16.16) and
/// the pivot the rotation turns around.  The transform is applied on
/// the GPU at draw time, not baked into positions.
#[derive(Clone, Copy, Debug, PartialEq, Eq, Structural)]
pub struct Rot {
    pub degrees: i32,
    pub px: i32,
    pub py: i32,
}

/// The rotation attribute meaning "no rotation".
pub open spec fn rot_none() -> Rot {
    Rot { degrees: 0, px: 0, py: 0 }
}

/// A rotation request for rectangle tessellation: turn the rectangle
/// by `degrees` around `point`.
#[derive(Clone, Copy, Debug, PartialEq, Eq, Structural)]
pub struct Rotation {
    pub degrees: i32,
    pub point: Point,
}

/// One mesh vertex: a position, a fill color and a rotation tag.  All
/// vertices emitted by a single tessellation call carry the same color
/// and rotation.
#[derive(Clone, Copy, Debug, PartialEq, Eq, Structural)]
pub struct Vertex {
    pub position: Point,
    pub color: Color,
    pub rot: Rot,
}

/// The vertex a tessellation call emits for outline point `p`.
pub open spec fn mesh_vertex(p: Point, color: Color, rot: Rot) -> Vertex {
    Vertex { position: p, color, rot }
}

/// The largest number of vertices the buffer can hold: its indices are
/// `u16`, so only this many vertices are addressable.
pub const MAX_VERTICES: usize = 65536;

/// The per-frame accumulation buffer of vertices and indices.  Indices
/// are grouped in threes, one triangle each, and always refer to
/// vertices of the same buffer.  It is cleared after every submitted
/// frame; mutate it only through the tessellation calls and the frame
/// scheduler's clear step.
pub struct GeometryBuffer {
    pub vertices: Vec<Vertex>,
    pub indices: Vec<u16>,
}

impl GeometryBuffer {
    /// Well-formedness: indices form whole triangles, every index is in
    /// bounds of the vertex list, and the vertex count stays within the
    /// `u16` index space.
    pub open spec fn wf(&self) -> bool {
        &&& self.vertices@.len() <= MAX_VERTICES
        &&& self.indices@.len() % 3 == 0
        &&& forall|i: int|
            0 <= i < self.indices@.len() ==> (#[trigger] self.indices@[i]) < self.vertices@.len()
    }

    /// An empty buffer.
    pub fn new() -> (g: GeometryBuffer)
        ensures
            g.wf(),
            g.vertices@.len() == 0,
            g.indices@.len() == 0,
    {
        GeometryBuffer { vertices: Vec::new(), indices: Vec::new() }
    }

    /// Drop all accumulated geometry.
    pub fn clear(&mut self)
        ensures
            final(self).wf(),
            final(self).vertices@.len() == 0,
            final(self).indices@.len() == 0,
    {
        self.vertices.clear();
        self.indices.clear();
    }

    /// Append one tessellated shape: each point of `pts` becomes a
    /// vertex carrying `color` and `rot`, and each entry of `tris`
    /// (an index local to `pts`) is rebased onto this buffer.
    pub fn append_shape(&mut self, pts: &Vec<Point>, tris: &Vec<u16>, color: Color, rot: Rot)
        requires
            old(self).wf(),
            old(self).vertices@.len() + pts@.len() <= MAX_VERTICES,
            tris@.len() % 3 == 0,
            forall|i: int| 0 <= i < tris@.len() ==> (#[trigger] tris@[i]) < pts@.len(),
        ensures
            final(self).wf(),
            final(self).vertices@.len() == old(self).vertices@.len() + pts@.len(),
            final(self).indices@.len() == old(self).indices@.len() + tris@.len(),
            forall|i: int|
                0 <= i < old(self).vertices@.len() ==> final(self).vertices@[i] == old(
                    self,
                ).vertices@[i],
            forall|i: int|
                0 <= i < pts@.len() ==> final(self).vertices@[old(self).vertices@.len() + i]
                    == mesh_vertex(#[trigger] pts@[i], color, rot),
            forall|i: int|
                0 <= i < old(self).indices@.len() ==> final(self).indices@[i] == old(
                    self,
                ).indices@[i],
            forall|i: int|
                0 <= i < tris@.len() ==> final(self).indices@[old(self).indices@.len() + i] == old(
                    self,
                ).vertices@.len() + #[trigger] tris@[i],
    {
        let base: usize = self.vertices.len();
        let mut k: usize = 0;
        while k < pts.len()
            invariant
                k <= pts@.len(),
                base == old(self).vertices@.len(),
                base + pts@.len() <= MAX_VERTICES,
                self.indices@ == old(self).indices@,
                self.vertices@.len() == base + k,
                forall|i: int| 0 <= i < base ==> self.vertices@[i] == old(self).vertices@[i],
                forall|i: int|
                    0 <= i < k ==> self.vertices@[base + i] == mesh_vertex(
                        #[trigger] pts@[i],
                        color,
                        rot,
                    ),
            decreases pts@.len() - k,
        {
            let p: Point = pts[k];
            self.vertices.push(Vertex { position: p, color, rot });
            k = k + 1;
        }
        let mut j: usize = 0;
        while j < tris.len()
            invariant
                j <= tris@.len(),
                base == old(self).vertices@.len(),
                base + pts@.len() <= MAX_VERTICES,
                forall|i: int| 0 <= i < tris@.len() ==> (#[trigger] tris@[i]) < pts@.len(),
                self.vertices@.len() == base + pts@.len(),
                forall|i: int| 0 <= i < base ==> self.vertices@[i] == old(self).vertices@[i],
                forall|i: int|
                    0 <= i < pts@.len() ==> self.vertices@[base + i] == mesh_vertex(
                        #[trigger] pts@[i],
                        color,
                        rot,
                    ),
                self.indices@.len() == old(self).indices@.len() + j,
                forall|i: int|
                    0 <= i < old(self).indices@.len() ==> self.indices@[i] == old(
                        self,
                    ).indices@[i],
                forall|i: int|
                    0 <= i < j ==> self.indices@[old(self).indices@.len() + i] == base
                        + #[trigger] tris@[i],
            decreases tris@.len() - j,
        {
            let rebased: usize = base + tris[j] as usize;
            assert(rebased < MAX_VERTICES);
            self.indices.push(rebased as u16);
            j = j + 1;
        }
        proof {
            assert(self.wf()) by {
                assert forall|i: int| 0 <= i < self.indices@.len() implies (
                #[trigger] self.indices@[i]) < self.vertices@.len() by {
                    if i >= old(self).indices@.len() {
                        assert(self.indices@[i] == base + tris@[i - old(self).indices@.len()]);
                    }
                }
            }
        }
    }
}

} // verus!

//! Growable vertex and index arrays of one batched mesh.
use vstd::prelude::*;
use crate::geometry::{LinearColor, Normal3, Point3, Uv};
use crate::quad::Quad;

verus! {

/// Vertex attributes (parallel arrays) and a triangle list over them.
#[derive(Debug)]
pub struct MeshBuffer {
    pub positions: Vec<Point3>,
    pub uvs: Vec<Uv>,
    pub normals: Vec<Normal3>,
    pub colors: Vec<LinearColor>,
    pub indices: Vec<u32>,
}

/// The contents of a `MeshBuffer`.
pub struct MeshView {
    pub positions: Seq<Point3>,
    pub uvs: Seq<Uv>,
    pub normals: Seq<Normal3>,
    pub colors: Seq<LinearColor>,
    pub indices: Seq<u32>,
}

impl MeshView {
    pub open spec fn empty() -> MeshView {
        MeshView {
            positions: Seq::empty(),
            uvs: Seq::empty(),
            normals: Seq::empty(),
            colors: Seq::empty(),
            indices: Seq::empty(),
        }
    }

    /// Number of vertices.
    pub open spec fn vertex_count(self) -> nat {
        self.positions.len()
    }

    /// Attribute arrays of one length, a whole number of quads, six indices
    /// per quad, and every index naming a vertex that is there.
    pub open spec fn well_formed(self) -> bool {
        &&& self.uvs.len() == self.positions.len()
        &&& self.normals.len() == self.positions.len()
        &&& self.colors.len() == self.positions.len()
        &&& self.positions.len() % 4 == 0
        &&& self.indices.len() == self.positions.len() / 4 * 6
        &&& forall|j: int| 0 <= j < self.indices.len() ==> self.indices[j] < self.positions.len()
    }

    /// The mesh with one more quad: four vertices at the current length `n`,
    /// and the triangles `(n, n+1, n+2)` and `(n+2, n+3, n)`.
    pub open spec fn append_quad(self, q: Quad) -> MeshView {
        let n = self.positions.len();
        MeshView {
            positions: self.positions + seq![q.bl, q.br, q.tr, q.tl],
            uvs: self.uvs + seq![q.uvs.bl, q.uvs.br, q.uvs.tr, q.uvs.tl],
            normals: self.normals + seq![q.normal, q.normal, q.normal, q.normal],
            colors: self.colors + seq![q.color, q.color, q.color, q.color],
            indices: self.indices + seq![
                n as u32,
                (n + 1) as u32,
                (n + 2) as u32,
                (n + 2) as u32,
                (n + 3) as u32,
                n as u32,
            ],
        }
    }
}

/// A well-formed mesh has attribute arrays of one length, a multiple of
/// four, an index array whose length is a multiple of six, and only indices
/// below the vertex count.
pub proof fn lemma_mesh_shape(m: MeshView)
    requires
        m.well_formed(),
    ensures
        m.uvs.len() == m.positions.len() && m.normals.len() == m.positions.len()
            && m.colors.len() == m.positions.len(),
        m.positions.len() % 4 == 0,
        m.indices.len() % 6 == 0,
        forall|j: int| 0 <= j < m.indices.len() ==> m.indices[j] < m.vertex_count(),
{
    let q = m.positions.len() / 4;
    assert((q * 6) % 6 == 0) by (nonlinear_arith);
}

impl View for MeshBuffer {
    type V = MeshView;

    open spec fn view(&self) -> MeshView {
        MeshView {
            positions: self.positions@,
            uvs: self.uvs@,
            normals: self.normals@,
            colors: self.colors@,
            indices: self.indices@,
        }
    }
}

impl MeshBuffer {
    pub fn new() -> (r: MeshBuffer)
        ensures
            r@ == MeshView::empty(),
            r@.well_formed(),
    {
        let r = MeshBuffer {
            positions: Vec::new(),
            uvs: Vec::new(),
            normals: Vec::new(),
            colors: Vec::new(),
            indices: Vec::new(),
        };
        assert(r@ == MeshView::empty());
        r
    }

    /// Empties every array; each keeps its allocation.
    pub fn clear(&mut self)
        ensures
            final(self)@ == MeshView::empty(),
    {
        self.positions.clear();
        self.uvs.clear();
        self.normals.clear();
        self.colors.clear();
        self.indices.clear();
        assert(self@ == MeshView::empty());
    }

    /// Appends one quad's four vertices and two triangles.
    pub fn push_quad(&mut self, q: &Quad)
        requires
            old(self)@.well_formed(),
            old(self)@.vertex_count() + 4 <= u32::MAX,
        ensures
            final(self)@ == old(self)@.append_quad(*q),
            final(self)@.well_formed(),
    {
        let ghost before = self@;
        let n = self.positions.len() as u32;
        self.positions.push(q.bl);
        self.positions.push(q.br);
        self.positions.push(q.tr);
        self.positions.push(q.tl);
        self.uvs.push(q.uvs.bl);
        self.uvs.push(q.uvs.br);
        self.uvs.push(q.uvs.tr);
        self.uvs.push(q.uvs.tl);
        self.normals.push(q.normal);
        self.normals.push(q.normal);
        self.normals.push(q.normal);
        self.normals.push(q.normal);
        self.colors.push(q.color);
        self.colors.push(q.color);
        self.colors.push(q.color);
        self.colors.push(q.color);
        self.indices.push(n);
        self.indices.push(n + 1);
        self.indices.push(n + 2);
        self.indices.push(n + 2);
        self.indices.push(n + 3);
        self.indices.push(n);
        let ghost expected = before.append_quad(*q);
        assert(self@.positions =~= expected.positions);
        assert(self@.uvs =~= expected.uvs);
        assert(self@.normals =~= expected.normals);
        assert(self@.colors =~= expected.colors);
        assert(self@.indices =~= expected.indices);
        assert forall|j: int| 0 <= j < self@.indices.len() implies self@.indices[j]
            < self@.positions.len() by {
            if j < before.indices.len() {
                assert(self@.indices[j] == before.indices[j]);
            }
        }
    }
}

} // verus!

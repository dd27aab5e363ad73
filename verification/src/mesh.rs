//! The geometry of one frame.
//!
//! The tessellator hands over a list of meshes, one per clip rectangle. Only
//! the first is drawn: its vertices are converted to the GPU layout and its
//! indices, which are local to that mesh, are taken as they are. A first mesh
//! that is no triangle list over its own vertices is not drawn at all.

use vstd::prelude::*;
use crate::error::BridgeError;
use crate::vertex::{adapted, EguiVertex, PaintVertex, VertexIndex};

verus! {

/// One mesh as the interface's tessellator emits it.
#[derive(Clone, Debug, PartialEq, Eq)]
pub struct PaintMesh {
    /// Triangle list: three indices into `vertices` per triangle.
    pub indices: Vec<u32>,
    /// The vertices that `indices` refer to.
    pub vertices: Vec<PaintVertex>,
}

/// What a [`PaintMesh`] holds.
pub struct PaintMeshView {
    pub indices: Seq<u32>,
    pub vertices: Seq<PaintVertex>,
}

impl View for PaintMesh {
    type V = PaintMeshView;

    open spec fn view(&self) -> PaintMeshView {
        PaintMeshView { indices: self.indices@, vertices: self.vertices@ }
    }
}

/// The vertex and index buffers of one frame, drawn as a triangle list.
#[derive(Clone, Debug, PartialEq, Eq)]
pub struct FrameMesh {
    pub vertices: Vec<EguiVertex>,
    pub indices: Vec<VertexIndex>,
}

/// What a [`FrameMesh`] holds.
pub struct FrameMeshView {
    pub vertices: Seq<EguiVertex>,
    pub indices: Seq<VertexIndex>,
}

impl View for FrameMesh {
    type V = FrameMeshView;

    open spec fn view(&self) -> FrameMeshView {
        FrameMeshView { vertices: self.vertices@, indices: self.indices@ }
    }
}

impl PaintMeshView {
    /// Every index refers to a vertex of the mesh.
    pub open spec fn indices_in_range(self) -> bool {
        forall|i: int|
            0 <= i < self.indices.len() ==> (#[trigger] self.indices[i]) < self.vertices.len()
    }

    /// The indices come in threes, one triple per triangle.
    pub open spec fn is_triangle_list(self) -> bool {
        self.indices.len() % 3 == 0
    }

    /// The mesh is a triangle list over its own vertices.
    pub open spec fn well_formed(self) -> bool {
        self.indices_in_range() && self.is_triangle_list()
    }

    /// The frame mesh that stands for this mesh: each vertex converted, the
    /// indices unchanged.
    pub open spec fn adapted(self) -> FrameMeshView {
        FrameMeshView {
            vertices: Seq::new(self.vertices.len(), |i: int| adapted(self.vertices[i])),
            indices: self.indices,
        }
    }
}

impl FrameMeshView {
    /// Every index refers to a vertex of the mesh.
    pub open spec fn indices_in_range(self) -> bool {
        forall|i: int|
            0 <= i < self.indices.len() ==> (#[trigger] self.indices[i]) < self.vertices.len()
    }

    /// The indices come in threes, one triple per triangle.
    pub open spec fn is_triangle_list(self) -> bool {
        self.indices.len() % 3 == 0
    }

    /// The mesh is a triangle list over its own vertices.
    pub open spec fn well_formed(self) -> bool {
        self.indices_in_range() && self.is_triangle_list()
    }
}

/// What [`extract`] returns for a list of tessellated meshes: the first mesh
/// converted, or the tessellation error when there is none or when it is no
/// triangle list over its own vertices.
pub open spec fn extracted(meshes: Seq<PaintMesh>) -> Result<FrameMeshView, BridgeError> {
    if meshes.len() > 0 && meshes[0]@.well_formed() {
        Ok(meshes[0]@.adapted())
    } else {
        Err(BridgeError::UiTessellation)
    }
}

impl FrameMesh {
    /// Converts one tessellated mesh.
    pub fn from_paint(mesh: &PaintMesh) -> (frame: FrameMesh)
        ensures
            frame@ == mesh@.adapted(),
    {
        let mut vertices: Vec<EguiVertex> = Vec::new();
        let n: usize = mesh.vertices.len();
        let mut i: usize = 0;
        while i < n
            invariant
                n == mesh.vertices@.len(),
                i <= n,
                vertices@.len() == i,
                forall|k: int| 0 <= k < i ==> vertices@[k] == adapted(mesh.vertices@[k]),
            decreases n - i,
        {
            vertices.push(EguiVertex::adapt(&mesh.vertices[i]));
            i = i + 1;
        }
        let mut indices: Vec<VertexIndex> = Vec::new();
        let m: usize = mesh.indices.len();
        let mut j: usize = 0;
        while j < m
            invariant
                m == mesh.indices@.len(),
                j <= m,
                indices@.len() == j,
                forall|k: int| 0 <= k < j ==> indices@[k] == mesh.indices@[k],
            decreases m - j,
        {
            indices.push(mesh.indices[j]);
            j = j + 1;
        }
        assert(vertices@ =~= mesh@.adapted().vertices);
        assert(indices@ =~= mesh@.adapted().indices);
        FrameMesh { vertices, indices }
    }

    /// Number of vertices.
    pub fn vertex_count(&self) -> (n: usize)
        ensures
            n == self@.vertices.len(),
    {
        self.vertices.len()
    }

    /// Number of indices.
    pub fn index_count(&self) -> (n: usize)
        ensures
            n == self@.indices.len(),
    {
        self.indices.len()
    }

    /// Whether every index refers to a vertex of the mesh.
    pub fn is_valid(&self) -> (valid: bool)
        ensures
            valid == self@.indices_in_range(),
    {
        let n: usize = self.indices.len();
        let count: usize = self.vertices.len();
        let mut i: usize = 0;
        while i < n
            invariant
                n == self.indices@.len(),
                count == self.vertices@.len(),
                i <= n,
                forall|k: int| 0 <= k < i ==> (#[trigger] self.indices@[k]) < count,
            decreases n - i,
        {
            let index: VertexIndex = self.indices[i];
            if index as usize >= count {
                assert(!(self@.indices[i as int] < self@.vertices.len()));
                return false;
            }
            i = i + 1;
        }
        true
    }

    /// Whether the indices come in threes.
    pub fn is_triangle_list(&self) -> (b: bool)
        ensures
            b == self@.is_triangle_list(),
    {
        self.indices.len() % 3 == 0
    }

    /// Whether the mesh is a triangle list over its own vertices.
    pub fn is_well_formed(&self) -> (b: bool)
        ensures
            b == self@.well_formed(),
    {
        self.is_triangle_list() && self.is_valid()
    }
}

/// Takes the geometry of the frame out of the tessellator's output.
///
/// Only the first mesh is taken. It is an error for the frame when the list
/// is empty, so that the interface produced nothing to draw, and when the
/// first mesh has an index beyond its vertices or indices that do not come
/// in threes, so that what it produced cannot be drawn.
pub fn extract(meshes: &Vec<PaintMesh>) -> (result: Result<FrameMesh, BridgeError>)
    ensures
        result is Ok <==> meshes@.len() > 0 && meshes@[0]@.well_formed(),
        result matches Ok(frame) ==> extracted(meshes@) == Ok::<FrameMeshView, BridgeError>(frame@),
        result matches Ok(frame) ==> frame@.well_formed(),
        result matches Err(e) ==> extracted(meshes@) == Err::<FrameMeshView, BridgeError>(e),
{
    if meshes.len() == 0 {
        return Err(BridgeError::UiTessellation);
    }
    let frame = FrameMesh::from_paint(&meshes[0]);
    proof {
        lemma_adapted_well_formed(meshes@[0]@);
    }
    if frame.is_well_formed() {
        Ok(frame)
    } else {
        Err(BridgeError::UiTessellation)
    }
}

/// Conversion keeps the indices and the number of vertices of a mesh.
pub proof fn lemma_adapted_shape(mesh: PaintMeshView)
    ensures
        mesh.adapted().indices == mesh.indices,
        mesh.adapted().vertices.len() == mesh.vertices.len(),
        forall|i: int|
            0 <= i < mesh.vertices.len() ==> mesh.adapted().vertices[i] == adapted(
                mesh.vertices[i],
            ),
{
}

/// Conversion neither makes nor mends a mesh: the frame mesh is a triangle
/// list over its own vertices exactly when the tessellated mesh is.
pub proof fn lemma_adapted_well_formed(mesh: PaintMeshView)
    ensures
        mesh.adapted().indices_in_range() == mesh.indices_in_range(),
        mesh.adapted().is_triangle_list() == mesh.is_triangle_list(),
        mesh.adapted().well_formed() == mesh.well_formed(),
{
    let frame = mesh.adapted();
    if mesh.indices_in_range() {
        assert forall|i: int| 0 <= i < frame.indices.len() implies (#[trigger] frame.indices[i])
            < frame.vertices.len() by {
            assert(mesh.indices[i] < mesh.vertices.len());
        }
    }
    if frame.indices_in_range() {
        assert forall|i: int| 0 <= i < mesh.indices.len() implies (#[trigger] mesh.indices[i])
            < mesh.vertices.len() by {
            assert(frame.indices[i] < frame.vertices.len());
        }
    }
}

/// Every frame mesh that is produced has each index below its vertex count
/// and a number of indices that is a multiple of three.
pub proof fn lemma_extracted_indices_in_range(meshes: Seq<PaintMesh>)
    ensures
        extracted(meshes) matches Ok(frame) ==> frame.indices_in_range(),
        extracted(meshes) matches Ok(frame) ==> forall|i: int|
            0 <= i < frame.indices.len() ==> (#[trigger] frame.indices[i]) < frame.vertices.len(),
        extracted(meshes) matches Ok(frame) ==> frame.indices.len() % 3 == 0,
{
    if meshes.len() > 0 {
        lemma_adapted_well_formed(meshes[0]@);
    }
}

} // verus!

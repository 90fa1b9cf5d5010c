//! Triangle meshes and the builder that merges triangle sets into one.

use vstd::prelude::*;
use crate::image::Image;
use crate::units::{Color, Point};

verus! {

/// One corner of a triangle: where it lies, where it samples the texture,
/// and its colour.
#[derive(Clone, Copy, Debug, PartialEq, Eq, Structural)]
pub struct Vertex {
    pub pos: Point,
    pub uv: Point,
    pub color: Color,
}

/// Why a triangle set was refused or a mesh could not be built.
#[derive(Clone, Copy, Debug, PartialEq, Eq, Structural)]
pub enum GeometryError {
    /// `build` was called before any triangle set had been accepted.
    Empty,
    /// An index names a vertex that the triangle set does not hold.
    IndexOutOfRange,
    /// The number of indices is not a multiple of three.
    NotTriangles,
}

/// Whether `indices` is a triangle list over `count` vertices: three indices
/// per triangle, each naming one of the vertices.
pub open spec fn triangle_list(count: nat, indices: Seq<u32>) -> bool {
    &&& indices.len() % 3 == 0
    &&& forall|i: int| 0 <= i < indices.len() ==> (#[trigger] indices[i]) < count
}

/// The verdict on a triangle set of `count` vertices: the index count is
/// looked at first, the range of the indices second.
pub open spec fn verdict(count: nat, indices: Seq<u32>) -> Result<(), GeometryError> {
    if indices.len() % 3 != 0 {
        Err(GeometryError::NotTriangles)
    } else if exists|i: int| 0 <= i < indices.len() && (#[trigger] indices[i]) >= count {
        Err(GeometryError::IndexOutOfRange)
    } else {
        Ok(())
    }
}

/// `indices` with `base` added to each.
pub open spec fn shift(indices: Seq<u32>, base: nat) -> Seq<u32> {
    Seq::new(indices.len(), |i: int| (indices[i] + base) as u32)
}

/// A triangle set as a tessellator hands it over: not yet checked.
#[derive(Debug)]
pub struct Geometry {
    pub vertices: Vec<Vertex>,
    pub indices: Vec<u32>,
}

/// What a mesh or a builder holds, as mathematical sequences.
pub struct MeshData {
    pub vertices: Seq<Vertex>,
    pub indices: Seq<u32>,
    pub texture: Option<Image>,
}

impl MeshData {
    /// The buffers after a triangle set has been merged in: its vertices
    /// follow those already held, its indices are shifted past them, and a
    /// texture that comes with it replaces the one held.
    pub open spec fn merge(
        self,
        vertices: Seq<Vertex>,
        indices: Seq<u32>,
        texture: Option<Image>,
    ) -> MeshData {
        MeshData {
            vertices: self.vertices + vertices,
            indices: self.indices + shift(indices, self.vertices.len()),
            texture: if texture is Some { texture } else { self.texture },
        }
    }

    /// The buffers of a builder that has accepted nothing yet.
    pub open spec fn empty() -> MeshData {
        MeshData { vertices: Seq::empty(), indices: Seq::empty(), texture: None }
    }
}

/// Looks through `indices` for the verdict on a set of `count` vertices.
fn inspect(count: usize, indices: &[u32]) -> (r: Result<(), GeometryError>)
    ensures
        r == verdict(count as nat, indices@),
{
    if indices.len() % 3 != 0 {
        return Err(GeometryError::NotTriangles);
    }
    let mut i: usize = 0;
    while i < indices.len()
        invariant
            i <= indices.len(),
            indices@.len() % 3 == 0,
            forall|j: int| 0 <= j < i ==> (#[trigger] indices@[j]) < count,
        decreases indices.len() - i,
    {
        if indices[i] as usize >= count {
            assert(indices@[i as int] >= count);
            return Err(GeometryError::IndexOutOfRange);
        }
        i += 1;
    }
    Ok(())
}

/// Copies `src` to the end of `dst`.
fn extend_vertices(dst: &mut Vec<Vertex>, src: &[Vertex])
    ensures
        final(dst)@ == old(dst)@ + src@,
{
    let mut i: usize = 0;
    while i < src.len()
        invariant
            i <= src.len(),
            dst@ == old(dst)@ + src@.subrange(0, i as int),
        decreases src.len() - i,
    {
        dst.push(src[i]);
        i += 1;
    }
    assert(src@.subrange(0, src@.len() as int) == src@);
}

/// Copies `src`, each index raised by `base`, to the end of `dst`.
fn extend_shifted(dst: &mut Vec<u32>, src: &[u32], base: u32)
    requires
        forall|j: int| 0 <= j < src@.len() ==> (#[trigger] src@[j]) + base <= u32::MAX,
    ensures
        final(dst)@ == old(dst)@ + shift(src@, base as nat),
{
    let mut i: usize = 0;
    while i < src.len()
        invariant
            i <= src.len(),
            forall|j: int| 0 <= j < src@.len() ==> (#[trigger] src@[j]) + base <= u32::MAX,
            dst@ == old(dst)@ + shift(src@, base as nat).subrange(0, i as int),
        decreases src.len() - i,
    {
        dst.push(src[i] + base);
        i += 1;
    }
    assert(shift(src@, base as nat).subrange(0, src@.len() as int) == shift(src@, base as nat));
}

/// Accumulates triangle sets and merges them into the buffers of one mesh.
#[derive(Debug)]
pub struct MeshBuilder {
    vertices: Vec<Vertex>,
    indices: Vec<u32>,
    texture: Option<Image>,
    untouched: bool,
}

impl View for MeshBuilder {
    type V = MeshData;

    closed spec fn view(&self) -> MeshData {
        MeshData { vertices: self.vertices@, indices: self.indices@, texture: self.texture }
    }
}

impl MeshBuilder {
    #[verifier::type_invariant]
    spec fn well_formed(self) -> bool {
        &&& triangle_list(self.vertices@.len(), self.indices@)
        &&& self.vertices@.len() <= u32::MAX
        &&& self.untouched ==> self@ == MeshData::empty()
    }

    /// Whether no triangle set has been accepted so far. A set without any
    /// vertex or index still counts once it has been accepted.
    pub closed spec fn spec_is_empty(&self) -> bool {
        self.untouched
    }

    /// Whether no triangle set has been accepted so far.
    #[verifier::when_used_as_spec(spec_is_empty)]
    pub fn is_empty(&self) -> (empty: bool)
        ensures
            empty == self.spec_is_empty(),
            empty ==> self@ == MeshData::empty(),
    {
        proof {
            use_type_invariant(self);
        }
        self.untouched
    }

    /// A builder that has accepted nothing.
    pub fn new() -> (builder: MeshBuilder)
        ensures
            builder.is_empty(),
            builder@ == MeshData::empty(),
    {
        MeshBuilder { vertices: Vec::new(), indices: Vec::new(), texture: None, untouched: true }
    }

    /// The number of vertices accumulated so far.
    pub fn vertex_count(&self) -> (n: usize)
        ensures
            n == self@.vertices.len(),
            n <= u32::MAX,
    {
        proof {
            use_type_invariant(self);
        }
        self.vertices.len()
    }

    /// Merges a triangle set in, verbatim: the vertices as they are, the
    /// indices shifted past the vertices already held. A texture that comes
    /// with the set becomes the texture of the whole mesh.
    ///
    /// A set that is refused leaves the builder as it was.
    pub fn raw(&mut self, vertices: &[Vertex], indices: &[u32], texture: Option<Image>) -> (r:
        Result<(), GeometryError>)
        requires
            old(self)@.vertices.len() + vertices@.len() <= u32::MAX,
        ensures
            r == verdict(vertices@.len(), indices@),
            r is Ok ==> !final(self).is_empty() && final(self)@ == old(self)@.merge(
                vertices@,
                indices@,
                texture,
            ),
            r is Err ==> final(self).is_empty() == old(self).is_empty() && final(self)@ == old(
                self,
            )@,
    {
        proof {
            use_type_invariant(&*self);
        }
        let checked = inspect(vertices.len(), indices);
        if checked.is_err() {
            return checked;
        }
        let base = self.vertices.len() as u32;
        let mut held_indices: Vec<u32> = Vec::new();
        std::mem::swap(&mut held_indices, &mut self.indices);
        let mut held_vertices: Vec<Vertex> = Vec::new();
        std::mem::swap(&mut held_vertices, &mut self.vertices);
        self.untouched = false;
        extend_vertices(&mut held_vertices, vertices);
        extend_shifted(&mut held_indices, indices, base);
        self.vertices = held_vertices;
        self.indices = held_indices;
        if texture.is_some() {
            self.texture = texture;
        }
        Ok(())
    }

    /// Merges in a triangle set that a tessellator produced for one
    /// primitive. It brings no texture, so the texture held stays.
    pub fn append(&mut self, piece: &Geometry) -> (r: Result<(), GeometryError>)
        requires
            old(self)@.vertices.len() + piece.vertices@.len() <= u32::MAX,
        ensures
            r == verdict(piece.vertices@.len(), piece.indices@),
            r is Ok ==> !final(self).is_empty() && final(self)@ == old(self)@.merge(
                piece.vertices@,
                piece.indices@,
                None,
            ),
            r is Err ==> final(self).is_empty() == old(self).is_empty() && final(self)@ == old(
                self,
            )@,
    {
        self.raw(piece.vertices.as_slice(), piece.indices.as_slice(), None)
    }

    /// Ends the accumulation and hands the buffers over as a mesh. A builder
    /// that has accepted nothing has no mesh to give.
    pub fn build(self) -> (r: Result<Mesh, GeometryError>)
        ensures
            match r {
                Ok(mesh) => !self.is_empty() && mesh@ == self@ && triangle_list(
                    mesh@.vertices.len(),
                    mesh@.indices,
                ),
                Err(e) => self.is_empty() && e == GeometryError::Empty,
            },
    {
        proof {
            use_type_invariant(&self);
        }
        if self.untouched {
            return Err(GeometryError::Empty);
        }
        Ok(Mesh { vertices: self.vertices, indices: self.indices, texture: self.texture })
    }
}

/// A finished mesh: a triangle list, its vertices, and the image that
/// textures it, if any. Every index names a vertex of the mesh and the
/// indices come in threes; no operation changes a mesh once it is built.
#[derive(Debug)]
pub struct Mesh {
    vertices: Vec<Vertex>,
    indices: Vec<u32>,
    texture: Option<Image>,
}

impl View for Mesh {
    type V = MeshData;

    closed spec fn view(&self) -> MeshData {
        MeshData { vertices: self.vertices@, indices: self.indices@, texture: self.texture }
    }
}

impl Mesh {
    #[verifier::type_invariant]
    spec fn well_formed(self) -> bool {
        &&& triangle_list(self.vertices@.len(), self.indices@)
        &&& self.vertices@.len() <= u32::MAX
    }

    /// The vertices, in the order in which they were accumulated.
    pub fn vertices(&self) -> (vertices: &Vec<Vertex>)
        ensures
            vertices@ == self@.vertices,
            triangle_list(vertices@.len(), self@.indices),
    {
        proof {
            use_type_invariant(self);
        }
        &self.vertices
    }

    /// The indices, three to a triangle.
    pub fn indices(&self) -> (indices: &Vec<u32>)
        ensures
            indices@ == self@.indices,
            triangle_list(self@.vertices.len(), indices@),
    {
        proof {
            use_type_invariant(self);
        }
        &self.indices
    }

    /// The image that textures the mesh, if one was supplied.
    pub fn texture(&self) -> (texture: Option<Image>)
        ensures
            texture == self@.texture,
    {
        self.texture
    }

    /// The number of vertices.
    pub fn vertex_count(&self) -> (n: usize)
        ensures
            n == self@.vertices.len(),
            n <= u32::MAX,
    {
        proof {
            use_type_invariant(self);
        }
        self.vertices.len()
    }

    /// The number of indices: always a multiple of three.
    pub fn index_count(&self) -> (n: usize)
        ensures
            n == self@.indices.len(),
            n % 3 == 0,
    {
        proof {
            use_type_invariant(self);
        }
        self.indices.len()
    }

    /// The number of triangles.
    pub fn triangle_count(&self) -> (n: usize)
        ensures
            n * 3 == self@.indices.len(),
    {
        proof {
            use_type_invariant(self);
        }
        self.indices.len() / 3
    }

    /// The three corners of triangle `t`, each the position of a vertex in
    /// the vertex list.
    pub fn triangle(&self, t: usize) -> (corners: (u32, u32, u32))
        requires
            t * 3 < self@.indices.len(),
        ensures
            corners.0 == self@.indices[t * 3],
            corners.1 == self@.indices[t * 3 + 1],
            corners.2 == self@.indices[t * 3 + 2],
            corners.0 < self@.vertices.len(),
            corners.1 < self@.vertices.len(),
            corners.2 < self@.vertices.len(),
    {
        proof {
            use_type_invariant(self);
        }
        let count = self.indices.len();
        assert(t * 3 + 2 < count);
        let at = t * 3;
        (self.indices[at], self.indices[at + 1], self.indices[at + 2])
    }
}

/// The mesh invariant is kept by every merge: where the buffers held are a
/// triangle list, the set merged in is accepted, and a 32-bit index can
/// still name every vertex, the merged buffers are a triangle list again.
pub proof fn lemma_merge_keeps_triangle_list(
    held: MeshData,
    vertices: Seq<Vertex>,
    indices: Seq<u32>,
    texture: Option<Image>,
)
    requires
        triangle_list(held.vertices.len(), held.indices),
        verdict(vertices.len(), indices) is Ok,
        held.vertices.len() + vertices.len() <= u32::MAX,
    ensures
        triangle_list(
            held.merge(vertices, indices, texture).vertices.len(),
            held.merge(vertices, indices, texture).indices,
        ),
{
    let merged = held.merge(vertices, indices, texture);
    assert forall|i: int| 0 <= i < merged.indices.len() implies (#[trigger] merged.indices[i])
        < merged.vertices.len() by {
        if i >= held.indices.len() {
            let j = i - held.indices.len();
            assert(indices[j] < vertices.len());
            assert(merged.indices[i] == shift(indices, held.vertices.len())[j]);
        } else {
            assert(merged.indices[i] == held.indices[i]);
        }
    }
}

} // verus!

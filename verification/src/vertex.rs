//! Vertex records and their packed layout.
//!
//! A vertex carries a position, a normal and a texture coordinate. The
//! scalar type is a parameter: nothing here computes with coordinates, they
//! are only moved from the arrays a model file yields into vertex records,
//! and from vertex records into the flat buffer that a vertex array reads.

use vstd::prelude::*;

verus! {

/// Scalars in one vertex: three for the position, three for the normal and
/// two for the texture coordinate.
pub const VERTEX_COMPONENTS: usize = 8;

/// Bytes of one scalar in a vertex buffer.
pub const COMPONENT_BYTES: usize = 4;

/// Bytes of one packed vertex.
pub const VERTEX_BYTES: usize = 32;

/// One corner of a surface.
#[derive(Debug, Clone, Copy)]
pub struct Vertex<T> {
    pub position: [T; 3],
    pub normal: [T; 3],
    pub tex_coords: [T; 2],
}

impl<T> Vertex<T> {
    /// The eight scalars of the vertex in buffer order.
    pub open spec fn components(self) -> Seq<T> {
        self.position@ + self.normal@ + self.tex_coords@
    }
}

/// Where a vertex array finds one attribute of a vertex in a packed buffer.
#[derive(Debug, Clone, Copy, PartialEq, Eq, Structural)]
pub struct VertexAttribute {
    /// The attribute's location in the vertex shader.
    pub index: u32,
    /// Number of scalars of the attribute.
    pub components: i32,
    /// Bytes from one vertex to the next.
    pub stride: i32,
    /// Bytes from the start of a vertex to the attribute.
    pub offset: usize,
}

/// The attributes of a packed vertex: position, normal, texture coordinate.
pub open spec fn attribute_layout() -> Seq<VertexAttribute> {
    seq![
        VertexAttribute { index: 0, components: 3, stride: 32, offset: 0 },
        VertexAttribute { index: 1, components: 3, stride: 32, offset: 12 },
        VertexAttribute { index: 2, components: 2, stride: 32, offset: 24 },
    ]
}

/// The attributes of a packed vertex, as a vertex array is told them.
pub fn vertex_attributes() -> (attributes: Vec<VertexAttribute>)
    ensures
        attributes@ == attribute_layout(),
{
    let mut attributes: Vec<VertexAttribute> = Vec::new();
    attributes.push(VertexAttribute { index: 0, components: 3, stride: 32, offset: 0 });
    attributes.push(VertexAttribute { index: 1, components: 3, stride: 32, offset: 12 });
    attributes.push(VertexAttribute { index: 2, components: 2, stride: 32, offset: 24 });
    assert(attributes@ =~= attribute_layout());
    attributes
}

/// The attributes tile a vertex: the first starts at byte 0, each starts
/// where the one before it ends, the last ends where the next vertex
/// begins, and together they hold the eight scalars of a vertex.
pub proof fn attributes_are_tight()
    ensures
        attribute_layout()[0].offset == 0,
        forall|k: int|
            0 <= k < attribute_layout().len() - 1 ==> (#[trigger] attribute_layout()[k + 1]).offset
                == attribute_layout()[k].offset + attribute_layout()[k].components
                * COMPONENT_BYTES,
        attribute_layout().last().offset + attribute_layout().last().components * COMPONENT_BYTES
            == VERTEX_BYTES,
        forall|k: int|
            0 <= k < attribute_layout().len() ==> (#[trigger] attribute_layout()[k]).stride
                == VERTEX_BYTES,
        attribute_layout()[0].components + attribute_layout()[1].components
            + attribute_layout()[2].components == VERTEX_COMPONENTS,
        VERTEX_BYTES == VERTEX_COMPONENTS * COMPONENT_BYTES,
{
}

/// Whether `v` is the vertex that the flat arrays hold at index `i`: its
/// position and normal are the `i`-th triples of `positions` and `normals`,
/// its texture coordinate the `i`-th pair of `texcoords`.
pub open spec fn is_vertex_at<T>(
    v: Vertex<T>,
    positions: Seq<T>,
    normals: Seq<T>,
    texcoords: Seq<T>,
    i: int,
) -> bool {
    &&& v.position@ =~= positions.subrange(3 * i, 3 * i + 3)
    &&& v.normal@ =~= normals.subrange(3 * i, 3 * i + 3)
    &&& v.tex_coords@ =~= texcoords.subrange(2 * i, 2 * i + 2)
}

/// Number of vertices that a flat position array of length `len` holds.
pub open spec fn vertex_count(len: int) -> int {
    len / 3
}

/// Whether the three flat arrays can be zipped: the normals and texture
/// coordinates reach as far as the positions do.
pub open spec fn zippable(positions: int, normals: int, texcoords: int) -> bool {
    &&& 3 * vertex_count(positions) <= normals
    &&& 2 * vertex_count(positions) <= texcoords
}

/// Tests `zippable` on the lengths of three arrays.
pub fn can_zip(positions: usize, normals: usize, texcoords: usize) -> (ok: bool)
    ensures
        ok == zippable(positions as int, normals as int, texcoords as int),
{
    let count: usize = positions / 3;
    count <= normals / 3 && count <= texcoords / 2
}

/// Rebuilds vertex records from flat arrays, index by index.
///
/// Trailing scalars that do not fill a whole position triple are ignored,
/// and so is whatever `normals` and `texcoords` hold beyond the last vertex.
pub fn zip_vertices<T: Copy>(positions: &[T], normals: &[T], texcoords: &[T]) -> (vertices: Vec<
    Vertex<T>,
>)
    requires
        zippable(positions.len() as int, normals.len() as int, texcoords.len() as int),
    ensures
        vertices.len() == vertex_count(positions.len() as int),
        forall|i: int|
            0 <= i < vertices.len() ==> is_vertex_at(
                #[trigger] vertices[i],
                positions@,
                normals@,
                texcoords@,
                i,
            ),
{
    let len: usize = positions.len() / 3;
    let mut vertices: Vec<Vertex<T>> = Vec::with_capacity(len);
    let mut i: usize = 0;
    while i < len
        invariant
            len == positions.len() / 3,
            3 * len <= normals.len(),
            2 * len <= texcoords.len(),
            i <= len,
            vertices.len() == i,
            forall|k: int|
                0 <= k < i ==> is_vertex_at(
                    #[trigger] vertices[k],
                    positions@,
                    normals@,
                    texcoords@,
                    k,
                ),
        decreases len - i,
    {
        let v = Vertex {
            position: [positions[3 * i], positions[3 * i + 1], positions[3 * i + 2]],
            normal: [normals[3 * i], normals[3 * i + 1], normals[3 * i + 2]],
            tex_coords: [texcoords[2 * i], texcoords[2 * i + 1]],
        };
        proof {
            assert(v.position@.len() == 3 && v.normal@.len() == 3 && v.tex_coords@.len() == 2);
            assert(v.position@[0] == positions@[3 * i] && v.position@[1] == positions@[3 * i + 1]
                && v.position@[2] == positions@[3 * i + 2]);
            assert(v.normal@[0] == normals@[3 * i] && v.normal@[1] == normals@[3 * i + 1]
                && v.normal@[2] == normals@[3 * i + 2]);
            assert(v.tex_coords@[0] == texcoords@[2 * i] && v.tex_coords@[1] == texcoords@[2 * i
                + 1]);
            assert(is_vertex_at(v, positions@, normals@, texcoords@, i as int));
        }
        vertices.push(v);
        i += 1;
    }
    vertices
}

/// The flat buffer that `vertices` pack into: the components of each vertex
/// in turn, with nothing between them.
pub open spec fn packed<T>(vertices: Seq<Vertex<T>>) -> Seq<T>
    decreases vertices.len(),
{
    if vertices.len() == 0 {
        Seq::empty()
    } else {
        packed(vertices.drop_last()) + vertices.last().components()
    }
}

/// A packed buffer holds eight scalars for each vertex, and scalar `k` of
/// vertex `i` stands at index `8 * i + k`.
pub proof fn packed_is_tight<T>(vertices: Seq<Vertex<T>>)
    ensures
        packed(vertices).len() == VERTEX_COMPONENTS * vertices.len(),
        forall|i: int, k: int|
            0 <= i < vertices.len() && 0 <= k < VERTEX_COMPONENTS ==> packed(vertices)[8 * i + k]
                == #[trigger] vertices[i].components()[k],
    decreases vertices.len(),
{
    if vertices.len() > 0 {
        packed_is_tight(vertices.drop_last());
        let head = vertices.drop_last();
        assert forall|i: int, k: int|
            0 <= i < vertices.len() && 0 <= k < VERTEX_COMPONENTS implies packed(vertices)[8 * i
                + k] == #[trigger] vertices[i].components()[k] by {
            if i < head.len() {
                assert(head[i] == vertices[i]);
                assert(head[i].components()[k] == packed(head)[8 * i + k]);
            }
        }
    }
}

/// Flattens vertex records into the buffer a vertex array reads.
pub fn pack_vertices<T: Copy>(vertices: &[Vertex<T>]) -> (buffer: Vec<T>)
    ensures
        buffer@ == packed(vertices@),
{
    let mut buffer: Vec<T> = Vec::new();
    let mut i: usize = 0;
    while i < vertices.len()
        invariant
            i <= vertices.len(),
            buffer@ == packed(vertices@.take(i as int)),
        decreases vertices.len() - i,
    {
        let v = vertices[i];
        buffer.push(v.position[0]);
        buffer.push(v.position[1]);
        buffer.push(v.position[2]);
        buffer.push(v.normal[0]);
        buffer.push(v.normal[1]);
        buffer.push(v.normal[2]);
        buffer.push(v.tex_coords[0]);
        buffer.push(v.tex_coords[1]);
        proof {
            let next = vertices@.take(i + 1);
            assert(next.drop_last() == vertices@.take(i as int));
            assert(next.last() == v);
            assert(v.components() == seq![
                v.position[0],
                v.position[1],
                v.position[2],
                v.normal[0],
                v.normal[1],
                v.normal[2],
                v.tex_coords[0],
                v.tex_coords[1],
            ]);
        }
        i += 1;
    }
    assert(vertices@.take(vertices.len() as int) == vertices@);
    buffer
}

} // verus!

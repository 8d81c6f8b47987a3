//! Meshes: one drawable surface each, with the textures of its material.
//!
//! A mesh keeps its geometry and the names of the GPU objects that hold it.
//! Uploading and drawing are planned here and carried out by the caller.

use vstd::layout::size_of;
use vstd::prelude::*;
use vstd::string::StringExecFns;

use crate::shader::Shader;
use crate::text::{decimal, decimal_is_injective, push_decimal};
use crate::texture::{Texture, TextureType};
use crate::vertex::{
    attribute_layout,
    packed,
    packed_is_tight,
    vertex_attributes,
    Vertex,
    VertexAttribute,
    COMPONENT_BYTES,
    VERTEX_BYTES,
};

verus! {

/// Bytes of one index of an index buffer.
pub const INDEX_BYTES: usize = 4;

/// The objects that the driver made for one mesh: a vertex array, a vertex
/// buffer and an index buffer.
#[derive(Debug, Clone, Copy, PartialEq, Eq, Structural)]
pub struct MeshBuffers {
    pub vao: u32,
    pub vbo: u32,
    pub ebo: u32,
}

/// How the geometry of a mesh is uploaded: the packed vertices go to the
/// vertex buffer, the indices to the index buffer, both for static drawing,
/// and the vertex array is told where the attributes are.
#[derive(Debug)]
pub struct MeshUpload {
    pub buffers: MeshBuffers,
    /// Bytes of the packed vertices.
    pub vertex_bytes: isize,
    /// Bytes of the indices.
    pub index_bytes: isize,
    pub attributes: Vec<VertexAttribute>,
}

/// One texture of a mesh, as a draw binds it: the texture goes to texture
/// unit `unit`, and the sampler uniform `uniform` is set to that unit.
#[derive(Debug)]
pub struct TextureBinding {
    pub unit: u32,
    pub uniform: String,
    pub texture: u32,
}

/// One indexed draw of triangles: with `program` in use, the bindings are
/// made in order, texture unit `active_after` is made the active one, and
/// `count` indices of `vao` are drawn, `instances` times where it is given.
#[derive(Debug)]
pub struct DrawCall {
    pub program: u32,
    pub bindings: Vec<TextureBinding>,
    /// The texture unit that is left active.
    pub active_after: u32,
    pub vao: u32,
    pub count: i32,
    pub instances: Option<i32>,
}

/// One drawable surface.
#[derive(Debug)]
pub struct Mesh<T> {
    pub verticies: Vec<Vertex<T>>,
    pub indices: Vec<u32>,
    pub textures: Vec<Texture>,
    pub buffers: MeshBuffers,
}

/// How often `kind` occurs among the first `n` of `textures`.
pub open spec fn kind_count(textures: Seq<Texture>, kind: TextureType, n: int) -> nat
    decreases n,
{
    if n <= 0 {
        0
    } else {
        kind_count(textures, kind, n - 1) + if textures[n - 1].type_ == kind {
            1nat
        } else {
            0nat
        }
    }
}

/// What the sampler uniforms of a kind are called, before their number.
pub open spec fn uniform_stem(kind: TextureType) -> Seq<char> {
    match kind {
        TextureType::Diffuse => "material.texture_diffuse"@,
        TextureType::Specular => "material.texture_specular"@,
    }
}

/// The sampler uniform of texture `i`: the stem of its kind, then its
/// number among the textures of that kind, counted from 1.
pub open spec fn uniform_name(textures: Seq<Texture>, i: int) -> Seq<char> {
    uniform_stem(textures[i].type_) + decimal(kind_count(textures, textures[i].type_, i + 1))
}

/// Whether `binding` is the binding of texture `i`.
pub open spec fn is_binding_of(binding: TextureBinding, textures: Seq<Texture>, i: int) -> bool {
    &&& binding.unit == i
    &&& binding.uniform@ == uniform_name(textures, i)
    &&& binding.texture == textures[i].id
}

/// Whether `bindings` bind `textures`, each to the unit of its position.
pub open spec fn binds(bindings: Seq<TextureBinding>, textures: Seq<Texture>) -> bool {
    &&& bindings.len() == textures.len()
    &&& forall|i: int| 0 <= i < bindings.len() ==> is_binding_of(#[trigger] bindings[i], textures, i)
}

/// Counting further never counts less.
proof fn kind_count_grows(textures: Seq<Texture>, kind: TextureType, m: int, n: int)
    requires
        m <= n,
    ensures
        kind_count(textures, kind, m) <= kind_count(textures, kind, n),
    decreases n - m,
{
    if m < n {
        kind_count_grows(textures, kind, m, n - 1);
    }
}

/// No two textures of a mesh are given the same sampler uniform.
pub proof fn uniform_names_are_distinct(textures: Seq<Texture>, i: int, j: int)
    requires
        0 <= i < j < textures.len(),
    ensures
        uniform_name(textures, i) != uniform_name(textures, j),
{
    let kind = textures[i].type_;
    let a = kind_count(textures, kind, i + 1);
    let b = kind_count(textures, textures[j].type_, j + 1);
    reveal_strlit("material.texture_diffuse");
    reveal_strlit("material.texture_specular");
    if textures[j].type_ == kind {
        kind_count_grows(textures, kind, i + 1, j);
        decimal_is_injective(a, b);
        let stem = uniform_stem(kind);
        if stem + decimal(a) == stem + decimal(b) {
            assert((stem + decimal(a)).subrange(stem.len() as int, (stem + decimal(a)).len() as int)
                =~= decimal(a));
            assert((stem + decimal(b)).subrange(stem.len() as int, (stem + decimal(b)).len() as int)
                =~= decimal(b));
        }
    } else {
        assert(uniform_name(textures, i)[17] != uniform_name(textures, j)[17]);
    }
}

impl<T> Mesh<T> {
    /// Whether the mesh can be drawn: the driver counts indices and texture
    /// units in `i32`.
    pub open spec fn drawable(&self) -> bool {
        &&& self.indices.len() <= i32::MAX
        &&& self.textures.len() <= i32::MAX
    }

    /// Whether `call` draws this mesh with `shader`.
    pub open spec fn is_drawn_by(&self, call: DrawCall, shader: Shader, instances: Option<i32>) -> bool {
        &&& call.program == shader.id
        &&& binds(call.bindings@, self.textures@)
        &&& call.active_after == 0
        &&& call.vao == self.buffers.vao
        &&& call.count == self.indices.len()
        &&& call.instances == instances
    }

    /// Makes a mesh of geometry, textures and the GPU objects that are to
    /// hold it, and plans the upload.
    ///
    /// A vertex must pack into 32 bytes, that is, its scalars have four
    /// bytes each. The buffers' sizes in bytes must fit the driver's signed
    /// size type.
    pub fn new(
        verticies: Vec<Vertex<T>>,
        indices: Vec<u32>,
        textures: Vec<Texture>,
        buffers: MeshBuffers,
    ) -> (made: (Self, MeshUpload))
        requires
            size_of::<T>() == COMPONENT_BYTES,
            verticies.len() * VERTEX_BYTES <= isize::MAX,
            indices.len() * INDEX_BYTES <= isize::MAX,
        ensures
            made.0.verticies == verticies,
            made.0.indices == indices,
            made.0.textures == textures,
            made.0.buffers == buffers,
            made.1.buffers == buffers,
            made.1.vertex_bytes == packed(verticies@).len() * size_of::<T>(),
            made.1.vertex_bytes == verticies.len() * VERTEX_BYTES,
            made.1.index_bytes == indices.len() * INDEX_BYTES,
            made.1.attributes@ == attribute_layout(),
    {
        proof {
            packed_is_tight(verticies@);
        }
        let upload = MeshUpload {
            buffers,
            vertex_bytes: (verticies.len() * VERTEX_BYTES) as isize,
            index_bytes: (indices.len() * INDEX_BYTES) as isize,
            attributes: vertex_attributes(),
        };
        let mesh = Mesh {
            verticies,
            indices,
            textures,
            buffers,
        };
        (mesh, upload)
    }

    /// Binds each texture to the texture unit of its position, and names the
    /// sampler uniform that is set to that unit.
    pub fn texture_bindings(&self) -> (bindings: Vec<TextureBinding>)
        requires
            self.textures.len() <= i32::MAX,
        ensures
            binds(bindings@, self.textures@),
    {
        let mut bindings: Vec<TextureBinding> = Vec::new();
        let mut diffuse_num: u32 = 0;
        let mut specular_num: u32 = 0;
        let mut i: usize = 0;
        while i < self.textures.len()
            invariant
                self.textures.len() <= i32::MAX,
                i <= self.textures.len(),
                diffuse_num == kind_count(self.textures@, TextureType::Diffuse, i as int),
                specular_num == kind_count(self.textures@, TextureType::Specular, i as int),
                diffuse_num <= i,
                specular_num <= i,
                bindings.len() == i,
                forall|k: int|
                    0 <= k < i ==> is_binding_of(#[trigger] bindings[k], self.textures@, k),
            decreases self.textures.len() - i,
        {
            let texture = self.textures[i];
            let uniform = match texture.type_ {
                TextureType::Diffuse => {
                    diffuse_num += 1;
                    let mut name = String::from_str("material.texture_diffuse");
                    push_decimal(&mut name, diffuse_num);
                    name
                },
                TextureType::Specular => {
                    specular_num += 1;
                    let mut name = String::from_str("material.texture_specular");
                    push_decimal(&mut name, specular_num);
                    name
                },
            };
            bindings.push(TextureBinding { unit: i as u32, uniform, texture: texture.id });
            i += 1;
        }
        bindings
    }

    /// Plans one draw of the mesh with `shader`.
    pub fn draw(&self, shader: Shader) -> (call: DrawCall)
        requires
            self.drawable(),
        ensures
            self.is_drawn_by(call, shader, None),
    {
        DrawCall {
            program: shader.id,
            bindings: self.texture_bindings(),
            active_after: 0,
            vao: self.buffers.vao,
            count: self.indices.len() as i32,
            instances: None,
        }
    }

    /// Plans one draw of `amount` instances of the mesh with `shader`.
    pub fn draw_instanced(&self, shader: Shader, amount: i32) -> (call: DrawCall)
        requires
            self.drawable(),
        ensures
            self.is_drawn_by(call, shader, Some(amount)),
    {
        DrawCall {
            program: shader.id,
            bindings: self.texture_bindings(),
            active_after: 0,
            vao: self.buffers.vao,
            count: self.indices.len() as i32,
            instances: Some(amount),
        }
    }

    /// The vertex array of the mesh.
    pub fn vao(&self) -> (vao: u32)
        ensures
            vao == self.buffers.vao,
    {
        self.buffers.vao
    }
}

} // verus!

//! The logic of a small OpenGL toolkit: shader builds, texture uploads,
//! meshes and models, and the decisions of a first-person camera.
//!
//! Nothing here talks to a driver, a window or a file. Every function takes
//! what was read and returns what is to be done, so that all of it can be
//! stated and proved.

pub mod camera;
pub mod mesh;
pub mod model;
pub mod shader;
pub mod text;
pub mod texture;
pub mod vertex;

pub use camera::{
    accepts_scroll, clamp_fov, clamp_pitch, process_mouse, CursorGuard, Input, Keys, Movement,
    Update,
};
pub use mesh::{DrawCall, Mesh, MeshBuffers, MeshUpload, TextureBinding};
pub use model::{
    Fault, LoadError, MeshPlan, Model, ModelPlan, ObjMaterial, ObjMesh, TextureRequest,
};
pub use shader::{
    CreateShaderError, Phase, Reply, Request, Shader, ShaderBuilder, ShaderStage, StageSource,
    UniformLocation,
};
pub use texture::{
    load_cubemap, load_texture, CubeFace, CubemapUpload, FaceUpload, Filter, ImageInfo,
    PixelFormat, Texture, TextureError, TextureType, TextureUpload, WrapMode,
};
pub use vertex::{pack_vertices, vertex_attributes, zip_vertices, Vertex, VertexAttribute};

//! Models: the meshes of one model file, in the file's order.
//!
//! Reading the file, decoding images and talking to the driver are the
//! caller's business. Loading is planned in two steps. `Model::load_obj`
//! turns what was parsed into a plan: the vertices of every mesh, and the
//! textures to upload, each path once. When the caller has uploaded those
//! and obtained buffers for the meshes, `ModelPlan::build` makes the model.

use vstd::layout::size_of;
use vstd::prelude::*;

use crate::mesh::{DrawCall, Mesh, MeshBuffers, MeshUpload, INDEX_BYTES};
use crate::shader::Shader;
use crate::texture::{Texture, TextureType};
use crate::vertex::{
    attribute_layout,
    can_zip,
    is_vertex_at,
    vertex_count,
    zip_vertices,
    zippable,
    Vertex,
    COMPONENT_BYTES,
    VERTEX_BYTES,
};

verus! {

/// One surface as a model file holds it: flat arrays of positions (three
/// scalars each), normals (three) and texture coordinates (two), the
/// indices of its triangles, and its material, if it has one.
#[derive(Debug)]
pub struct ObjMesh<T> {
    pub positions: Vec<T>,
    pub normals: Vec<T>,
    pub texcoords: Vec<T>,
    pub indices: Vec<u32>,
    pub material_id: Option<usize>,
}

/// The texture files that a material names, relative to the model file. An
/// empty name means that the material has no such texture.
#[derive(Debug)]
pub struct ObjMaterial {
    pub diffuse_texture: String,
    pub specular_texture: String,
}

/// A texture file to decode and upload, and the kind of texture it becomes.
#[derive(Debug)]
pub struct TextureRequest {
    pub path: String,
    pub type_: TextureType,
}

/// What can be wrong with a mesh of a model file.
#[derive(Debug, Clone, Copy, PartialEq, Eq, Structural)]
pub enum Fault {
    /// The normals or the texture coordinates end before the positions do.
    MisalignedAttributes,
    /// The mesh names a material that the file does not have.
    UnknownMaterial,
    /// The vertices or the indices take more bytes than the driver can be told.
    TooLarge,
}

/// Why a model cannot be loaded: the first mesh that is at fault.
#[derive(Debug, Clone, Copy, PartialEq, Eq, Structural)]
pub struct LoadError {
    pub mesh: usize,
    pub fault: Fault,
}

/// One mesh of a plan: its geometry, and for each texture of its material
/// the position of that texture's request in the plan.
#[derive(Debug)]
pub struct MeshPlan<T> {
    pub verticies: Vec<Vertex<T>>,
    pub indices: Vec<u32>,
    pub slots: Vec<usize>,
}

/// A model that waits for its textures and buffers.
#[derive(Debug)]
pub struct ModelPlan<T> {
    pub requests: Vec<TextureRequest>,
    pub meshes: Vec<MeshPlan<T>>,
}

/// The meshes of one model file.
#[derive(Debug)]
pub struct Model<T> {
    pub meshes: Vec<Mesh<T>>,
}

/// The path of the file called `file` beside the file at `base`, as
/// `std::path::Path::with_file_name` forms it.
pub uninterp spec fn sibling_path(base: Seq<char>, file: Seq<char>) -> Seq<char>;

/// `std::path::Path::with_file_name`, on paths that are text.
///
/// The path that comes back depends on the two arguments alone. What it is
/// is left to the standard library: the base without its last component,
/// then `file`.
#[verifier::external_body]
fn with_file_name(base: &str, file: &str) -> (path: String)
    ensures
        path@ == sibling_path(base@, file@),
{
    std::path::Path::new(base).with_file_name(file).to_string_lossy().into_owned()
}

/// The first thing that is wrong with `mesh`, if anything is.
pub open spec fn fault_of<T>(mesh: ObjMesh<T>, materials: int) -> Option<Fault> {
    if !zippable(
        mesh.positions.len() as int,
        mesh.normals.len() as int,
        mesh.texcoords.len() as int,
    ) {
        Some(Fault::MisalignedAttributes)
    } else if mesh.material_id is Some && mesh.material_id->0 >= materials {
        Some(Fault::UnknownMaterial)
    } else if vertex_count(mesh.positions.len() as int) * VERTEX_BYTES > isize::MAX
        || mesh.indices.len() * INDEX_BYTES > isize::MAX {
        Some(Fault::TooLarge)
    } else {
        None
    }
}

/// The textures that a material refers to, in the order in which a mesh
/// binds them: each a path and a kind.
pub open spec fn material_refs(name: Seq<char>, material: ObjMaterial) -> Seq<
    (Seq<char>, TextureType),
> {
    let diffuse = if material.diffuse_texture@.len() > 0 {
        seq![(sibling_path(name, material.diffuse_texture@), TextureType::Diffuse)]
    } else {
        Seq::empty()
    };
    let specular = if material.specular_texture@.len() > 0 {
        seq![(sibling_path(name, material.specular_texture@), TextureType::Specular)]
    } else {
        Seq::empty()
    };
    diffuse + specular
}

/// The textures that a mesh refers to.
pub open spec fn mesh_refs<T>(name: Seq<char>, mesh: ObjMesh<T>, materials: Seq<ObjMaterial>) -> Seq<
    (Seq<char>, TextureType),
> {
    match mesh.material_id {
        Some(id) => material_refs(name, materials[id as int]),
        None => Seq::empty(),
    }
}

/// The textures that the meshes of a file refer to, mesh after mesh.
pub open spec fn scene_refs<T>(
    name: Seq<char>,
    meshes: Seq<ObjMesh<T>>,
    materials: Seq<ObjMaterial>,
) -> Seq<(Seq<char>, TextureType)>
    decreases meshes.len(),
{
    if meshes.len() == 0 {
        Seq::empty()
    } else {
        scene_refs(name, meshes.drop_last(), materials) + mesh_refs(
            name,
            meshes.last(),
            materials,
        )
    }
}

/// Whether `requests` holds `path` at position `slot`.
pub open spec fn is_slot(requests: Seq<(Seq<char>, TextureType)>, path: Seq<char>, slot: int) -> bool {
    0 <= slot < requests.len() && requests[slot].0 == path
}

/// Whether `requests` holds `path`.
pub open spec fn requested(requests: Seq<(Seq<char>, TextureType)>, path: Seq<char>) -> bool {
    exists|slot: int| is_slot(requests, path, slot)
}

/// The requests after one more reference: a path that was requested
/// already is not requested again.
pub open spec fn with_ref(
    requests: Seq<(Seq<char>, TextureType)>,
    next: (Seq<char>, TextureType),
) -> Seq<(Seq<char>, TextureType)> {
    if requested(requests, next.0) {
        requests
    } else {
        requests.push(next)
    }
}

/// The requests that a sequence of references leads to: each path once, in
/// the order in which the paths first occur, with the kind of the first
/// reference to it.
pub open spec fn deduped(refs: Seq<(Seq<char>, TextureType)>) -> Seq<(Seq<char>, TextureType)>
    decreases refs.len(),
{
    if refs.len() == 0 {
        Seq::empty()
    } else {
        with_ref(deduped(refs.drop_last()), refs.last())
    }
}

/// Requests as paths and kinds.
pub open spec fn request_views(requests: Seq<TextureRequest>) -> Seq<(Seq<char>, TextureType)> {
    Seq::new(requests.len(), |i: int| (requests[i].path@, requests[i].type_))
}

/// Whether `slots` are the places in `requests` of the paths of `refs`.
pub open spec fn slots_match(
    slots: Seq<usize>,
    refs: Seq<(Seq<char>, TextureType)>,
    requests: Seq<(Seq<char>, TextureType)>,
) -> bool {
    &&& slots.len() == refs.len()
    &&& forall|j: int| 0 <= j < slots.len() ==> is_slot(requests, refs[j].0, #[trigger] slots[j] as int)
}

/// Finds the request for `path`, or adds one of kind `kind`.
fn find_or_add(requests: &mut Vec<TextureRequest>, path: String, kind: TextureType) -> (slot:
    usize)
    ensures
        request_views(final(requests)@) == with_ref(request_views(old(requests)@), (path@, kind)),
        is_slot(request_views(final(requests)@), path@, slot as int),
{
    let ghost before = request_views(requests@);
    let mut i: usize = 0;
    while i < requests.len()
        invariant
            i <= requests.len(),
            requests@ == old(requests)@,
            before == request_views(requests@),
            forall|k: int| 0 <= k < i ==> !is_slot(before, path@, k),
        decreases requests.len() - i,
    {
        if requests[i].path == path {
            assert(is_slot(before, path@, i as int));
            return i;
        }
        i += 1;
    }
    assert(!requested(before, path@));
    requests.push(TextureRequest { path, type_: kind });
    assert(request_views(requests@) =~= before.push((path@, kind)));
    i
}

/// Whether `plan` is what loading makes of `mesh`: its vertices zipped,
/// its indices as they are, and a slot for each texture it refers to.
pub open spec fn is_plan_of<T>(
    plan: MeshPlan<T>,
    mesh: ObjMesh<T>,
    refs: Seq<(Seq<char>, TextureType)>,
    requests: Seq<(Seq<char>, TextureType)>,
) -> bool {
    &&& plan.verticies.len() == vertex_count(mesh.positions.len() as int)
    &&& forall|i: int|
        0 <= i < plan.verticies.len() ==> is_vertex_at(
            #[trigger] plan.verticies[i],
            mesh.positions@,
            mesh.normals@,
            mesh.texcoords@,
            i,
        )
    &&& plan.indices@ == mesh.indices@
    &&& slots_match(plan.slots@, refs, requests)
}

/// Whether a mesh of a plan can be built, given the number of requests.
pub open spec fn buildable<T>(plan: MeshPlan<T>, requests: int) -> bool {
    &&& plan.verticies.len() * VERTEX_BYTES <= isize::MAX
    &&& plan.indices.len() * INDEX_BYTES <= isize::MAX
    &&& forall|j: int| 0 <= j < plan.slots.len() ==> #[trigger] plan.slots[j] < requests
}

/// What `Model::load_obj` answers: the plan, where no mesh is at fault, and
/// else the first mesh that is, with its first fault.
pub open spec fn load_answer<T>(
    name: Seq<char>,
    meshes: Seq<ObjMesh<T>>,
    materials: Seq<ObjMaterial>,
    answer: Result<ModelPlan<T>, LoadError>,
) -> bool {
    match answer {
        Ok(plan) => {
            &&& forall|k: int|
                0 <= k < meshes.len() ==> fault_of(#[trigger] meshes[k], materials.len() as int)
                    is None
            &&& request_views(plan.requests@) == deduped(scene_refs(name, meshes, materials))
            &&& plan.meshes.len() == meshes.len()
            &&& forall|k: int|
                0 <= k < meshes.len() ==> is_plan_of(
                    #[trigger] plan.meshes[k],
                    meshes[k],
                    mesh_refs(name, meshes[k], materials),
                    request_views(plan.requests@),
                )
            &&& plan.wf()
        },
        Err(error) => {
            &&& error.mesh < meshes.len()
            &&& forall|k: int|
                0 <= k < error.mesh ==> fault_of(#[trigger] meshes[k], materials.len() as int)
                    is None
            &&& fault_of(meshes[error.mesh as int], materials.len() as int) == Some(error.fault)
        },
    }
}

/// One more reference leaves every slot where it is.
proof fn slots_survive(
    slots: Seq<usize>,
    refs: Seq<(Seq<char>, TextureType)>,
    requests: Seq<(Seq<char>, TextureType)>,
    next: (Seq<char>, TextureType),
)
    requires
        slots_match(slots, refs, requests),
    ensures
        slots_match(slots, refs, with_ref(requests, next)),
{
    let after = with_ref(requests, next);
    assert forall|j: int| 0 <= j < slots.len() implies is_slot(
        after,
        refs[j].0,
        #[trigger] slots[j] as int,
    ) by {
        assert(is_slot(requests, refs[j].0, slots[j] as int));
    }
}

/// The requests for references and one more.
proof fn deduped_push(refs: Seq<(Seq<char>, TextureType)>, next: (Seq<char>, TextureType))
    ensures
        deduped(refs + seq![next]) == with_ref(deduped(refs), next),
{
    assert((refs + seq![next]).drop_last() =~= refs);
}

impl<T> ModelPlan<T> {
    /// Whether every mesh of the plan can be built.
    pub open spec fn wf(&self) -> bool {
        forall|k: int|
            0 <= k < self.meshes.len() ==> buildable(
                #[trigger] self.meshes[k],
                self.requests.len() as int,
            )
    }
}

/// The textures of a mesh, once the requests have handles: for each slot
/// the handle of its request, with the kind that the request was made for.
pub open spec fn bound_textures(
    slots: Seq<usize>,
    requests: Seq<TextureRequest>,
    handles: Seq<u32>,
) -> Seq<Texture> {
    Seq::new(
        slots.len(),
        |j: int| Texture { id: handles[slots[j] as int], type_: requests[slots[j] as int].type_ },
    )
}

/// Whether `mesh` and `upload` are what is built of `plan`.
pub open spec fn is_built_from<T>(
    mesh: Mesh<T>,
    upload: MeshUpload,
    plan: MeshPlan<T>,
    requests: Seq<TextureRequest>,
    handles: Seq<u32>,
    buffers: MeshBuffers,
) -> bool {
    &&& mesh.verticies == plan.verticies
    &&& mesh.indices == plan.indices
    &&& mesh.textures@ == bound_textures(plan.slots@, requests, handles)
    &&& mesh.buffers == buffers
    &&& upload.buffers == buffers
    &&& upload.vertex_bytes == plan.verticies.len() * VERTEX_BYTES
    &&& upload.index_bytes == plan.indices.len() * INDEX_BYTES
    &&& upload.attributes@ == attribute_layout()
}

impl<T> ModelPlan<T> {
    /// Makes the model, and plans the upload of each mesh.
    ///
    /// `handles` are the textures that were uploaded for the requests, one
    /// for each and in their order; `buffers` are the objects that the
    /// driver made for the meshes, likewise. The scalars of a vertex must
    /// have four bytes each.
    pub fn build(self, handles: &[u32], buffers: &[MeshBuffers]) -> (built: (
        Model<T>,
        Vec<MeshUpload>,
    ))
        requires
            self.wf(),
            handles.len() == self.requests.len(),
            buffers.len() == self.meshes.len(),
            size_of::<T>() == COMPONENT_BYTES,
        ensures
            built.0.meshes.len() == self.meshes.len(),
            built.1.len() == self.meshes.len(),
            forall|k: int|
                0 <= k < self.meshes.len() ==> is_built_from(
                    #[trigger] built.0.meshes[k],
                    built.1[k],
                    self.meshes[k],
                    self.requests@,
                    handles@,
                    buffers[k],
                ),
    {
        let ModelPlan { requests, meshes: plans } = self;
        let ghost planned = plans@;
        let mut meshes: Vec<Mesh<T>> = Vec::new();
        let mut uploads: Vec<MeshUpload> = Vec::new();
        for plan in it: plans
            invariant
                it.seq() == planned,
                handles.len() == requests.len(),
                buffers.len() == planned.len(),
                size_of::<T>() == COMPONENT_BYTES,
                forall|k: int|
                    0 <= k < planned.len() ==> buildable(#[trigger] planned[k], requests.len() as int),
                meshes.len() == it.index(),
                uploads.len() == it.index(),
                forall|k: int|
                    0 <= k < it.index() ==> is_built_from(
                        #[trigger] meshes[k],
                        uploads[k],
                        planned[k],
                        requests@,
                        handles@,
                        buffers[k],
                    ),
        {
            let MeshPlan { verticies, indices, slots } = plan;
            let mut textures: Vec<Texture> = Vec::new();
            let mut j: usize = 0;
            while j < slots.len()
                invariant
                    j <= slots.len(),
                    handles.len() == requests.len(),
                    forall|i: int| 0 <= i < slots.len() ==> #[trigger] slots[i] < requests.len(),
                    textures.len() == j,
                    forall|i: int|
                        0 <= i < j ==> #[trigger] textures[i] == (Texture {
                            id: handles[slots[i] as int],
                            type_: requests[slots[i] as int].type_,
                        }),
                decreases slots.len() - j,
            {
                let slot = slots[j];
                textures.push(Texture::new(handles[slot], requests[slot].type_));
                j += 1;
            }
            assert(textures@ =~= bound_textures(slots@, requests@, handles@));
            let (mesh, upload) = Mesh::new(verticies, indices, textures, buffers[meshes.len()]);
            meshes.push(mesh);
            uploads.push(upload);
        }
        (Model { meshes }, uploads)
    }
}

impl<T: Copy> Model<T> {
    /// Plans the model of a parsed file: `name` is the file's path, `meshes`
    /// and `materials` are what the parser found in it.
    ///
    /// The vertices of each mesh are rebuilt from its flat arrays. The
    /// textures of its material are found beside the model file, and a path
    /// that several meshes refer to is requested once.
    pub fn load_obj(name: &str, meshes: &[ObjMesh<T>], materials: &[ObjMaterial]) -> (answer:
        Result<ModelPlan<T>, LoadError>)
        ensures
            load_answer(name@, meshes@, materials@, answer),
    {
        let mut requests: Vec<TextureRequest> = Vec::new();
        let mut planned: Vec<MeshPlan<T>> = Vec::new();
        let mut k: usize = 0;
        assert(meshes@.take(0) =~= Seq::empty());
        assert(request_views(requests@) =~= Seq::empty());
        while k < meshes.len()
            invariant
                k <= meshes.len(),
                forall|j: int|
                    0 <= j < k ==> fault_of(#[trigger] meshes[j], materials.len() as int) is None,
                request_views(requests@) == deduped(
                    scene_refs(name@, meshes@.take(k as int), materials@),
                ),
                planned.len() == k,
                forall|j: int|
                    0 <= j < k ==> is_plan_of(
                        #[trigger] planned[j],
                        meshes[j],
                        mesh_refs(name@, meshes[j], materials@),
                        request_views(requests@),
                    ),
                forall|j: int|
                    0 <= j < k ==> (#[trigger] planned[j]).verticies.len() * VERTEX_BYTES
                        <= isize::MAX && planned[j].indices.len() * INDEX_BYTES <= isize::MAX,
            decreases meshes.len() - k,
        {
            let mesh = &meshes[k];
            if !can_zip(mesh.positions.len(), mesh.normals.len(), mesh.texcoords.len()) {
                return Err(LoadError { mesh: k, fault: Fault::MisalignedAttributes });
            }
            let material = match mesh.material_id {
                Some(id) => {
                    if id >= materials.len() {
                        return Err(LoadError { mesh: k, fault: Fault::UnknownMaterial });
                    }
                    Some(&materials[id])
                },
                None => None,
            };
            if mesh.positions.len() / 3 > (isize::MAX as usize) / VERTEX_BYTES || mesh.indices.len()
                > (isize::MAX as usize) / INDEX_BYTES {
                return Err(LoadError { mesh: k, fault: Fault::TooLarge });
            }
            let verticies = zip_vertices(
                mesh.positions.as_slice(),
                mesh.normals.as_slice(),
                mesh.texcoords.as_slice(),
            );
            let indices = mesh.indices.clone();
            assert(indices@ =~= mesh.indices@);

            let ghost before = scene_refs(name@, meshes@.take(k as int), materials@);
            let ghost refs = mesh_refs(name@, meshes[k as int], materials@);
            let ghost held = request_views(requests@);
            let mut slots: Vec<usize> = Vec::new();
            let ghost mut first: Seq<(Seq<char>, TextureType)> = Seq::empty();
            let ghost mut second: Seq<(Seq<char>, TextureType)> = Seq::empty();
            if let Some(material) = material {
                if !material.diffuse_texture.as_str().is_empty() {
                    let path = with_file_name(name, material.diffuse_texture.as_str());
                    let slot = find_or_add(&mut requests, path, TextureType::Diffuse);
                    slots.push(slot);
                    proof {
                        first = seq![(path@, TextureType::Diffuse)];
                        deduped_push(before, first[0]);
                    }
                }
                let ghost diffuse = slots@;
                let ghost mid = request_views(requests@);
                assert(before + first =~= if first.len() == 0 {
                    before
                } else {
                    before + seq![first[0]]
                });
                if !material.specular_texture.as_str().is_empty() {
                    let path = with_file_name(name, material.specular_texture.as_str());
                    let slot = find_or_add(&mut requests, path, TextureType::Specular);
                    slots.push(slot);
                    proof {
                        second = seq![(path@, TextureType::Specular)];
                        deduped_push(before + first, second[0]);
                        slots_survive(diffuse, first, mid, second[0]);
                    }
                }
                assert(refs =~= first + second);
                assert(before + refs =~= if second.len() == 0 {
                    before + first
                } else {
                    (before + first) + seq![second[0]]
                });
            } else {
                assert(before + refs =~= before);
            }
            proof {
                let now = request_views(requests@);
                assert(meshes@.take(k + 1).drop_last() =~= meshes@.take(k as int));
                assert forall|j: int| 0 <= j < k implies is_plan_of(
                    #[trigger] planned[j],
                    meshes[j],
                    mesh_refs(name@, meshes[j], materials@),
                    now,
                ) by {
                    let r = mesh_refs(name@, meshes[j], materials@);
                    if first.len() == 1 {
                        slots_survive(planned[j].slots@, r, held, first[0]);
                    }
                    if second.len() == 1 {
                        slots_survive(planned[j].slots@, r, deduped(before + first), second[0]);
                    }
                }
            }
            planned.push(MeshPlan { verticies, indices, slots });
            k += 1;
        }
        assert(meshes@.take(meshes.len() as int) =~= meshes@);
        Ok(ModelPlan { requests, meshes: planned })
    }
}

impl<T> Model<T> {
    /// Whether every mesh of the model can be drawn.
    pub open spec fn drawable(&self) -> bool {
        forall|k: int| 0 <= k < self.meshes.len() ==> (#[trigger] self.meshes[k]).drawable()
    }

    /// Plans one draw of every mesh with `shader`, in the order of the meshes.
    pub fn draw(&self, shader: Shader) -> (calls: Vec<DrawCall>)
        requires
            self.drawable(),
        ensures
            calls.len() == self.meshes.len(),
            forall|k: int|
                0 <= k < calls.len() ==> self.meshes[k].is_drawn_by(
                    #[trigger] calls[k],
                    shader,
                    None,
                ),
    {
        let mut calls: Vec<DrawCall> = Vec::new();
        let mut k: usize = 0;
        while k < self.meshes.len()
            invariant
                self.drawable(),
                k <= self.meshes.len(),
                calls.len() == k,
                forall|j: int|
                    0 <= j < k ==> self.meshes[j].is_drawn_by(#[trigger] calls[j], shader, None),
            decreases self.meshes.len() - k,
        {
            calls.push(self.meshes[k].draw(shader));
            k += 1;
        }
        calls
    }

    /// The meshes of the model.
    pub fn meshes(&self) -> (meshes: &[Mesh<T>])
        ensures
            meshes@ == self.meshes@,
    {
        self.meshes.as_slice()
    }
}

/// No path is requested twice.
pub open spec fn distinct_paths(requests: Seq<(Seq<char>, TextureType)>) -> bool {
    forall|a: int, b: int|
        0 <= a < b < requests.len() ==> (#[trigger] requests[a]).0 != (#[trigger] requests[b]).0
}

/// Within one load every path that a mesh refers to is requested, and
/// requested once: the requests hold no path twice, and each holds the kind
/// of the first reference to its path.
pub proof fn each_path_is_requested_once(refs: Seq<(Seq<char>, TextureType)>)
    ensures
        distinct_paths(deduped(refs)),
        forall|i: int| 0 <= i < refs.len() ==> requested(deduped(refs), (#[trigger] refs[i]).0),
        forall|k: int|
            0 <= k < deduped(refs).len() ==> exists|i: int|
                0 <= i < refs.len() && refs[i] == #[trigger] deduped(refs)[k] && forall|h: int|
                    0 <= h < i ==> (#[trigger] refs[h]).0 != refs[i].0,
    decreases refs.len(),
{
    if refs.len() > 0 {
        let head = refs.drop_last();
        let next = refs.last();
        let held = deduped(head);
        let all = deduped(refs);
        each_path_is_requested_once(head);
        assert forall|i: int| 0 <= i < refs.len() implies requested(all, (#[trigger] refs[i]).0) by {
            if i < head.len() {
                assert(head[i] == refs[i]);
                let slot = choose|slot: int| is_slot(held, refs[i].0, slot);
                assert(is_slot(all, refs[i].0, slot));
            } else if requested(held, next.0) {
            } else {
                assert(is_slot(all, next.0, held.len() as int));
            }
        }
        assert forall|k: int| 0 <= k < all.len() implies exists|i: int|
            0 <= i < refs.len() && refs[i] == #[trigger] all[k] && forall|h: int|
                0 <= h < i ==> (#[trigger] refs[h]).0 != refs[i].0 by {
            if k < held.len() {
                let i = choose|i: int|
                    0 <= i < head.len() && head[i] == held[k] && forall|h: int|
                        0 <= h < i ==> (#[trigger] head[h]).0 != head[i].0;
                assert(refs[i] == all[k]);
                assert forall|h: int| 0 <= h < i implies (#[trigger] refs[h]).0 != refs[i].0 by {
                    assert(head[h] == refs[h]);
                }
            } else {
                let i = refs.len() - 1;
                assert(refs[i] == all[k]);
                assert forall|h: int| 0 <= h < i implies (#[trigger] refs[h]).0 != refs[i].0 by {
                    assert(head[h] == refs[h]);
                    if refs[h].0 == next.0 {
                        assert(requested(held, head[h].0));
                    }
                }
            }
        }
        assert forall|a: int, b: int| 0 <= a < b < all.len() implies (#[trigger] all[a]).0 != (
        #[trigger] all[b]).0 by {
            if b == held.len() {
                if all[a].0 == next.0 {
                    assert(is_slot(held, next.0, a));
                }
            }
        }
    }
}

/// Two references to one path get one texture: their slots are the same,
/// and so is the texture bound to them, whatever the handles are.
pub proof fn same_path_same_texture(
    requests: Seq<TextureRequest>,
    handles: Seq<u32>,
    first: Seq<char>,
    second: Seq<char>,
    a: usize,
    b: usize,
)
    requires
        distinct_paths(request_views(requests)),
        is_slot(request_views(requests), first, a as int),
        is_slot(request_views(requests), second, b as int),
        first == second,
    ensures
        a == b,
        bound_textures(seq![a], requests, handles) == bound_textures(seq![b], requests, handles),
{
    let views = request_views(requests);
    if a < b {
        assert(views[a as int].0 != views[b as int].0);
    }
    if b < a {
        assert(views[b as int].0 != views[a as int].0);
    }
}

} // verus!

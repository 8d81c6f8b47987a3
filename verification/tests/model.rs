use game_engine::{
    Fault, LoadError, MeshBuffers, Model, ObjMaterial, ObjMesh, Shader, Texture, TextureType,
};

fn material(diffuse: &str, specular: &str) -> ObjMaterial {
    ObjMaterial { diffuse_texture: diffuse.to_string(), specular_texture: specular.to_string() }
}

fn triangle(material_id: Option<usize>) -> ObjMesh<f32> {
    ObjMesh {
        positions: vec![0.0, 0.0, 0.0, 1.0, 0.0, 0.0, 0.0, 1.0, 0.0],
        normals: vec![0.0, 0.0, 1.0, 0.0, 0.0, 1.0, 0.0, 0.0, 1.0],
        texcoords: vec![0.0, 0.0, 1.0, 0.0, 0.0, 1.0],
        indices: vec![0, 1, 2],
        material_id,
    }
}

fn buffers(n: u32) -> MeshBuffers {
    MeshBuffers { vao: 10 * n, vbo: 10 * n + 1, ebo: 10 * n + 2 }
}

#[test]
fn textures_are_found_beside_the_model_file() {
    let materials = [material("wall.png", "wall_spec.png")];
    let plan = Model::load_obj("assets/house/house.obj", &[triangle(Some(0))], &materials).unwrap();
    let paths: Vec<&str> = plan.requests.iter().map(|r| r.path.as_str()).collect();
    assert_eq!(paths, vec!["assets/house/wall.png", "assets/house/wall_spec.png"]);
    let kinds: Vec<TextureType> = plan.requests.iter().map(|r| r.type_).collect();
    assert_eq!(kinds, vec![TextureType::Diffuse, TextureType::Specular]);
    assert_eq!(plan.meshes[0].slots, vec![0, 1]);
}

#[test]
fn a_bare_file_name_has_bare_siblings() {
    let materials = [material("a.png", "")];
    let plan = Model::load_obj("model.obj", &[triangle(Some(0))], &materials).unwrap();
    assert_eq!(plan.requests.len(), 1);
    assert_eq!(plan.requests[0].path, "a.png");
}

#[test]
fn a_path_is_requested_once_in_a_load() {
    let materials = [material("skin.png", "shine.png"), material("skin.png", ""), material("", "shine.png")];
    let meshes = [triangle(Some(0)), triangle(Some(1)), triangle(Some(2)), triangle(Some(0))];
    let plan = Model::load_obj("m/x.obj", &meshes, &materials).unwrap();
    let paths: Vec<&str> = plan.requests.iter().map(|r| r.path.as_str()).collect();
    assert_eq!(paths, vec!["m/skin.png", "m/shine.png"]);
    assert_eq!(plan.meshes[0].slots, vec![0, 1]);
    assert_eq!(plan.meshes[1].slots, vec![0]);
    assert_eq!(plan.meshes[2].slots, vec![1]);
    assert_eq!(plan.meshes[3].slots, vec![0, 1]);

    let (model, _) = plan.build(&[71, 72], &[buffers(1), buffers(2), buffers(3), buffers(4)]);
    let skin = Texture { id: 71, type_: TextureType::Diffuse };
    let shine = Texture { id: 72, type_: TextureType::Specular };
    assert_eq!(model.meshes[0].textures, vec![skin, shine]);
    assert_eq!(model.meshes[1].textures, vec![skin]);
    assert_eq!(model.meshes[2].textures, vec![shine]);
    assert_eq!(model.meshes[3].textures, vec![skin, shine]);
}

#[test]
fn a_shared_path_keeps_the_kind_it_was_first_loaded_as() {
    let materials = [material("both.png", "both.png")];
    let plan = Model::load_obj("x.obj", &[triangle(Some(0))], &materials).unwrap();
    assert_eq!(plan.requests.len(), 1);
    assert_eq!(plan.requests[0].type_, TextureType::Diffuse);
    assert_eq!(plan.meshes[0].slots, vec![0, 0]);
    let (model, _) = plan.build(&[5], &[buffers(1)]);
    let both = Texture { id: 5, type_: TextureType::Diffuse };
    assert_eq!(model.meshes[0].textures, vec![both, both]);
}

#[test]
fn every_load_requests_its_own_textures() {
    let materials = [material("skin.png", "")];
    let first = Model::load_obj("m/x.obj", &[triangle(Some(0))], &materials).unwrap();
    let second = Model::load_obj("m/x.obj", &[triangle(Some(0))], &materials).unwrap();
    assert_eq!(first.requests.len(), 1);
    assert_eq!(second.requests.len(), 1);
    assert_eq!(first.requests[0].path, second.requests[0].path);
    let (one, _) = first.build(&[1], &[buffers(1)]);
    let (two, _) = second.build(&[2], &[buffers(2)]);
    assert_eq!(one.meshes[0].textures[0].id, 1);
    assert_eq!(two.meshes[0].textures[0].id, 2);
}

#[test]
fn a_mesh_without_material_has_no_textures() {
    let materials = [material("skin.png", "shine.png")];
    let plan = Model::load_obj("x.obj", &[triangle(None)], &materials).unwrap();
    assert!(plan.requests.is_empty());
    assert!(plan.meshes[0].slots.is_empty());
    let (model, _) = plan.build(&[], &[buffers(1)]);
    assert!(model.meshes[0].textures.is_empty());
}

#[test]
fn a_material_without_texture_names_requests_nothing() {
    let materials = [material("", "")];
    let plan = Model::load_obj("x.obj", &[triangle(Some(0))], &materials).unwrap();
    assert!(plan.requests.is_empty());
    assert!(plan.meshes[0].slots.is_empty());
}

#[test]
fn a_file_without_meshes_is_an_empty_model() {
    let none: [ObjMesh<f32>; 0] = [];
    let plan = Model::load_obj("x.obj", &none, &[]).unwrap();
    assert!(plan.requests.is_empty());
    let (model, uploads) = plan.build(&[], &[]);
    assert!(model.meshes().is_empty());
    assert!(uploads.is_empty());
    assert!(model.draw(Shader { id: 1 }).is_empty());
}

#[test]
fn vertices_are_zipped_and_indices_kept() {
    let mut mesh = triangle(None);
    mesh.indices = vec![2, 1, 0];
    let plan = Model::load_obj("x.obj", &[mesh], &[]).unwrap();
    assert_eq!(plan.meshes[0].verticies.len(), 3);
    assert_eq!(plan.meshes[0].verticies[1].position, [1.0, 0.0, 0.0]);
    assert_eq!(plan.meshes[0].verticies[1].normal, [0.0, 0.0, 1.0]);
    assert_eq!(plan.meshes[0].verticies[1].tex_coords, [1.0, 0.0]);
    assert_eq!(plan.meshes[0].verticies[2].position, [0.0, 1.0, 0.0]);
    assert_eq!(plan.meshes[0].verticies[2].tex_coords, [0.0, 1.0]);
    assert_eq!(plan.meshes[0].indices, vec![2, 1, 0]);
}

#[test]
fn build_makes_meshes_in_order_with_their_buffers() {
    let materials = [material("a.png", "")];
    let meshes = [triangle(Some(0)), triangle(None)];
    let plan = Model::load_obj("x.obj", &meshes, &materials).unwrap();
    let (model, uploads) = plan.build(&[33], &[buffers(1), buffers(2)]);
    assert_eq!(model.meshes().len(), 2);
    assert_eq!(model.meshes()[0].buffers, buffers(1));
    assert_eq!(model.meshes()[1].buffers, buffers(2));
    assert_eq!(model.meshes()[0].vao(), 10);
    assert_eq!(model.meshes()[1].vao(), 20);
    assert_eq!(model.meshes()[0].verticies.len(), 3);
    assert_eq!(model.meshes()[0].indices, vec![0, 1, 2]);
    assert_eq!(uploads.len(), 2);
    assert_eq!(uploads[0].buffers, buffers(1));
    assert_eq!(uploads[1].buffers, buffers(2));
    assert_eq!(uploads[0].vertex_bytes, 96);
    assert_eq!(uploads[0].index_bytes, 12);
    assert_eq!(uploads[1].attributes.len(), 3);
}

#[test]
fn model_draws_every_mesh_in_order() {
    let materials = [material("a.png", "b.png")];
    let meshes = [triangle(None), triangle(Some(0))];
    let plan = Model::load_obj("x.obj", &meshes, &materials).unwrap();
    let (model, _) = plan.build(&[8, 9], &[buffers(1), buffers(2)]);
    let calls = model.draw(Shader { id: 3 });
    assert_eq!(calls.len(), 2);
    assert_eq!(calls[0].program, 3);
    assert_eq!(calls[0].vao, 10);
    assert_eq!(calls[0].count, 3);
    assert_eq!(calls[0].instances, None);
    assert!(calls[0].bindings.is_empty());
    assert_eq!(calls[1].vao, 20);
    assert_eq!(calls[1].bindings.len(), 2);
    assert_eq!(calls[1].bindings[0].uniform, "material.texture_diffuse1");
    assert_eq!(calls[1].bindings[0].texture, 8);
    assert_eq!(calls[1].bindings[1].uniform, "material.texture_specular1");
    assert_eq!(calls[1].bindings[1].texture, 9);
}

#[test]
fn normals_that_end_early_are_a_fault() {
    let mut short = triangle(None);
    short.normals.truncate(8);
    let answer = Model::load_obj("x.obj", &[triangle(None), short], &[]);
    assert_eq!(answer.err(), Some(LoadError { mesh: 1, fault: Fault::MisalignedAttributes }));
}

#[test]
fn missing_texcoords_are_a_fault() {
    let mut bare = triangle(None);
    bare.texcoords.clear();
    let answer = Model::load_obj("x.obj", &[bare], &[]);
    assert_eq!(answer.err(), Some(LoadError { mesh: 0, fault: Fault::MisalignedAttributes }));
}

#[test]
fn longer_normals_are_no_fault() {
    let mut long = triangle(None);
    long.normals.extend([9.0, 9.0, 9.0]);
    long.texcoords.push(9.0);
    let plan = Model::load_obj("x.obj", &[long], &[]).unwrap();
    assert_eq!(plan.meshes[0].verticies.len(), 3);
}

#[test]
fn an_unknown_material_is_a_fault() {
    let materials = [material("a.png", "")];
    let answer = Model::load_obj("x.obj", &[triangle(Some(0)), triangle(Some(1))], &materials);
    assert_eq!(answer.err(), Some(LoadError { mesh: 1, fault: Fault::UnknownMaterial }));
}

#[test]
fn the_first_fault_of_the_first_faulty_mesh_is_reported() {
    let mut bad = triangle(Some(7));
    bad.normals.clear();
    let answer = Model::load_obj("x.obj", &[triangle(None), bad, triangle(Some(9))], &[]);
    assert_eq!(answer.err(), Some(LoadError { mesh: 1, fault: Fault::MisalignedAttributes }));
}

#[test]
fn a_mesh_of_more_bytes_than_can_be_told_is_a_fault() {
    // Scalars of no size: the arrays take no memory, however long they are.
    let count = isize::MAX as usize / 32 + 1;
    let huge = ObjMesh {
        positions: vec![[0u8; 0]; 3 * count],
        normals: vec![[0u8; 0]; 3 * count],
        texcoords: vec![[0u8; 0]; 2 * count],
        indices: vec![],
        material_id: None,
    };
    let small = ObjMesh {
        positions: vec![[0u8; 0]; 3],
        normals: vec![[0u8; 0]; 3],
        texcoords: vec![[0u8; 0]; 2],
        indices: vec![0],
        material_id: None,
    };
    let answer = Model::load_obj("x.obj", &[small, huge], &[]);
    assert_eq!(answer.err(), Some(LoadError { mesh: 1, fault: Fault::TooLarge }));
}

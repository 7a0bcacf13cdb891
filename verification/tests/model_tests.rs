use scene_core::model::{
    interleave_vertices, make_material_desc, resolve_material_index, resolve_normal_texture_name,
    ModelDesc, VertexRecord,
};

#[test]
fn interleaving_reassembles_vertices_in_order() {
    let positions = vec![1.0f32, 2.0, 3.0, 4.0, 5.0, 6.0];
    let texcoords = vec![0.1f32, 0.2, 0.3, 0.4];
    let normals = vec![0.0f32, 1.0, 0.0, 1.0, 0.0, 0.0];
    let v = interleave_vertices(&positions, &texcoords, &normals);
    assert_eq!(v.len(), 2);
    assert_eq!(
        v[0],
        VertexRecord { position: [1.0, 2.0, 3.0], tex_coords: [0.1, 0.2], normal: [0.0, 1.0, 0.0] }
    );
    assert_eq!(
        v[1],
        VertexRecord { position: [4.0, 5.0, 6.0], tex_coords: [0.3, 0.4], normal: [1.0, 0.0, 0.0] }
    );
}

#[test]
fn interleaving_nothing_yields_nothing() {
    let none: Vec<u32> = Vec::new();
    assert_eq!(interleave_vertices(&none, &none, &none).len(), 0);
}

#[test]
fn empty_normal_entry_falls_back_to_default() {
    assert_eq!(resolve_normal_texture_name(""), "cube-normal.png");
}

#[test]
fn clean_normal_entry_passes_through() {
    assert_eq!(resolve_normal_texture_name("rock-normal.png"), "rock-normal.png");
}

#[test]
fn spaced_normal_entry_keeps_what_follows_the_last_space() {
    assert_eq!(resolve_normal_texture_name("bump map.png"), "map.png");
    assert_eq!(resolve_normal_texture_name("a b c.png"), "c.png");
    assert_eq!(resolve_normal_texture_name(" lead.png"), "lead.png");
    // A trailing space leaves nothing behind.
    assert_eq!(resolve_normal_texture_name("trail.png "), "");
}

#[test]
fn material_keeps_names_and_resolves_normal() {
    let m = make_material_desc("stone", "stone-diffuse.png", "");
    assert_eq!(m.name, "stone");
    assert_eq!(m.diffuse_texture, "stone-diffuse.png");
    assert_eq!(m.normal_texture, "cube-normal.png");
}

#[test]
fn material_index_falls_back_to_zero() {
    assert_eq!(resolve_material_index(Some(2), 4), 2);
    assert_eq!(resolve_material_index(Some(4), 4), 0);
    assert_eq!(resolve_material_index(Some(7), 4), 0);
    assert_eq!(resolve_material_index(None, 4), 0);
    assert_eq!(resolve_material_index(Some(0), 0), 0);
    assert_eq!(resolve_material_index(None, 0), 0);
}

#[test]
fn model_assembly_keeps_material_indices_valid() {
    let mut model = ModelDesc::new();
    model.push_material(make_material_desc("a", "a.png", "a-n.png"));
    model.push_material(make_material_desc("b", "b.png", ""));
    model.push_mesh("cube", 36, Some(1));
    model.push_mesh("cube", 36, Some(9));
    model.push_mesh("cube", 12, None);
    assert_eq!(model.materials.len(), 2);
    assert_eq!(model.meshes.len(), 3);
    assert_eq!(model.meshes[0].material, 1);
    assert_eq!(model.meshes[1].material, 0);
    assert_eq!(model.meshes[2].material, 0);
    assert_eq!(model.meshes[0].num_elements, 36);
    assert_eq!(model.meshes[2].num_elements, 12);
    assert_eq!(model.meshes[0].name, "cube");
}

#[test]
fn meshes_without_materials_use_index_zero() {
    let mut model = ModelDesc::new();
    model.push_mesh("bare", 3, Some(5));
    assert_eq!(model.meshes[0].material, 0);
}

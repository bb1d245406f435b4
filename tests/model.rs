use std::rc::Rc;

use glwrap::{
    mesh_commands, BindlessModel, DrawCommand, Mesh, ModelBuffers, ModelCreateTrait, ModelTrait,
    MultiBindModel, Texture,
};

fn buffers() -> ModelBuffers {
    ModelBuffers { vertex_array: 1, vertex_buffer: 2, element_buffer: 3, transform_buffer: 4 }
}

fn meshes() -> Vec<Mesh> {
    let shared = Rc::new(Texture::new(40));
    vec![
        Mesh::new(36, 0, vec![shared.clone(), Rc::new(Texture::new(41))]),
        Mesh::new(12, 36, Vec::new()),
        Mesh::new(3, 48, vec![shared]),
    ]
}

#[test]
fn multi_bind_draw_is_one_call_per_mesh() {
    let model = MultiBindModel::new(buffers(), 5, meshes());
    let draws = model.draw();
    assert_eq!(draws.len(), 3);
    let got: Vec<(u32, u32, u32)> =
        draws.iter().map(|d| (d.index_count, d.index_offset, d.instance_count)).collect();
    assert_eq!(got, vec![(36, 0, 5), (12, 36, 5), (3, 48, 5)]);
    assert_eq!(draws[0].textures, vec![40, 41]);
    assert!(draws[1].textures.is_empty());
    assert_eq!(draws[2].textures, vec![40]);
    assert_eq!(model.get_transform_count(), 5);
    assert_eq!(model.get_meshes().len(), 3);
    assert_eq!(model.get_meshes()[1].get_count(), 12);
    assert_eq!(model.get_meshes()[1].get_offset(), 36);
}

#[test]
fn bindless_draw_matches_multi_bind() {
    let model = BindlessModel::new(buffers(), 2, meshes());
    let draws = model.draw();
    let got: Vec<(u32, u32, u32)> =
        draws.iter().map(|d| (d.index_count, d.index_offset, d.instance_count)).collect();
    assert_eq!(got, vec![(36, 0, 2), (12, 36, 2), (3, 48, 2)]);
}

#[test]
fn bindless_builds_one_command_per_mesh() {
    let model = BindlessModel::new(buffers(), 2, meshes());
    let commands = model.get_commands().clone();
    assert_eq!(
        commands,
        vec![
            DrawCommand { count: 36, instance_count: 2, first_index: 0, base_vertex: 0, base_instance: 0 },
            DrawCommand { count: 12, instance_count: 2, first_index: 36, base_vertex: 0, base_instance: 0 },
            DrawCommand { count: 3, instance_count: 2, first_index: 48, base_vertex: 0, base_instance: 0 },
        ]
    );
}

#[test]
fn model_without_meshes_draws_nothing() {
    let model = MultiBindModel::new(buffers(), 1, Vec::new());
    assert!(model.draw().is_empty());
    assert!(mesh_commands(&Vec::new(), 4).is_empty());
}

#[test]
fn model_add_and_clear_textures() {
    let mut model = MultiBindModel::new(buffers(), 1, meshes());
    model.add_texture(1, Rc::new(Texture::new(9)));
    assert_eq!(model.draw()[1].textures, vec![9]);
    model.clear_textures(0);
    assert!(model.draw()[0].textures.is_empty());
    assert_eq!(model.draw()[2].textures, vec![40]);
}

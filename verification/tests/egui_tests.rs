use egui::epaint::Vertex;
use egui::{pos2, Color32, Rect, Texture, TextureId};
use rafx_render::egui_draw_data::{
    split_to_u16_accepted, EguiClippedMesh, EguiDrawData, EguiMesh, EguiMesh16, EguiSplitClippedMesh,
};
use std::sync::Arc;

fn vertex(x: f32) -> Vertex {
    Vertex { pos: pos2(x, 0.0), uv: pos2(0.0, 0.0), color: Color32::WHITE }
}

fn vertices(n: usize, base: f32) -> Vec<Vertex> {
    (0..n).map(|i| vertex(base + i as f32)).collect()
}

fn rect(x: f32) -> Rect {
    Rect::from_min_max(pos2(x, x), pos2(x + 10.0, x + 10.0))
}

fn atlas() -> Arc<Texture> {
    Arc::new(Texture { version: 3, width: 1, height: 1, pixels: vec![255] })
}

fn mesh(indices: Vec<u32>, n_vertices: usize, base: f32, texture_id: TextureId) -> EguiMesh {
    EguiMesh { indices, vertices: vertices(n_vertices, base), texture_id }
}

#[test]
fn egui_frame_concatenates_meshes() {
    let clipped = vec![
        EguiClippedMesh { clip_rect: rect(0.0), mesh: mesh(vec![0, 1, 2], 3, 0.0, TextureId::Egui) },
        EguiClippedMesh { clip_rect: rect(1.0), mesh: mesh(vec![], 2, 50.0, TextureId::User(9)) },
        EguiClippedMesh { clip_rect: rect(2.0), mesh: mesh(vec![1, 0, 3, 3, 2, 1], 4, 100.0, TextureId::User(4)) },
    ];
    let data = EguiDrawData::try_create_new(clipped, atlas(), 2u8).expect("frame has vertices");
    assert_eq!(data.pixels_per_point, 2u8);
    assert_eq!(data.font_atlas.version, 3);
    assert_eq!(data.vertices.len(), 7);
    assert_eq!(data.vertices[3], vertex(100.0));
    assert_eq!(data.indices, vec![0, 1, 2, 1, 0, 3, 3, 2, 1]);
    let lists = data.draw_lists();
    assert_eq!(lists.len(), 3);
    assert_eq!(lists[1].clip_rect, rect(1.0));
    assert_eq!(lists[0].draw_calls.len(), 1);
    // the mesh without indices gets no draw call
    assert_eq!(lists[1].draw_calls.len(), 0);
    let call = &lists[2].draw_calls[0];
    assert_eq!((call.vertex_offset, call.index_offset, call.index_count), (3, 3, 6));
    assert_eq!(call.texture_id, TextureId::User(4));
}

#[test]
fn egui_frame_with_one_vertex_is_none() {
    let clipped = vec![EguiClippedMesh { clip_rect: rect(0.0), mesh: mesh(vec![0, 0, 0], 1, 0.0, TextureId::Egui) }];
    assert!(EguiDrawData::try_create_new(clipped, atlas(), 1u8).is_none());
    assert!(EguiDrawData::try_create_new(Vec::new(), atlas(), 1u8).is_none());
}

#[test]
fn egui_frame_skips_vertices_of_meshes_without_indices() {
    // vertices of a mesh without indices are not copied
    let clipped = vec![EguiClippedMesh { clip_rect: rect(0.0), mesh: mesh(vec![], 5, 0.0, TextureId::Egui) }];
    assert!(EguiDrawData::try_create_new(clipped, atlas(), 1u8).is_none());
}

#[test]
fn egui_frame_of_large_mesh_has_draw_call_per_piece() {
    let big = mesh(vec![0, 1, 2, 69997, 69998, 69999], 70000, 0.0, TextureId::User(2));
    let clipped = vec![EguiClippedMesh { clip_rect: rect(0.0), mesh: big }];
    let data = EguiDrawData::try_create_new(clipped, atlas(), 1u8).unwrap();
    let calls = &data.draw_lists()[0].draw_calls;
    // egui cut the mesh into two pieces, each with its own vertices
    assert_eq!(calls.len(), 2);
    assert_eq!(data.indices, vec![0, 1, 2, 0, 1, 2]);
    assert_eq!(data.vertices.len(), 6);
    let second = &calls[1];
    assert_eq!(second.index_offset, 3);
    assert_eq!(second.index_count, 3);
    assert_eq!(data.vertices[second.vertex_offset], vertex(69997.0));
}

#[test]
fn egui_from_split_meshes_offsets() {
    let split = vec![EguiSplitClippedMesh {
        clip_rect: rect(0.0),
        meshes: vec![
            EguiMesh16 { indices: vec![0, 1, 1], vertices: vertices(2, 0.0), texture_id: TextureId::Egui },
            EguiMesh16 { indices: vec![], vertices: vertices(4, 10.0), texture_id: TextureId::Egui },
            EguiMesh16 { indices: vec![2, 0, 1], vertices: vertices(3, 20.0), texture_id: TextureId::User(5) },
        ],
    }];
    let data = EguiDrawData::from_split_meshes(split, atlas(), 1u8).unwrap();
    assert_eq!(data.vertices.len(), 5);
    let calls = &data.draw_lists()[0].draw_calls;
    assert_eq!(calls.len(), 2);
    assert_eq!((calls[1].vertex_offset, calls[1].index_offset, calls[1].index_count), (2, 3, 3));
    // a draw call reads back its mesh's data
    let c = &calls[1];
    assert_eq!(&data.indices[c.index_offset..c.index_offset + c.index_count], &[2, 0, 1]);
    assert_eq!(data.vertices[c.vertex_offset], vertex(20.0));
}

#[test]
fn egui_split_acceptance() {
    // small meshes are always accepted, even with stray indices
    assert!(split_to_u16_accepted(&mesh(vec![0, 5], 3, 0.0, TextureId::Egui)));
    // a large mesh of whole, compact triangles is accepted
    assert!(split_to_u16_accepted(&mesh(vec![0, 1, 2, 69997, 69998, 69999], 70000, 0.0, TextureId::Egui)));
    // not whole triangles
    assert!(!split_to_u16_accepted(&mesh(vec![0, 1], 70000, 0.0, TextureId::Egui)));
    // an index out of bounds
    assert!(!split_to_u16_accepted(&mesh(vec![0, 1, 70000], 70000, 0.0, TextureId::Egui)));
    // a triangle spanning 65536 vertices
    assert!(!split_to_u16_accepted(&mesh(vec![0, 1, 65536], 70000, 0.0, TextureId::Egui)));
}

#[test]
fn egui_draw_calls_tile_indices_and_stay_in_bounds() {
    let big = mesh(vec![0, 1, 2, 69997, 69998, 69999, 5, 6, 7], 70000, 0.0, TextureId::User(2));
    let clipped = vec![
        EguiClippedMesh { clip_rect: rect(0.0), mesh: mesh(vec![0, 1, 2], 3, 0.0, TextureId::Egui) },
        EguiClippedMesh { clip_rect: rect(1.0), mesh: big },
    ];
    let data = EguiDrawData::try_create_new(clipped, atlas(), 1u8).unwrap();
    let mut next = 0;
    for list in data.draw_lists() {
        for call in &list.draw_calls {
            assert_eq!(call.index_offset, next);
            next += call.index_count;
            for j in call.index_offset..call.index_offset + call.index_count {
                assert!(call.vertex_offset + (data.indices[j] as usize) < data.vertices.len());
            }
        }
    }
    assert_eq!(next, data.indices.len());
}

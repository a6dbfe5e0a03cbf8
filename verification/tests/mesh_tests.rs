use rafx_render::mesh_load_handler::{
    complete_mesh_update, layout_mesh_parts, mesh_size_fits, AssetUuid, BufferUploadOpResult, CommitStep,
    MeshAsset, MeshLoadHandler, MeshPartAsset,
};
use rafx_render::push_buffer::{PushBuffer, PushBufferSizeCalculator};

fn part(indices: Vec<u8>, vertices: Vec<u8>, material: u8) -> MeshPartAsset {
    MeshPartAsset { vertices, indices, material: AssetUuid([material; 16]) }
}

fn two_part_asset() -> MeshAsset {
    MeshAsset {
        mesh_parts: vec![
            part(vec![1, 2, 3], vec![10; 20], 1),
            part(vec![4, 5], vec![20; 3], 2),
        ],
    }
}

#[test]
fn size_calculator_aligns_each_push() {
    let mut calculator = PushBufferSizeCalculator::new();
    assert_eq!(calculator.required_size(), 0);
    calculator.push(&[1, 2, 3], 16);
    assert_eq!(calculator.required_size(), 3);
    calculator.push(&[4; 5], 16);
    assert_eq!(calculator.required_size(), 21);
    calculator.push(&[], 4);
    assert_eq!(calculator.required_size(), 24);
    calculator.push(&[9], 1);
    assert_eq!(calculator.required_size(), 25);
}

#[test]
fn push_buffer_pads_with_zeros() {
    let mut buffer = PushBuffer::new(0);
    let first = buffer.push(&[1, 2, 3], 16);
    assert_eq!((first.offset(), first.size()), (0, 3));
    let second = buffer.push(&[7, 8], 4);
    assert_eq!((second.offset(), second.size()), (4, 2));
    let third = buffer.push(&[5], 16);
    assert_eq!((third.offset(), third.size()), (16, 1));
    assert_eq!(buffer.len(), 17);
    let data = buffer.into_data();
    assert_eq!(data, vec![1, 2, 3, 0, 7, 8, 0, 0, 0, 0, 0, 0, 0, 0, 0, 0, 5]);
}

#[test]
fn size_calculator_matches_push_buffer() {
    let spans: Vec<(Vec<u8>, usize)> =
        vec![(vec![1; 5], 16), (vec![2; 17], 8), (vec![], 32), (vec![3; 1], 16), (vec![4; 40], 16)];
    let mut calculator = PushBufferSizeCalculator::new();
    let mut buffer = PushBuffer::new(0);
    for (data, alignment) in &spans {
        calculator.push(data, *alignment);
        let placed = buffer.push(data, *alignment);
        assert_eq!(placed.offset() % alignment, 0);
        assert_eq!(calculator.required_size(), buffer.len());
    }
}

#[test]
fn mesh_layout_places_each_part() {
    let asset = two_part_asset();
    let (data, infos) = layout_mesh_parts(&asset.mesh_parts);
    // part 0: indices at 0 (3 bytes), vertices at 16 (20 bytes) up to 36
    // part 1: indices at 48 (2 bytes), vertices at 64 (3 bytes) up to 67
    assert_eq!(data.len(), 67);
    assert_eq!(infos.len(), 2);
    assert_eq!(
        (infos[0].index_offset, infos[0].index_size, infos[0].vertex_offset, infos[0].vertex_size),
        (0, 3, 16, 20)
    );
    assert_eq!(
        (infos[1].index_offset, infos[1].index_size, infos[1].vertex_offset, infos[1].vertex_size),
        (48, 2, 64, 3)
    );
    assert_eq!(infos[1].material.0, [2; 16]);
    for (k, info) in infos.iter().enumerate() {
        let p = &asset.mesh_parts[k];
        let io = info.index_offset as usize;
        let vo = info.vertex_offset as usize;
        assert_eq!(&data[io..io + p.indices.len()], &p.indices[..]);
        assert_eq!(&data[vo..vo + p.vertices.len()], &p.vertices[..]);
        assert_eq!(io % 16, 0);
        assert_eq!(vo % 16, 0);
    }
    assert_eq!(&data[3..16], &[0u8; 13][..]);
    assert_eq!(&data[36..48], &[0u8; 12][..]);
}

#[test]
fn mesh_layout_of_empty_asset() {
    let (data, infos) = layout_mesh_parts(&Vec::new());
    assert!(data.is_empty());
    assert!(infos.is_empty());
}

#[test]
fn mesh_layout_size_matches_calculator() {
    let asset = two_part_asset();
    let mut calculator = PushBufferSizeCalculator::new();
    for p in &asset.mesh_parts {
        calculator.push(&p.indices, 16);
        calculator.push(&p.vertices, 16);
    }
    let (data, _) = layout_mesh_parts(&asset.mesh_parts);
    assert_eq!(calculator.required_size(), data.len());
}

#[test]
fn update_then_commit_returns_recorded_upload() {
    let mut handler: MeshLoadHandler<&'static str> = MeshLoadHandler::new();
    let asset = two_part_asset();
    let data = handler.update_asset(5, 1, &asset, "awaiter-5-1");
    assert_eq!(data.len(), 67);
    match handler.commit_asset_version(5, 1) {
        CommitStep::Committed(update) => {
            assert_eq!(update.awaiter, "awaiter-5-1");
            assert_eq!(update.mesh_parts.len(), 2);
            assert_eq!(update.mesh_parts[1].vertex_offset, 64);
        }
        _ => panic!("the upload was not pending"),
    }
    // committing again finds no such version, but the handle is still known
    assert!(matches!(handler.commit_asset_version(5, 1), CommitStep::UnknownVersion));
}

#[test]
fn commit_unknown_handle_and_version() {
    let mut handler: MeshLoadHandler<u32> = MeshLoadHandler::new();
    assert!(matches!(handler.commit_asset_version(1, 1), CommitStep::UnknownHandle));
    handler.update_asset(1, 2, &two_part_asset(), 12);
    assert!(matches!(handler.commit_asset_version(1, 3), CommitStep::UnknownVersion));
    assert!(matches!(handler.commit_asset_version(2, 2), CommitStep::UnknownHandle));
    assert!(matches!(handler.commit_asset_version(1, 2), CommitStep::Committed(_)));
}

#[test]
fn versions_are_kept_apart_and_replaced() {
    let mut handler: MeshLoadHandler<u32> = MeshLoadHandler::new();
    let asset = two_part_asset();
    handler.update_asset(9, 1, &asset, 100);
    handler.update_asset(9, 2, &asset, 200);
    handler.update_asset(9, 1, &asset, 101);
    handler.update_asset(8, 1, &asset, 800);
    match handler.commit_asset_version(9, 1) {
        CommitStep::Committed(update) => assert_eq!(update.awaiter, 101),
        _ => panic!("version 1 missing"),
    }
    match handler.commit_asset_version(9, 2) {
        CommitStep::Committed(update) => assert_eq!(update.awaiter, 200),
        _ => panic!("version 2 missing"),
    }
    match handler.commit_asset_version(8, 1) {
        CommitStep::Committed(update) => assert_eq!(update.awaiter, 800),
        _ => panic!("other handle missing"),
    }
}

#[test]
fn free_forgets_all_versions_of_handle() {
    let mut handler: MeshLoadHandler<u32> = MeshLoadHandler::new();
    let asset = two_part_asset();
    handler.update_asset(3, 1, &asset, 1);
    handler.update_asset(3, 2, &asset, 2);
    handler.update_asset(4, 1, &asset, 3);
    handler.free(3);
    assert!(matches!(handler.commit_asset_version(3, 1), CommitStep::UnknownHandle));
    assert!(matches!(handler.commit_asset_version(3, 2), CommitStep::UnknownHandle));
    assert!(matches!(handler.commit_asset_version(4, 1), CommitStep::Committed(_)));
    // freeing an unknown handle does nothing
    handler.free(42);
}

#[test]
fn completed_upload_becomes_mesh_update() {
    let (_, infos) = layout_mesh_parts(&two_part_asset().mesh_parts);
    let update = complete_mesh_update(infos, BufferUploadOpResult::UploadComplete("buffer"), 77u32);
    assert_eq!(update.meshes.len(), 1);
    assert_eq!(update.meshes[0].buffer, "buffer");
    assert_eq!(update.meshes[0].mesh_parts.len(), 2);
    assert_eq!(update.resource_handles, vec![77]);
}

#[test]
fn mesh_size_fits_for_ordinary_assets() {
    assert!(mesh_size_fits(&two_part_asset()));
    assert!(mesh_size_fits(&MeshAsset { mesh_parts: Vec::new() }));
}

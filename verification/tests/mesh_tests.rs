use rustcraft::mesh::{
    background_indices, face_indices, BlockFace, BlockModel, SwapchainStep, SWAPCHAIN_ATTEMPTS, should_cull, BlockDraw, Chunk, RenderSystem, ViewableDirectionBitMap,
};

#[test]
fn only_hidden_edge_faces_are_culled() {
    assert!(should_cull(true, false));
    assert!(!should_cull(true, true));
    assert!(!should_cull(false, false));
    assert!(!should_cull(false, true));
}

#[test]
fn face_winding_depends_on_normal() {
    assert_eq!(face_indices(8, ViewableDirectionBitMap::Top), [8, 10, 9, 8, 11, 10]);
    assert_eq!(face_indices(8, ViewableDirectionBitMap::Back), [8, 10, 9, 8, 11, 10]);
    assert_eq!(face_indices(8, ViewableDirectionBitMap::Left), [8, 10, 9, 8, 11, 10]);
    assert_eq!(face_indices(4, ViewableDirectionBitMap::Bottom), [4, 5, 6, 4, 6, 7]);
    assert_eq!(face_indices(4, ViewableDirectionBitMap::Front), [4, 5, 6, 4, 6, 7]);
    assert_eq!(face_indices(0, ViewableDirectionBitMap::Right), [0, 1, 2, 0, 2, 3]);
}

#[test]
fn background_indices_two_triangles_per_band() {
    assert_eq!(background_indices(0), Vec::<u16>::new());
    assert_eq!(background_indices(2), vec![0, 1, 2, 1, 2, 3, 4, 5, 6, 5, 6, 7]);
}

#[test]
fn mesh_lists_non_air_blocks_in_x_z_y_order() {
    // world[x][y][z], 2 wide, 2 high, 2 deep
    let world = vec![
        vec![vec![1, 0], vec![0, 2]],
        vec![vec![0, 0], vec![3, 1]],
    ];
    let mut chunk = Chunk { world, blocks: vec!["dirt", "stone", "sand"], draw_list: None };
    chunk.generate_mesh();
    let draws = chunk.draw_list.unwrap();
    assert_eq!(
        draws,
        vec![
            BlockDraw { x: 0, y: 0, z: 0, block: 0 },
            BlockDraw { x: 0, y: 1, z: 1, block: 1 },
            BlockDraw { x: 1, y: 1, z: 0, block: 2 },
            BlockDraw { x: 1, y: 1, z: 1, block: 0 },
        ]
    );
}

#[test]
fn mesh_of_empty_chunk_is_empty() {
    let mut chunk: Chunk<u8> = Chunk { world: vec![], blocks: vec![], draw_list: None };
    chunk.generate_mesh();
    assert_eq!(chunk.draw_list, Some(vec![]));
    let mut air: Chunk<u8> = Chunk { world: vec![vec![vec![0; 3]; 2]; 2], blocks: vec![], draw_list: None };
    air.generate_mesh();
    assert_eq!(air.draw_list, Some(vec![]));
}

#[test]
fn opaque_chunks_front_to_back_translucent_back_to_front() {
    let models = vec![(true, false), (false, true), (true, true), (false, false), (true, true)];
    let (opaque, translucent) = RenderSystem::chunk_draw_order(&models);
    assert_eq!(opaque, vec![0, 2, 4]);
    assert_eq!(translucent, vec![4, 2, 1]);
    let (opaque, translucent) = RenderSystem::chunk_draw_order(&vec![]);
    assert!(opaque.is_empty() && translucent.is_empty());
}

fn cube() -> BlockModel {
    let dirs = [
        ViewableDirectionBitMap::Top,
        ViewableDirectionBitMap::Bottom,
        ViewableDirectionBitMap::Left,
        ViewableDirectionBitMap::Right,
        ViewableDirectionBitMap::Front,
        ViewableDirectionBitMap::Back,
    ];
    BlockModel { faces: dirs.iter().map(|d| BlockFace { normal: *d, edge: true }).collect() }
}

#[test]
fn model_draws_only_viewable_edge_faces_with_running_offsets() {
    let mut indices = vec![7u16];
    let viewable = [true, false, false, false, true, false];
    let next = cube().draw(viewable, 4, &mut indices);
    assert_eq!(next, 12);
    assert_eq!(indices, vec![7, 4, 6, 5, 4, 7, 6, 8, 9, 10, 8, 10, 11]);
}

#[test]
fn model_draws_every_face_when_all_are_viewable() {
    let mut indices = Vec::new();
    let next = cube().draw([true; 6], 0, &mut indices);
    assert_eq!(next, 24);
    assert_eq!(indices.len(), 36);
    assert_eq!(&indices[30..36], &[20, 22, 21, 20, 23, 22]);
    assert!(indices.iter().all(|i| *i < 24));
}

#[test]
fn inner_faces_are_never_culled() {
    let model = BlockModel { faces: vec![BlockFace { normal: ViewableDirectionBitMap::Bottom, edge: false }] };
    let mut indices = Vec::new();
    let next = model.draw([false; 6], 100, &mut indices);
    assert_eq!(next, 104);
    assert_eq!(indices, vec![100, 101, 102, 100, 102, 103]);
}

#[test]
fn swapchain_is_tried_twenty_times() {
    assert_eq!(SWAPCHAIN_ATTEMPTS, 20);
    assert_eq!(RenderSystem::swapchain_step(0, true), SwapchainStep::Use);
    assert_eq!(RenderSystem::swapchain_step(19, true), SwapchainStep::Use);
    assert_eq!(RenderSystem::swapchain_step(0, false), SwapchainStep::WaitAndRetry);
    assert_eq!(RenderSystem::swapchain_step(18, false), SwapchainStep::WaitAndRetry);
    assert_eq!(RenderSystem::swapchain_step(19, false), SwapchainStep::WaitAndGiveUp);
}

use rustcraft::textures::{
    assign_texture_ids, atlas_height, compose_atlas, index_of, invalid_texture, TextureImage,
    ATLAS_WIDTH, TEXTURE_SIZE,
};

#[test]
fn index_of_finds_first_match() {
    let names = vec!["dirt", "stone", "dirt"];
    assert_eq!(index_of(&names, "dirt"), Some(0));
    assert_eq!(index_of(&names, "stone"), Some(1));
    assert_eq!(index_of(&names, "sand"), None);
    assert_eq!(index_of(&vec![], "sand"), None);
}

#[test]
fn texture_ids_follow_first_appearance() {
    let grass = [
        "textures/block/grass_block_top",
        "textures/block/grass_block_side",
        "textures/block/grass_block_side",
        "textures/block/grass_block_side",
        "textures/block/grass_block_side",
        "textures/block/dirt",
    ];
    let dirt = ["textures/block/dirt"; 6];
    let stone = ["textures/block/stone"; 6];
    let (names, ids) = assign_texture_ids(&vec![grass, dirt, stone]);
    assert_eq!(
        names,
        vec![
            "textures/block/grass_block_top",
            "textures/block/grass_block_side",
            "textures/block/dirt",
            "textures/block/stone"
        ]
    );
    assert_eq!(ids, vec![[0, 1, 1, 1, 1, 2], [2; 6], [3; 6]]);
}

#[test]
fn texture_ids_point_at_the_block_names() {
    let blocks = vec![["a", "b", "a", "c", "b", "d"], ["d", "e", "a", "a", "f", "b"]];
    let (names, ids) = assign_texture_ids(&blocks);
    for (b, block) in blocks.iter().enumerate() {
        for k in 0..6 {
            assert_eq!(names[ids[b][k] as usize], block[k]);
        }
    }
    let mut sorted = names.clone();
    sorted.sort();
    sorted.dedup();
    assert_eq!(sorted.len(), names.len());
}

#[test]
fn atlas_height_rounds_up() {
    assert_eq!(atlas_height(0), 0);
    assert_eq!(atlas_height(1), 1);
    assert_eq!(atlas_height(4), 1);
    assert_eq!(atlas_height(5), 2);
    assert_eq!(atlas_height(9), 3);
}

#[test]
fn invalid_texture_is_a_checkerboard() {
    let purple = [255, 0, 255, 255];
    let black = [0, 0, 0, 255];
    assert_eq!(invalid_texture(0, 0, 16), purple);
    assert_eq!(invalid_texture(7, 7, 16), purple);
    assert_eq!(invalid_texture(8, 0, 16), black);
    assert_eq!(invalid_texture(0, 8, 16), black);
    assert_eq!(invalid_texture(8, 8, 16), purple);
    assert_eq!(invalid_texture(15, 15, 16), purple);
    assert_eq!(invalid_texture(3, 3, 0), black);
}

fn solid(colour: [u8; 4], size: u32) -> TextureImage {
    TextureImage { width: size, height: size, pixels: vec![colour; (size * size) as usize] }
}

#[test]
fn compose_atlas_places_textures_in_rows() {
    let red = [255, 0, 0, 255];
    let green = [0, 255, 0, 255];
    let mut gradient = solid(red, 16);
    gradient.pixels[3 * 16 + 5] = [1, 2, 3, 4];
    let images = vec![Some(gradient), None, Some(solid(green, 16)), Some(solid(red, 16)), Some(solid(green, 16))];
    let atlas = compose_atlas(&images);
    let width = (TEXTURE_SIZE * ATLAS_WIDTH) as usize;
    assert_eq!(atlas.len(), width * 32);
    let at = |x: usize, y: usize| atlas[y * width + x];
    assert_eq!(at(0, 0), red);
    assert_eq!(at(5, 3), [1, 2, 3, 4]);
    assert_eq!(at(16, 0), [255, 0, 255, 255]);
    assert_eq!(at(24, 0), [0, 0, 0, 255]);
    assert_eq!(at(40, 10), green);
    assert_eq!(at(50, 15), red);
    assert_eq!(at(3, 20), green);
    assert_eq!(at(20, 20), [255, 255, 0, 1]);
    assert_eq!(at(63, 31), [255, 255, 0, 1]);
}

#[test]
fn compose_atlas_reads_corner_of_larger_textures() {
    let mut big = solid([9, 9, 9, 9], 32);
    big.pixels[1 * 32 + 17] = [7, 7, 7, 7];
    big.pixels[1 * 32 + 1] = [5, 5, 5, 5];
    let atlas = compose_atlas(&vec![Some(big)]);
    assert_eq!(atlas[1 * 64 + 1], [5, 5, 5, 5]);
    assert!(!atlas.contains(&[7, 7, 7, 7]));
}

#[test]
fn texture_ids_are_what_index_of_finds() {
    let blocks = vec![["x", "y", "z", "x", "w", "y"], ["w", "w", "v", "x", "x", "x"]];
    let (names, ids) = assign_texture_ids(&blocks);
    for (b, block) in blocks.iter().enumerate() {
        for k in 0..6 {
            assert_eq!(index_of(&names, block[k]), Some(ids[b][k]));
        }
    }
}

#[test]
fn every_texture_fills_its_atlas_cell() {
    let images: Vec<Option<TextureImage>> = (0..6u8)
        .map(|i| {
            let mut img = solid([i, i, i, 255], 16);
            img.pixels[2 * 16 + 9] = [i, 100, 0, 255];
            Some(img)
        })
        .collect();
    let atlas = compose_atlas(&images);
    for i in 0..6usize {
        let x = 16 * (i % 4) + 9;
        let y = 16 * (i / 4) + 2;
        assert_eq!(atlas[y * 64 + x], [i as u8, 100, 0, 255]);
        assert_eq!(atlas[(y + 1) * 64 + x], [i as u8, i as u8, i as u8, 255]);
    }
}

#[test]
fn atlas_height_follows_f32_rounding_of_large_counts() {
    assert_eq!(atlas_height(16_777_216), 4_194_304);
    assert_eq!(atlas_height(16_777_219), 4_194_305);
    assert_eq!(atlas_height(16_777_221), 4_194_305);
    for n in [0usize, 3, 1_000, 16_777_215, 16_777_217, 16_777_221, 33_554_439, 100_000_007, 0x4000_0000] {
        assert_eq!(atlas_height(n), (n as f32 / 4.0).ceil() as u32);
    }
}

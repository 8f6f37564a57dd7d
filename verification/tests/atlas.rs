use cubo::atlas::{atlas_pixels, create_texture_atlas, ATLAS_HEIGHT, ATLAS_WIDTH, CELL_SIZE};

/// The color table of the atlas grid, keyed by (column, row).
fn expected_cell_color(cx: u32, cy: u32) -> [u8; 4] {
    match (cx, cy) {
        (0, 0) => [255, 100, 100, 255],
        (1, 0) => [100, 255, 100, 255],
        (2, 0) => [100, 100, 255, 255],
        (3, 0) => [255, 255, 100, 255],
        (0, 1) => [255, 100, 255, 255],
        (1, 1) => [100, 255, 255, 255],
        _ => [255, 255, 255, 255],
    }
}

fn pixel_of(pixels: &[u8], x: u32, y: u32) -> [u8; 4] {
    let base = (4 * (ATLAS_WIDTH * y + x)) as usize;
    [pixels[base], pixels[base + 1], pixels[base + 2], pixels[base + 3]]
}

#[test]
fn atlas_generation_is_deterministic() {
    let first = create_texture_atlas();
    let second = create_texture_atlas();
    assert_eq!(first, second);
}

#[test]
fn atlas_pixels_have_expected_size() {
    let pixels = atlas_pixels();
    assert_eq!(pixels.len(), (ATLAS_WIDTH * ATLAS_HEIGHT * 4) as usize);
}

#[test]
fn atlas_pixels_follow_cell_color_table() {
    let pixels = atlas_pixels();
    for y in 0..ATLAS_HEIGHT {
        for x in 0..ATLAS_WIDTH {
            let expected = expected_cell_color(x / CELL_SIZE, y / CELL_SIZE);
            assert_eq!(pixel_of(&pixels, x, y), expected, "pixel ({}, {})", x, y);
        }
    }
}

#[test]
fn atlas_cell_boundaries_are_sharp() {
    let pixels = atlas_pixels();
    // Last pixel of the front cell, first pixels of its neighbors.
    assert_eq!(pixel_of(&pixels, 63, 63), [255, 100, 100, 255]);
    assert_eq!(pixel_of(&pixels, 64, 0), [100, 255, 100, 255]);
    assert_eq!(pixel_of(&pixels, 0, 64), [255, 100, 255, 255]);
    assert_eq!(pixel_of(&pixels, 127, 127), [100, 255, 255, 255]);
    assert_eq!(pixel_of(&pixels, 255, 127), [255, 255, 255, 255]);
    assert_eq!(pixel_of(&pixels, 255, 0), [255, 255, 100, 255]);
    assert_eq!(pixel_of(&pixels, 128, 127), [255, 255, 255, 255]);
    assert_eq!(pixel_of(&pixels, 255, 64), [255, 255, 255, 255]);
}

#[test]
fn atlas_png_decodes_back_to_generated_pixels() {
    let bytes = create_texture_atlas();
    let decoded = image::load_from_memory(&bytes).expect("generated atlas must decode");
    let rgba = decoded.to_rgba8();
    assert_eq!(rgba.dimensions(), (ATLAS_WIDTH, ATLAS_HEIGHT));
    assert_eq!(rgba.into_raw(), atlas_pixels());
}

use cubo::atlas::{atlas_pixels, create_texture_atlas, ATLAS_HEIGHT, ATLAS_WIDTH};
use cubo::texture::{create_or_load_texture, load_texture_from_bytes, TextureError};

#[test]
fn fallback_matches_generator_output() {
    let loaded = create_or_load_texture(None).expect("fallback always succeeds");
    assert_eq!(loaded.image.width, ATLAS_WIDTH);
    assert_eq!(loaded.image.height, ATLAS_HEIGHT);
    assert_eq!(loaded.image.pixels, atlas_pixels());
    // The freshly generated bytes are handed back for persisting, and
    // decoding them directly gives the very same pixels.
    let generated = loaded.generated_png.expect("fallback hands back the generated bytes");
    assert_eq!(generated, create_texture_atlas());
    let direct = image::load_from_memory(&generated).expect("generated atlas must decode");
    assert_eq!(direct.to_rgba8().into_raw(), loaded.image.pixels);
}

#[test]
fn supplied_file_bytes_are_decoded() {
    let bytes = create_texture_atlas();
    let loaded = create_or_load_texture(Some(bytes)).expect("valid image bytes must decode");
    assert_eq!(loaded.image.width, ATLAS_WIDTH);
    assert_eq!(loaded.image.height, ATLAS_HEIGHT);
    assert_eq!(loaded.image.pixels, atlas_pixels());
    assert!(loaded.generated_png.is_none());
}

#[test]
fn corrupt_file_bytes_are_a_fatal_error() {
    let result = create_or_load_texture(Some(vec![1, 2, 3, 4]));
    assert!(matches!(result, Err(TextureError::DecodeFailed)));
}

#[test]
fn empty_file_bytes_are_a_fatal_error() {
    let result = create_or_load_texture(Some(Vec::new()));
    assert!(matches!(result, Err(TextureError::DecodeFailed)));
}

#[test]
fn loader_decodes_an_externally_encoded_png() {
    // A 2 x 1 image encoded by the image crate itself, independently
    // of the library's own encoder.
    let pixels: Vec<u8> = vec![10, 20, 30, 255, 40, 50, 60, 255];
    let img = image::RgbaImage::from_raw(2, 1, pixels.clone()).unwrap();
    let mut bytes: Vec<u8> = Vec::new();
    img.write_to(
        &mut std::io::Cursor::new(&mut bytes),
        image::ImageOutputFormat::Png,
    )
    .unwrap();

    let decoded = load_texture_from_bytes(&bytes).expect("png bytes must decode");
    assert_eq!(decoded.width, 2);
    assert_eq!(decoded.height, 1);
    assert_eq!(decoded.pixels, pixels);
}

#[test]
fn loader_decodes_an_externally_encoded_jpeg() {
    // JPEG carries no alpha channel; the loader converts the decoded
    // image to RGBA with opaque alpha.
    let img = image::RgbImage::from_raw(4, 2, vec![200; 24]).unwrap();
    let mut bytes: Vec<u8> = Vec::new();
    img.write_to(
        &mut std::io::Cursor::new(&mut bytes),
        image::ImageOutputFormat::Jpeg(90),
    )
    .unwrap();

    let decoded = load_texture_from_bytes(&bytes).expect("jpeg bytes must decode");
    assert_eq!(decoded.width, 4);
    assert_eq!(decoded.height, 2);
    assert_eq!(decoded.pixels.len(), 4 * 2 * 4);
    for pixel in decoded.pixels.chunks(4) {
        assert_eq!(pixel[3], 255);
    }
}

#[test]
fn loader_rejects_truncated_png() {
    let mut bytes = create_texture_atlas();
    bytes.truncate(bytes.len() / 2);
    assert!(matches!(
        load_texture_from_bytes(&bytes),
        Err(TextureError::DecodeFailed)
    ));
}

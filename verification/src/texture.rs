//! Loading the texture: decode supplied file bytes, or fall back to
//! the generated atlas when no file could be read.

use crate::atlas::{atlas_pixels_spec, create_texture_atlas, ATLAS_HEIGHT, ATLAS_WIDTH};
use crate::codec::{decode_rgba, decoded_rgba_of, png_bytes_of, TextureImage};
use vstd::prelude::*;

verus! {

/// Why a texture could not be produced.
#[derive(Clone, Copy, Debug, PartialEq, Eq, Structural)]
pub enum TextureError {
    /// The bytes were not a decodable image. This is fatal: there is
    /// no further fallback, since the generated atlas always decodes.
    DecodeFailed,
}

/// Decodes image bytes into an RGBA8 texture. Returns the decoded
/// pixels and dimensions exactly when the bytes are a decodable
/// image, and `DecodeFailed` otherwise.
pub fn load_texture_from_bytes(bytes: &Vec<u8>) -> (result: Result<TextureImage, TextureError>)
    ensures
        result matches Ok(img) ==> decoded_rgba_of(bytes@) == Some(
            (img.pixels@, img.width, img.height),
        ),
        result matches Ok(img) ==> img.wf(),
        result is Ok <==> decoded_rgba_of(bytes@) is Some,
        result matches Err(e) ==> e == TextureError::DecodeFailed,
{
    match decode_rgba(bytes) {
        Ok(img) => Ok(img),
        Err(_) => Err(TextureError::DecodeFailed),
    }
}

/// A texture ready for upload, together with the freshly generated
/// PNG bytes when the fallback was taken, so the caller can persist
/// them; whether that persisting succeeds has no bearing on the
/// pixels returned here.
pub struct LoadedTexture {
    pub image: TextureImage,
    pub generated_png: Option<Vec<u8>>,
}

/// Produces the startup texture from the bytes read at the texture
/// path, if any.
///
/// With file bytes, they are decoded and nothing is generated; bytes
/// that decode as no supported image are a fatal error. With none,
/// the atlas is generated, handed back for persisting, and decoded:
/// this always succeeds, and the pixels equal the decoding of the
/// generator's direct output — the fixed atlas pixel buffer.
pub fn create_or_load_texture(file_bytes: Option<Vec<u8>>) -> (result: Result<
    LoadedTexture,
    TextureError,
>)
    ensures
        file_bytes matches Some(b) ==> {
            &&& result matches Ok(t) ==> decoded_rgba_of(b@) == Some(
                (t.image.pixels@, t.image.width, t.image.height),
            ) && t.image.wf() && t.generated_png is None
            &&& result is Ok <==> decoded_rgba_of(b@) is Some
            &&& result matches Err(e) ==> e == TextureError::DecodeFailed
        },
        file_bytes is None ==> {
            &&& result matches Ok(t) ==> {
                &&& t.image.pixels@ == atlas_pixels_spec()
                &&& t.image.width == ATLAS_WIDTH
                &&& t.image.height == ATLAS_HEIGHT
                &&& t.image.wf()
                &&& t.generated_png matches Some(g) && g@ == png_bytes_of(
                    atlas_pixels_spec(),
                    ATLAS_WIDTH,
                    ATLAS_HEIGHT,
                )
            }
            &&& result is Ok
        },
{
    match file_bytes {
        Some(bytes) => match load_texture_from_bytes(&bytes) {
            Ok(image) => Ok(LoadedTexture { image, generated_png: None }),
            Err(e) => Err(e),
        },
        None => {
            let generated = create_texture_atlas();
            match load_texture_from_bytes(&generated) {
                Ok(image) => Ok(LoadedTexture { image, generated_png: Some(generated) }),
                Err(e) => Err(e),
            }
        },
    }
}

} // verus!

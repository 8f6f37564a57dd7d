//! The trusted boundary to the `image` crate: encoding an RGBA pixel
//! buffer as PNG bytes, and decoding image bytes back into an RGBA
//! pixel buffer.
//!
//! Both directions are deterministic functions of their input, so the
//! byte sequences they produce are given names (`png_bytes_of`,
//! `decoded_rgba_of`) that the rest of the library reasons with.

use vstd::prelude::*;

verus! {

/// The PNG encoding of an RGBA8 pixel buffer with the given
/// dimensions, as produced by the `image` crate's PNG encoder. The
/// encoder draws on nothing but its input, so this is a function of
/// the pixels and dimensions alone.
pub uninterp spec fn png_bytes_of(pixels: Seq<u8>, width: u32, height: u32) -> Seq<u8>;

/// What the `image` crate decodes the given bytes to, converted to
/// 8-bit RGBA: the pixel buffer and the dimensions, or nothing when
/// the bytes are not a decodable image. Decoding draws on nothing but
/// the bytes, so this is a function of them alone.
pub uninterp spec fn decoded_rgba_of(bytes: Seq<u8>) -> Option<(Seq<u8>, u32, u32)>;

/// A decoded texture: its pixels in row-major RGBA8 order and its
/// dimensions in pixels.
#[derive(Debug, PartialEq, Eq)]
pub struct TextureImage {
    pub pixels: Vec<u8>,
    pub width: u32,
    pub height: u32,
}

impl TextureImage {
    /// The pixel buffer holds exactly four bytes per pixel.
    pub open spec fn wf(self) -> bool {
        self.pixels@.len() == self.width * self.height * 4
    }
}

#[verifier::external_type_specification]
#[verifier::external_body]
pub struct ExImageError(image::ImageError);

/// Relies on `image::RgbaImage::write_to` with the PNG output format:
/// it encodes the RGBA8 buffer deterministically, and PNG is
/// lossless, so decoding the produced bytes yields back exactly the
/// encoded pixels and dimensions. The size bound keeps the decoded
/// image within the decoder's default allocation limit, so the round
/// trip is owed on every admitted input.
#[verifier::external_body]
pub(crate) fn encode_rgba_png(pixels: &Vec<u8>, width: u32, height: u32) -> (bytes: Vec<u8>)
    requires
        0 < width,
        0 < height,
        pixels@.len() == width * height * 4,
        width * height * 4 < 0x20000000,
    ensures
        bytes@ == png_bytes_of(pixels@, width, height),
        decoded_rgba_of(bytes@) == Some((pixels@, width, height)),
{
    let img: image::RgbaImage = image::RgbaImage::from_raw(width, height, pixels.clone()).unwrap();
    let mut out: Vec<u8> = Vec::new();
    img.write_to(&mut std::io::Cursor::new(&mut out), image::ImageOutputFormat::Png).unwrap();
    out
}

/// Relies on `image::load_from_memory` followed by
/// `DynamicImage::to_rgba8`: it decodes the bytes in any supported
/// format, within the decoder's default limits, and converts the
/// result to an 8-bit RGBA buffer of four bytes per pixel. Bytes it
/// does not decode — ones no format accepts, or an image beyond
/// those limits — are reported as an error.
#[verifier::external_body]
pub(crate) fn decode_rgba(bytes: &Vec<u8>) -> (decoded: Result<TextureImage, image::ImageError>)
    ensures
        decoded matches Ok(img) ==> decoded_rgba_of(bytes@) == Some(
            (img.pixels@, img.width, img.height),
        ),
        decoded matches Ok(img) ==> img.wf(),
        decoded is Err ==> decoded_rgba_of(bytes@) is None,
{
    match image::load_from_memory(bytes.as_slice()) {
        Ok(dynamic) => {
            let rgba = dynamic.to_rgba8();
            let (width, height) = rgba.dimensions();
            Ok(TextureImage { pixels: rgba.into_raw(), width, height })
        },
        Err(e) => Err(e),
    }
}

} // verus!

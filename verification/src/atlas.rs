//! The texture atlas: a fixed 256 x 128 image divided into a 4 x 2 grid
//! of solid-color cells, one cell per cube face.

use crate::codec::{decoded_rgba_of, encode_rgba_png, png_bytes_of};
use vstd::prelude::*;

verus! {

/// Width of the atlas in pixels.
pub const ATLAS_WIDTH: u32 = 256;

/// Height of the atlas in pixels.
pub const ATLAS_HEIGHT: u32 = 128;

/// Side length of one grid cell in pixels (the atlas is 4 cells wide
/// and 2 cells tall, and both 256 / 4 and 128 / 2 equal 64).
pub const CELL_SIZE: u32 = 64;

/// An RGBA color with 8-bit channels.
#[derive(Clone, Copy, Debug, PartialEq, Eq, Structural)]
pub struct Color {
    pub r: u8,
    pub g: u8,
    pub b: u8,
    pub a: u8,
}

/// The solid color of the atlas cell in column `cx`, row `cy`.
///
/// The six used cells are, in order: front (red), back (green),
/// top (blue), bottom (yellow), right (magenta), left (cyan);
/// the two unused cells are white.
pub open spec fn atlas_cell_color(cx: int, cy: int) -> Color {
    if cy == 0 {
        if cx == 0 {
            Color { r: 255, g: 100, b: 100, a: 255 }
        } else if cx == 1 {
            Color { r: 100, g: 255, b: 100, a: 255 }
        } else if cx == 2 {
            Color { r: 100, g: 100, b: 255, a: 255 }
        } else {
            Color { r: 255, g: 255, b: 100, a: 255 }
        }
    } else {
        if cx == 0 {
            Color { r: 255, g: 100, b: 255, a: 255 }
        } else if cx == 1 {
            Color { r: 100, g: 255, b: 255, a: 255 }
        } else {
            Color { r: 255, g: 255, b: 255, a: 255 }
        }
    }
}

/// The color of the atlas pixel at `(x, y)`: the color of the cell
/// that contains the pixel.
pub open spec fn atlas_pixel_color(x: int, y: int) -> Color {
    atlas_cell_color(x / 64, y / 64)
}

/// Returns the solid color of the atlas cell in column `cx`, row `cy`.
pub fn cell_color(cx: u32, cy: u32) -> (c: Color)
    ensures
        c == atlas_cell_color(cx as int, cy as int),
{
    if cy == 0 {
        if cx == 0 {
            Color { r: 255, g: 100, b: 100, a: 255 }
        } else if cx == 1 {
            Color { r: 100, g: 255, b: 100, a: 255 }
        } else if cx == 2 {
            Color { r: 100, g: 100, b: 255, a: 255 }
        } else {
            Color { r: 255, g: 255, b: 100, a: 255 }
        }
    } else {
        if cx == 0 {
            Color { r: 255, g: 100, b: 255, a: 255 }
        } else if cx == 1 {
            Color { r: 100, g: 255, b: 255, a: 255 }
        } else {
            Color { r: 255, g: 255, b: 255, a: 255 }
        }
    }
}

/// Channel `k` of a color, in the byte order of an RGBA8 buffer.
pub open spec fn color_channel(c: Color, k: int) -> u8 {
    if k == 0 {
        c.r
    } else if k == 1 {
        c.g
    } else if k == 2 {
        c.b
    } else {
        c.a
    }
}

/// Byte `i` of the atlas pixel buffer: the buffer is row-major with
/// four bytes per pixel, so byte `i` belongs to pixel `i / 4`, which
/// sits at column `(i / 4) % 256` of row `(i / 4) / 256`.
pub open spec fn atlas_byte(i: int) -> u8 {
    color_channel(atlas_pixel_color((i / 4) % 256, (i / 4) / 256), i % 4)
}

/// The full atlas pixel buffer: 256 x 128 pixels, four bytes each.
pub open spec fn atlas_pixels_spec() -> Seq<u8> {
    Seq::new(131072, |i: int| atlas_byte(i))
}

/// The color of pixel `(x, y)` in a row-major RGBA8 buffer that is
/// 256 pixels wide.
pub open spec fn pixel_at(s: Seq<u8>, x: int, y: int) -> Color {
    Color {
        r: s[4 * (256 * y + x)],
        g: s[4 * (256 * y + x) + 1],
        b: s[4 * (256 * y + x) + 2],
        a: s[4 * (256 * y + x) + 3],
    }
}

/// The four bytes of pixel `(x, y)` of the atlas buffer are the four
/// channels of that pixel's cell color.
proof fn lemma_pixel_byte_decomposition(x: int, y: int)
    requires
        0 <= x < 256,
        0 <= y < 128,
    ensures
        atlas_byte(4 * (256 * y + x)) == atlas_pixel_color(x, y).r,
        atlas_byte(4 * (256 * y + x) + 1) == atlas_pixel_color(x, y).g,
        atlas_byte(4 * (256 * y + x) + 2) == atlas_pixel_color(x, y).b,
        atlas_byte(4 * (256 * y + x) + 3) == atlas_pixel_color(x, y).a,
{
    let m = 256 * y + x;
    lemma_multiple_offset(m, 0, 4);
    lemma_multiple_offset(m, 1, 4);
    lemma_multiple_offset(m, 2, 4);
    lemma_multiple_offset(m, 3, 4);
    lemma_multiple_offset(y, x, 256);
}

/// Dividing `d * q + r` by `d` gives quotient `q` and remainder `r`
/// whenever `0 <= r < d`.
proof fn lemma_multiple_offset(q: int, r: int, d: int)
    requires
        0 <= q,
        0 <= r < d,
    ensures
        (d * q + r) / d == q,
        (d * q + r) % d == r,
{
    vstd::arithmetic::div_mod::lemma_div_multiples_vanish_fancy(q, r, d);
    vstd::arithmetic::div_mod::lemma_mod_multiples_vanish(q, r, d);
    vstd::arithmetic::div_mod::lemma_small_mod(r as nat, d as nat);
}

/// Builds the atlas pixel buffer. Every pixel `(x, y)` carries the
/// color of the grid cell `(x / 64, y / 64)` that contains it.
pub fn atlas_pixels() -> (pixels: Vec<u8>)
    ensures
        pixels@ == atlas_pixels_spec(),
        pixels@.len() == 131072,
        forall|x: int, y: int|
            0 <= x < 256 && 0 <= y < 128 ==> #[trigger] pixel_at(pixels@, x, y)
                == atlas_pixel_color(x, y),
{
    let mut pixels: Vec<u8> = Vec::new();
    let mut y: u32 = 0;
    while y < 128
        invariant
            y <= 128,
            pixels@.len() == 1024 * y,
            forall|i: int| 0 <= i < pixels@.len() ==> pixels@[i] == atlas_byte(i),
        decreases 128 - y,
    {
        let mut x: u32 = 0;
        while x < 256
            invariant
                y < 128,
                x <= 256,
                pixels@.len() == 1024 * y + 4 * x,
                forall|i: int| 0 <= i < pixels@.len() ==> pixels@[i] == atlas_byte(i),
            decreases 256 - x,
        {
            let c = cell_color(x / 64, y / 64);
            proof {
                lemma_pixel_byte_decomposition(x as int, y as int);
            }
            pixels.push(c.r);
            pixels.push(c.g);
            pixels.push(c.b);
            pixels.push(c.a);
            x = x + 1;
        }
        y = y + 1;
    }
    proof {
        assert(pixels@ =~= atlas_pixels_spec());
        assert forall|x: int, y: int|
            0 <= x < 256 && 0 <= y < 128 implies #[trigger] pixel_at(pixels@, x, y)
            == atlas_pixel_color(x, y) by {
            lemma_pixel_byte_decomposition(x, y);
        }
    }
    pixels
}

/// Generates the texture atlas as PNG bytes: the fixed 256 x 128
/// cell-colored pixel buffer, encoded losslessly. The result is a
/// function of nothing, so every generation yields the same bytes,
/// and decoding them yields back exactly the generated pixels.
pub fn create_texture_atlas() -> (bytes: Vec<u8>)
    ensures
        bytes@ == png_bytes_of(atlas_pixels_spec(), ATLAS_WIDTH, ATLAS_HEIGHT),
        decoded_rgba_of(bytes@) == Some((atlas_pixels_spec(), ATLAS_WIDTH, ATLAS_HEIGHT)),
{
    let pixels = atlas_pixels();
    encode_rgba_png(&pixels, ATLAS_WIDTH, ATLAS_HEIGHT)
}

/// Atlas color mapping: every pixel `(x, y)` of the atlas buffer
/// carries the color of the grid cell `(x / 64, y / 64)`, per the
/// fixed cell-color table.
pub proof fn lemma_atlas_color_mapping()
    ensures
        forall|x: int, y: int|
            0 <= x < 256 && 0 <= y < 128 ==> #[trigger] pixel_at(atlas_pixels_spec(), x, y)
                == atlas_pixel_color(x, y),
{
    assert forall|x: int, y: int|
        0 <= x < 256 && 0 <= y < 128 implies #[trigger] pixel_at(atlas_pixels_spec(), x, y)
        == atlas_pixel_color(x, y) by {
        lemma_pixel_byte_decomposition(x, y);
    }
}

/// Atlas determinism: the atlas pixel buffer is pinned to a single
/// sequence, so two generations with no intervening state agree byte
/// for byte (and so do their PNG encodings, which are a function of
/// this buffer alone).
pub proof fn lemma_atlas_pixels_deterministic(first: Seq<u8>, second: Seq<u8>)
    requires
        first == atlas_pixels_spec(),
        second == atlas_pixels_spec(),
    ensures
        first == second,
{
}

} // verus!

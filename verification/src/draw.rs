use crate::style::{Color, FloatBits, Point2};
use vstd::prelude::*;

verus! {

/// The difference `end - start` of two coordinates.
#[derive(Debug, Clone, Copy, PartialEq, Eq, Structural)]
pub struct Span {
    pub start: FloatBits,
    pub end: FloatBits,
}

/// A rectangle by its corner and its extent in both directions.
#[derive(Debug, Clone, Copy, PartialEq, Eq, Structural)]
pub struct Rect {
    pub x: FloatBits,
    pub y: FloatBits,
    pub w: Span,
    pub h: Span,
}

/// How to draw one sprite of the glyph texture: the part of the texture that it
/// shows, the pixel that its corner goes to, and its color. Everything else about
/// the sprite is as by default.
#[derive(Debug, Clone, Copy, PartialEq, Eq, Structural)]
pub struct DrawParam {
    pub src: Rect,
    pub dest: PixelPoint,
    pub color: Color,
}

/// A point in whole pixels.
#[derive(Debug, Clone, Copy, PartialEq, Eq, Structural)]
pub struct PixelPoint {
    pub x: i32,
    pub y: i32,
}

/// A glyph that a brush has placed.
#[derive(Debug, Clone, Copy)]
pub struct GlyphVertex {
    /// The corners of the glyph's image in the texture.
    pub tex_min: Point2,
    pub tex_max: Point2,
    /// The top left corner of the glyph on the screen.
    pub pixel_min: PixelPoint,
    /// Red, green, blue, alpha.
    pub color: [FloatBits; 4],
}

/// The sprite that shows a glyph.
pub fn to_vertex(v: GlyphVertex) -> (r: DrawParam)
    ensures
        r.src.x == v.tex_min.x,
        r.src.y == v.tex_min.y,
        r.src.w == (Span { start: v.tex_min.x, end: v.tex_max.x }),
        r.src.h == (Span { start: v.tex_min.y, end: v.tex_max.y }),
        r.dest == v.pixel_min,
        v.color@ == seq![r.color.r, r.color.g, r.color.b, r.color.a],
{
    let src = Rect {
        x: v.tex_min.x,
        y: v.tex_min.y,
        w: Span { start: v.tex_min.x, end: v.tex_max.x },
        h: Span { start: v.tex_min.y, end: v.tex_max.y },
    };
    let color = Color { r: v.color[0], g: v.color[1], b: v.color[2], a: v.color[3] };
    DrawParam { src, dest: v.pixel_min, color }
}

/// A rectangle of the glyph texture, in pixels.
#[derive(Debug, Clone, Copy, PartialEq, Eq, Structural)]
pub struct PixelRect {
    pub min_x: u32,
    pub min_y: u32,
    pub max_x: u32,
    pub max_y: u32,
}

/// New pixels for a part of the glyph texture.
#[derive(Debug)]
pub struct TextureUpdate {
    pub xoffset: u16,
    pub yoffset: u16,
    pub zoffset: u16,
    pub width: u16,
    pub height: u16,
    pub depth: u16,
    pub mipmap: u8,
    /// Red, green, blue, alpha.
    pub data: Vec<[u8; 4]>,
}

/// The lower sixteen bits of a number of pixels.
pub(crate) fn to_u16(n: u32) -> (r: u16)
    ensures
        r == n % 0x1_0000,
{
    assert((n as u16) as u32 == n % 0x1_0000) by (bit_vector);
    n as u16
}

/// The update that puts the coverage values `tex_data` into `rect` of the glyph
/// texture, as white pixels with the coverage for alpha.
pub fn update_texture(rect: PixelRect, tex_data: &[u8]) -> (r: TextureUpdate)
    requires
        rect.min_x <= rect.max_x,
        rect.min_y <= rect.max_y,
    ensures
        r.xoffset == rect.min_x % 0x1_0000,
        r.yoffset == rect.min_y % 0x1_0000,
        r.width == (rect.max_x - rect.min_x) % 0x1_0000,
        r.height == (rect.max_y - rect.min_y) % 0x1_0000,
        r.zoffset == 0,
        r.depth == 0,
        r.mipmap == 0,
        r.data@.len() == tex_data@.len(),
        forall|i: int|
            0 <= i < tex_data@.len() ==> (#[trigger] r.data@[i])@ == seq![
                255u8,
                255u8,
                255u8,
                tex_data@[i],
            ],
{
    let mut data: Vec<[u8; 4]> = Vec::with_capacity(tex_data.len());
    for i in 0..tex_data.len()
        invariant
            data@.len() == i,
            forall|j: int|
                0 <= j < i ==> (#[trigger] data@[j])@ == seq![255u8, 255u8, 255u8, tex_data@[j]],
    {
        data.push([255, 255, 255, tex_data[i]]);
    }
    TextureUpdate {
        xoffset: to_u16(rect.min_x),
        yoffset: to_u16(rect.min_y),
        zoffset: 0,
        width: to_u16(rect.max_x - rect.min_x),
        height: to_u16(rect.max_y - rect.min_y),
        depth: 0,
        mipmap: 0,
        data,
    }
}

} // verus!

use crate::context::{brush_fonts, brush_texture, GlyphContext};
use crate::draw::DrawParam;
use crate::font_file::{check_font_file, font_file_in_range};
use glyph_brush::GlyphBrush;
use vstd::prelude::*;
use vstd::slice::slice_to_vec;

verus! {

/// The number under which a glyph brush knows a font.
#[derive(Debug, Clone, Copy, PartialEq, Eq, Structural)]
pub struct FontId(pub usize);

impl Default for FontId {
    /// The first font of a brush.
    fn default() -> (r: FontId)
        ensures
            r == FontId(0),
    {
        FontId(0)
    }
}

/// A handle referring to a loaded Truetype font.
#[derive(Debug, Clone, Copy, PartialEq, Eq, Structural)]
pub struct Font {
    pub font_id: FontId,
}

impl Default for Font {
    /// The font that a brush was made with.
    fn default() -> (r: Font)
        ensures
            r == (Font { font_id: FontId(0) }),
    {
        Font { font_id: FontId(0) }
    }
}

/// Whether `glyph_brush::rusttype::Font::from_bytes` makes a font of a file.
pub uninterp spec fn font_parses(bytes: Seq<u8>) -> bool;

/// Calls `glyph_brush::rusttype::Font::from_bytes` and says whether it returned a
/// font. It panics on a file whose directory points outside of the file.
#[verifier::external_body]
fn parse_font(bytes: &[u8]) -> (r: bool)
    requires
        font_file_in_range(bytes@),
    ensures
        r == font_parses(bytes@),
{
    glyph_brush::rusttype::Font::from_bytes(bytes).is_ok()
}

/// Calls `glyph_brush::GlyphBrush::add_font_bytes`, which appends a font to those of
/// the brush and returns its index. It panics where the file does not parse. The
/// texture keeps its size.
#[verifier::external_body]
fn add_font_bytes(brush: &mut GlyphBrush<'static, DrawParam>, bytes: Vec<u8>) -> (r: usize)
    requires
        font_parses(bytes@),
    ensures
        r == brush_fonts(*old(brush)).len(),
        brush_fonts(*final(brush)) == brush_fonts(*old(brush)).push(bytes@),
        brush_texture(*final(brush)) == brush_texture(*old(brush)),
{
    brush.add_font_bytes(bytes).0
}

impl Font {
    /// Loads a new TrueType font from given bytes and into the `GlyphBrush` owned
    /// by the context.
    pub fn new_glyph_font_bytes(context: &mut GlyphContext, bytes: &[u8]) -> (r: Font)
        requires
            font_parses(bytes@),
        ensures
            r.font_id.0 == old(context).fonts().len(),
            final(context).fonts() == old(context).fonts().push(bytes@),
            final(context).texture() == old(context).texture(),
            final(context).glyph_cache == old(context).glyph_cache,
            final(context).glyph_state == old(context).glyph_state,
    {
        let v = slice_to_vec(bytes);
        let font_id = FontId(add_font_bytes(&mut context.glyph_brush, v));
        Font { font_id }
    }

    /// Loads a new TrueType font where the bytes hold one.
    pub fn try_new_glyph_font_bytes(context: &mut GlyphContext, bytes: &[u8]) -> (r: Option<Font>)
        ensures
            r is Some <==> font_file_in_range(bytes@) && font_parses(bytes@),
            r is None ==> *final(context) == *old(context),
            r matches Some(font) ==> {
                &&& font.font_id.0 == old(context).fonts().len()
                &&& final(context).fonts() == old(context).fonts().push(bytes@)
                &&& final(context).texture() == old(context).texture()
                &&& final(context).glyph_cache == old(context).glyph_cache
                &&& final(context).glyph_state == old(context).glyph_state
            },
    {
        if check_font_file(bytes) && parse_font(bytes) {
            Some(Font::new_glyph_font_bytes(context, bytes))
        } else {
            None
        }
    }
}

} // verus!

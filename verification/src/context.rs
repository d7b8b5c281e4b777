use crate::draw::{to_u16, DrawParam};
use crate::style::{Color, FloatBits, Point2};
use glyph_brush::GlyphBrush;
use vstd::prelude::*;

verus! {

/// `glyph_brush::GlyphBrush`: fonts, the queued sections, and the layout of the
/// glyph texture.
#[verifier::external_type_specification]
#[verifier::external_body]
#[verifier::reject_recursive_types(V)]
#[verifier::reject_recursive_types(H)]
pub struct ExGlyphBrush<'font, V: Clone + 'static, H>(GlyphBrush<'font, V, H>);

/// `glyph_brush::DefaultSectionHasher`: how a brush tells sections apart.
#[verifier::external_type_specification]
#[verifier::external_body]
pub struct ExDefaultSectionHasher(glyph_brush::DefaultSectionHasher);

/// The files of the fonts of a brush, each at the index that is its `FontId`.
pub uninterp spec fn brush_fonts(brush: GlyphBrush<'static, DrawParam>) -> Seq<Seq<u8>>;

/// The width and height in pixels of the texture that a brush lays glyphs out in.
pub uninterp spec fn brush_texture(brush: GlyphBrush<'static, DrawParam>) -> (u32, u32);

/// The size of a texture.
#[derive(Debug, Clone, Copy, PartialEq, Eq, Structural)]
pub struct TextureSize {
    pub width: u16,
    pub height: u16,
}

/// What the drawing of text keeps from frame to frame.
pub struct GlyphContext {
    /// Lays glyphs out, on the screen and in the texture.
    pub glyph_brush: GlyphBrush<'static, DrawParam>,
    /// The texture that holds the images of the glyphs.
    pub glyph_cache: TextureSize,
    /// The sprites of the last draw.
    pub glyph_state: Vec<DrawParam>,
}

impl GlyphContext {
    /// The files of the fonts loaded so far.
    pub open spec fn fonts(self) -> Seq<Seq<u8>> {
        brush_fonts(self.glyph_brush)
    }

    /// The size of the texture that glyphs are laid out in.
    pub open spec fn texture(self) -> (u32, u32) {
        brush_texture(self.glyph_brush)
    }

    /// Glyphs are laid out in a texture of the size of the one that holds their images.
    pub open spec fn textures_match(self) -> bool {
        self.texture().0 == self.glyph_cache.width && self.texture().1 == self.glyph_cache.height
    }
}

/// What came of laying out the queued sections.
pub enum BrushAction {
    /// Draw the sprites of the last draw again.
    ReDraw,
    /// Draw these sprites.
    Draw(Vec<DrawParam>),
    /// The glyphs do not fit in the texture. A larger size is suggested.
    TextureTooSmall { suggested: (u32, u32) },
}

/// What is to be done next. Drawing starts with `ProcessQueue` and is over with `DrawState`.
pub enum DrawStep {
    /// Lay out the queued sections, and go on with `draw_queued_text` and what came of it.
    ProcessQueue,
    /// Draw the sprites of `glyph_state` by one `batch_param`. That is all of the queued text.
    DrawState,
    /// Create a texture of this size from these bytes, four to a pixel. Where that
    /// succeeds, go on with `texture_created` and the size that was suggested. Where it
    /// fails, drawing fails.
    CreateTexture { size: TextureSize, data: Vec<u8>, suggested: (u32, u32) },
}

/// How to draw all of the queued text at once.
#[derive(Debug, Clone, Copy, PartialEq, Eq, Structural)]
pub struct BatchParam {
    pub dest: Point2,
    pub rotation: FloatBits,
    /// How far to stretch it in both directions.
    pub scale: Point2,
    /// The point to rotate about, in screen coordinates.
    pub offset: Point2,
    pub color: Color,
}

/// The parameter that applies to everything in the queue. Its color is ignored: text is
/// queued with a color of its own, which white leaves as it is.
pub fn batch_param(param: BatchParam) -> (r: BatchParam)
    ensures
        r == (BatchParam { color: Color::white(), ..param }),
{
    BatchParam { color: Color::white(), ..param }
}

/// Whether the queued sections have been laid out, so that they can be drawn.
pub open spec fn laid_out(action: BrushAction) -> bool {
    !(action is TextureTooSmall)
}

/// The sprites to draw once this has come of laying out the queued sections.
pub open spec fn sprites_after(sprites: Seq<DrawParam>, action: BrushAction) -> Seq<DrawParam> {
    match action {
        BrushAction::Draw(drawparams) => drawparams@,
        _ => sprites,
    }
}

/// The number of bytes of a texture of this size.
pub open spec fn texture_bytes(size: (u32, u32)) -> int {
    4 * size.0 * size.1
}

/// The size that a texture gets: the lower sixteen bits of both numbers.
pub open spec fn truncated(size: (u32, u32)) -> TextureSize {
    TextureSize { width: (size.0 % 0x1_0000) as u16, height: (size.1 % 0x1_0000) as u16 }
}

fn truncate(size: (u32, u32)) -> (r: TextureSize)
    ensures
        r == truncated(size),
{
    TextureSize { width: to_u16(size.0), height: to_u16(size.1) }
}

/// Calls `glyph_brush::GlyphBrush::resize_texture`, which empties the texture that the
/// brush lays glyphs out in and gives it another size. The fonts stay.
#[verifier::external_body]
fn resize_texture(brush: &mut GlyphBrush<'static, DrawParam>, new_width: u32, new_height: u32)
    ensures
        brush_texture(*final(brush)) == (new_width, new_height),
        brush_fonts(*final(brush)) == brush_fonts(*old(brush)),
{
    brush.resize_texture(new_width, new_height)
}

/// Takes up what came of laying out the queued sections, and says what is to be done next
/// so that all of the queued text is drawn.
pub fn draw_queued_text(context: &mut GlyphContext, action: BrushAction) -> (r: DrawStep)
    requires
        action matches BrushAction::TextureTooSmall { suggested } ==> {
            &&& 4 * suggested.0 <= usize::MAX
            &&& texture_bytes(suggested) <= isize::MAX
        },
    ensures
        r is DrawState <==> laid_out(action),
        final(context).glyph_state@ == sprites_after(old(context).glyph_state@, action),
        match action {
            BrushAction::ReDraw => r is DrawState && *final(context) == *old(context),
            BrushAction::Draw(drawparams) => {
                &&& r is DrawState
                &&& final(context).glyph_state@ == drawparams@
                &&& final(context).glyph_brush == old(context).glyph_brush
                &&& final(context).glyph_cache == old(context).glyph_cache
            },
            BrushAction::TextureTooSmall { suggested } => {
                &&& r matches DrawStep::CreateTexture { size, data, suggested: handed_back }
                &&& size == truncated(suggested)
                &&& data@.len() == texture_bytes(suggested)
                &&& forall|i: int| 0 <= i < data@.len() ==> data@[i] == 255
                &&& handed_back == suggested
                &&& *final(context) == *old(context)
            },
        },
{
    match action {
        BrushAction::ReDraw => DrawStep::DrawState,
        BrushAction::Draw(drawparams) => {
            context.glyph_state.clear();
            for i in 0..drawparams.len()
                invariant
                    context.glyph_state@ == drawparams@.take(i as int),
                    context.glyph_brush == old(context).glyph_brush,
                    context.glyph_cache == old(context).glyph_cache,
            {
                context.glyph_state.push(drawparams[i]);
            }
            DrawStep::DrawState
        },
        BrushAction::TextureTooSmall { suggested } => {
            let (new_width, new_height) = suggested;
            let data: Vec<u8> = vec![255; 4 * new_width as usize * new_height as usize];
            DrawStep::CreateTexture { size: truncate(suggested), data, suggested }
        },
    }
}

/// Takes up that the texture asked for by `draw_queued_text` has been created. The sections
/// are still queued, and are laid out again in the larger texture.
pub fn texture_created(context: &mut GlyphContext, suggested: (u32, u32)) -> (r: DrawStep)
    ensures
        r is ProcessQueue,
        final(context).glyph_cache == truncated(suggested),
        final(context).texture() == suggested,
        final(context).fonts() == old(context).fonts(),
        final(context).glyph_state == old(context).glyph_state,
{
    let (new_width, new_height) = suggested;
    context.glyph_cache = truncate(suggested);
    resize_texture(&mut context.glyph_brush, new_width, new_height);
    DrawStep::ProcessQueue
}

} // verus!

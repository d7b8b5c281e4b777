//! What holds of texts, sections, fonts and the glyph texture as a whole.

use crate::context::{
    brush_fonts, brush_texture, laid_out, sprites_after, texture_bytes, truncated, BrushAction,
    GlyphContext,
};
use crate::draw::DrawParam;
use crate::font::Font;
use crate::fragment::TextFragment;
use crate::layout::{Align, Layout, LineBreaker, VerticalAlign};
use crate::style::{BlendMode, Color, FloatBits, Point2, Scale, DEFAULT_FONT_SCALE};
use crate::section::{shift_within, SectionText, Shift};
use crate::text::{color_of, joined, Text, TextView};
use vstd::prelude::*;

verus! {

/// Appending a fragment appends its text to the string that the text represents.
pub proof fn law_add_appends(text: TextView, fragment: TextFragment)
    ensures
        text.with_fragment(fragment).contents() == text.contents() + fragment.text@,
{
    assert(text.fragments.push(fragment).drop_last() == text.fragments);
}

/// A text made from one fragment represents the string of that fragment.
pub proof fn law_new_represents_fragment(fragment: TextFragment)
    ensures
        TextView::empty().with_fragment(fragment).contents() == fragment.text@,
{
    law_add_appends(TextView::empty(), fragment);
    assert(Seq::<char>::empty() + fragment.text@ == fragment.text@);
}

/// Fonts, bounds and blending have no part in the string that the text represents.
pub proof fn law_style_keeps_contents(
    text: TextView,
    bounds: Point2,
    alignment: Align,
    font: Font,
    font_scale: Scale,
    blend_mode: Option<BlendMode>,
)
    ensures
        text.with_bounds(bounds, alignment).contents() == text.contents(),
        text.with_font(font, font_scale).contents() == text.contents(),
        (TextView { blend_mode, ..text }).contents() == text.contents(),
{
}

/// The options of a fragment take precedence over those of the text and over the color
/// that the text is drawn in.
pub proof fn law_fragment_options_take_precedence(
    text: TextView,
    fragment: TextFragment,
    color: Option<Color>,
    own_color: Color,
    own_font: Font,
    own_scale: Scale,
)
    ensures
        color_of(TextFragment { color: Some(own_color), ..fragment }, color) == own_color,
        text.font_of(TextFragment { font: Some(own_font), ..fragment }) == own_font.font_id,
        text.scale_of(TextFragment { scale: Some(own_scale), ..fragment }) == own_scale,
{
}

/// A fragment without options of its own has the color that the text is drawn in, white
/// where none is asked for, and the font and scale last set on the text.
pub proof fn law_text_options_are_defaults(
    text: TextView,
    fragment: TextFragment,
    color: Color,
    font: Font,
    font_scale: Scale,
)
    requires
        fragment.is_plain(fragment.text@),
    ensures
        color_of(fragment, Some(color)) == color,
        color_of(fragment, None) == Color::white(),
        text.with_font(font, font_scale).font_of(fragment) == font.font_id,
        text.with_font(font, font_scale).scale_of(fragment) == font_scale,
{
}

/// The text of the runs of a section, one after the other.
pub open spec fn joined_runs(runs: Seq<SectionText>) -> Seq<char>
    decreases runs.len(),
{
    if runs.len() == 0 {
        Seq::empty()
    } else {
        joined_runs(runs.drop_last()) + runs.last().text@
    }
}

/// What a section draws of a text is the string that the text represents: nothing of it
/// is left out, added or moved.
pub proof fn law_section_draws_contents(
    text: TextView,
    runs: Seq<SectionText>,
    color: Option<Color>,
)
    requires
        runs.len() == text.fragments.len(),
        forall|i: int|
            0 <= i < text.fragments.len() ==> text.draws_fragment(
                #[trigger] runs[i],
                text.fragments[i],
                color,
            ),
    ensures
        joined_runs(runs) == text.contents(),
    decreases runs.len(),
{
    if runs.len() > 0 {
        let shorter = TextView { fragments: text.fragments.drop_last(), ..text };
        assert forall|i: int| 0 <= i < shorter.fragments.len() implies shorter.draws_fragment(
            #[trigger] runs.drop_last()[i],
            shorter.fragments[i],
            color,
        ) by {
            assert(text.draws_fragment(runs[i], text.fragments[i], color));
        }
        law_section_draws_contents(shorter, runs.drop_last(), color);
        assert(text.draws_fragment(runs.last(), text.fragments.last(), color));
    }
}

/// The layout of a text is the default one but for its alignment, and the default one
/// where the text is not wrapped: so it starts, and so every operation leaves it.
pub proof fn law_layout_stays_in_order(
    text: TextView,
    fragments: Seq<TextFragment>,
    fragment: TextFragment,
    bounds: Point2,
    alignment: Align,
    font: Font,
    font_scale: Scale,
    blend_mode: Option<BlendMode>,
)
    requires
        text.layout_in_order(),
    ensures
        TextView::empty().layout_in_order(),
        text.with_fragment(fragment).layout_in_order(),
        text.with_bounds(bounds, alignment).layout_in_order(),
        text.with_font(font, font_scale).layout_in_order(),
        (TextView { fragments, ..text }).layout_in_order(),
        (TextView { blend_mode, ..text }).layout_in_order(),
{
}

/// Text that is not wrapped ignores the alignment: it gets the default layout, and its
/// section is not shifted.
pub proof fn law_unbounded_ignores_alignment(text: TextView, bounds: Point2, alignment: Align)
    requires
        bounds.x.is_infinity(),
    ensures
        text.with_bounds(bounds, alignment).layout == Layout::default_spec(),
        shift_within(bounds, text.with_bounds(bounds, alignment).layout) == Shift::Zero,
{
}

/// The section of wrapped text is shifted so that the given position is the left edge of
/// the bounds, whatever the alignment.
pub proof fn law_bounded_shifts_by_alignment(text: Text, bounds: Point2, alignment: Align)
    requires
        text.wf(),
        !bounds.x.is_infinity(),
    ensures
        shift_within(bounds, text@.with_bounds(bounds, alignment).layout) == (match alignment {
            Align::Left => Shift::Zero,
            Align::Center => Shift::HalfWidth,
            Align::Right => Shift::FullWidth,
        }),
{
}

/// Of several bounds set on a text, the last count, and of several fonts, the last.
pub proof fn law_last_setting_counts(
    text: Text,
    bounds: Point2,
    alignment: Align,
    bounds2: Point2,
    alignment2: Align,
    font: Font,
    scale: Scale,
    font2: Font,
    scale2: Scale,
)
    requires
        text.wf(),
    ensures
        text@.with_bounds(bounds, alignment).with_bounds(bounds2, alignment2) == text@.with_bounds(
            bounds2,
            alignment2,
        ),
        text@.with_font(font, scale).with_font(font2, scale2) == text@.with_font(font2, scale2),
{
}

/// Fragments, bounds and font can be set in any order.
pub proof fn law_settings_commute(
    text: TextView,
    fragment: TextFragment,
    bounds: Point2,
    alignment: Align,
    font: Font,
    scale: Scale,
)
    ensures
        text.with_bounds(bounds, alignment).with_font(font, scale) == text.with_font(
            font,
            scale,
        ).with_bounds(bounds, alignment),
        text.with_bounds(bounds, alignment).with_fragment(fragment) == text.with_fragment(
            fragment,
        ).with_bounds(bounds, alignment),
        text.with_font(font, scale).with_fragment(fragment) == text.with_fragment(
            fragment,
        ).with_font(font, scale),
{
}

/// A loaded font gets an id that no font has had before, under which its file is found,
/// and the ids given out before stay with their files.
pub proof fn law_font_ids_are_stable(
    before: GlyphContext,
    after: GlyphContext,
    font: Font,
    bytes: Seq<u8>,
)
    requires
        font.font_id.0 == before.fonts().len(),
        after.fonts() == before.fonts().push(bytes),
    ensures
        after.fonts()[font.font_id.0 as int] == bytes,
        forall|id: int|
            0 <= id < before.fonts().len() ==> id != font.font_id.0 && #[trigger] after.fonts()[id]
                == before.fonts()[id],
{
}

/// Where the fonts set on a text and on its fragments are loaded, so are the fonts that its
/// section asks for.
pub proof fn law_section_asks_for_loaded_fonts(
    text: TextView,
    runs: Seq<SectionText>,
    color: Option<Color>,
    loaded: nat,
)
    requires
        runs.len() == text.fragments.len(),
        forall|i: int|
            0 <= i < text.fragments.len() ==> text.draws_fragment(
                #[trigger] runs[i],
                text.fragments[i],
                color,
            ),
        text.font_id.0 < loaded,
        forall|i: int|
            0 <= i < text.fragments.len() ==> ((#[trigger] text.fragments[i]).font matches Some(
                font,
            ) ==> font.font_id.0 < loaded),
    ensures
        forall|i: int| 0 <= i < runs.len() ==> (#[trigger] runs[i]).font_id.0 < loaded,
{
    assert forall|i: int| 0 <= i < runs.len() implies (#[trigger] runs[i]).font_id.0 < loaded by {
        assert(text.draws_fragment(runs[i], text.fragments[i], color));
    }
}

/// The sprites to draw once the queued sections have been laid out as often as these actions
/// came of it.
pub open spec fn sprites_after_all(
    sprites: Seq<DrawParam>,
    actions: Seq<BrushAction>,
) -> Seq<DrawParam>
    decreases actions.len(),
{
    if actions.len() == 0 {
        sprites
    } else {
        sprites_after(sprites_after_all(sprites, actions.drop_last()), actions.last())
    }
}

/// However often the texture has to be enlarged first, what is drawn in the end is what came
/// of laying out the queued sections at last.
pub proof fn law_enlarging_does_not_change_what_is_drawn(
    sprites: Seq<DrawParam>,
    enlargings: Seq<BrushAction>,
    action: BrushAction,
)
    requires
        forall|i: int| 0 <= i < enlargings.len() ==> !laid_out(#[trigger] enlargings[i]),
    ensures
        sprites_after_all(sprites, enlargings.push(action)) == sprites_after(sprites, action),
    decreases enlargings.len(),
{
    assert(enlargings.push(action).drop_last() == enlargings);
    if enlargings.len() > 0 {
        let last = enlargings.last();
        assert(!laid_out(last));
        assert(enlargings.drop_last().push(last) == enlargings);
        law_enlarging_does_not_change_what_is_drawn(sprites, enlargings.drop_last(), last);
    }
    assert(sprites_after_all(sprites, enlargings) == sprites);
}

/// Where the suggested size fits in the numbers that a texture's size is held in, the
/// texture that is created has that very size, its bytes fill it, and glyphs are laid out in
/// a texture of its size from then on.
pub proof fn law_created_texture_matches(context: GlyphContext, suggested: (u32, u32))
    requires
        suggested.0 <= u16::MAX,
        suggested.1 <= u16::MAX,
        context.glyph_cache == truncated(suggested),
        context.texture() == suggested,
    ensures
        context.textures_match(),
        texture_bytes(suggested) == 4 * context.glyph_cache.width * context.glyph_cache.height,
{
}

/// Adding a fragment puts that very fragment, with its text, color, font and scale, behind the
/// fragments that were there, and changes nothing else.
pub proof fn law_added_fragment_is_last(text: TextView, fragment: TextFragment)
    ensures
        text.with_fragment(fragment).fragments == text.fragments.push(fragment),
        text.with_fragment(fragment).fragments.len() == text.fragments.len() + 1,
        text.with_fragment(fragment).fragments[text.fragments.len() as int] == fragment,
        forall|i: int|
            0 <= i < text.fragments.len() ==> #[trigger] text.with_fragment(fragment).fragments[i]
                == text.fragments[i],
        text.with_fragment(fragment).blend_mode == text.blend_mode,
        text.with_fragment(fragment).bounds == text.bounds,
        text.with_fragment(fragment).layout == text.layout,
        text.with_fragment(fragment).font_id == text.font_id,
        text.with_fragment(fragment).font_scale == text.font_scale,
{
}

/// The bounds that are set are the bounds that the text has, whatever the alignment and
/// whatever the text was like before. Of the rest only the layout changes.
pub proof fn law_set_bounds_are_kept(text: TextView, bounds: Point2, alignment: Align)
    ensures
        text.with_bounds(bounds, alignment).bounds.x == bounds.x,
        text.with_bounds(bounds, alignment).bounds.y == bounds.y,
        text.with_bounds(bounds, alignment).fragments == text.fragments,
        text.with_bounds(bounds, alignment).blend_mode == text.blend_mode,
        text.with_bounds(bounds, alignment).font_id == text.font_id,
        text.with_bounds(bounds, alignment).font_scale == text.font_scale,
{
}

/// Text whose width is bounded is wrapped with the alignment that was set, other text with
/// none: it starts from the left. Either way it breaks at Unicode line breaks and starts from
/// the top.
pub proof fn law_set_alignment_is_kept(text: Text, bounds: Point2, alignment: Align)
    requires
        text.wf(),
    ensures
        bounds.x.bits != 0x7f80_0000 ==> text@.with_bounds(bounds, alignment).layout == (
        Layout::Wrap {
            line_breaker: LineBreaker::UnicodeLineBreaker,
            h_align: alignment,
            v_align: VerticalAlign::Top,
        }),
        bounds.x.bits == 0x7f80_0000 ==> text@.with_bounds(bounds, alignment).layout == (
        Layout::Wrap {
            line_breaker: LineBreaker::UnicodeLineBreaker,
            h_align: Align::Left,
            v_align: VerticalAlign::Top,
        }),
{
}

/// The width alone says whether the layout of a text is replaced by the default one, or only
/// the alignment in it.
pub proof fn law_bounds_change_layout_by_width(text: TextView, bounds: Point2, alignment: Align)
    ensures
        bounds.x.bits == 0x7f80_0000 ==> text.with_bounds(bounds, alignment).layout == (
        Layout::Wrap {
            line_breaker: LineBreaker::UnicodeLineBreaker,
            h_align: Align::Left,
            v_align: VerticalAlign::Top,
        }),
        bounds.x.bits != 0x7f80_0000 ==> match (
            text.layout,
            text.with_bounds(bounds, alignment).layout,
        ) {
            (
                Layout::Wrap { line_breaker, v_align, .. },
                Layout::Wrap { line_breaker: breaker, h_align, v_align: vertical },
            ) => breaker == line_breaker && h_align == alignment && vertical == v_align,
            (
                Layout::SingleLine { line_breaker, v_align, .. },
                Layout::SingleLine { line_breaker: breaker, h_align, v_align: vertical },
            ) => breaker == line_breaker && h_align == alignment && vertical == v_align,
            _ => false,
        },
{
}

/// The layout of a text that this library makes wraps at Unicode line breaks, from the top,
/// and from the left where the width is not bounded.
pub proof fn law_text_wraps_from_the_top(text: Text)
    requires
        text.wf(),
    ensures
        text@.layout matches Layout::Wrap { line_breaker, h_align, v_align } && line_breaker
            == LineBreaker::UnicodeLineBreaker && v_align == VerticalAlign::Top && (
        text@.bounds.x.bits == 0x7f80_0000 ==> h_align == Align::Left),
{
}

/// The font and the scale that are set are those that the text has, and nothing else changes.
pub proof fn law_set_font_is_kept(text: TextView, font: Font, font_scale: Scale)
    ensures
        text.with_font(font, font_scale).font_id == font.font_id,
        text.with_font(font, font_scale).font_scale.x == font_scale.x,
        text.with_font(font, font_scale).font_scale.y == font_scale.y,
        text.with_font(font, font_scale).fragments == text.fragments,
        text.with_font(font, font_scale).blend_mode == text.blend_mode,
        text.with_font(font, font_scale).bounds == text.bounds,
        text.with_font(font, font_scale).layout == text.layout,
{
}

/// A text starts with nothing to draw, without bounds, in the first font at sixteen pixels.
pub proof fn law_text_starts_empty()
    ensures
        TextView::empty().fragments.len() == 0,
        TextView::empty().blend_mode is None,
        TextView::empty().bounds.x.bits == 0x7f80_0000,
        TextView::empty().bounds.y.bits == 0x7f80_0000,
        TextView::empty().layout == (Layout::Wrap {
            line_breaker: LineBreaker::UnicodeLineBreaker,
            h_align: Align::Left,
            v_align: VerticalAlign::Top,
        }),
        TextView::empty().font_id.0 == 0,
        TextView::empty().font_scale.x.bits == 0x4180_0000,
        TextView::empty().font_scale.y.bits == 0x4180_0000,
{
}

/// A run holds the text of its fragment.
pub proof fn law_run_has_text_of_fragment(
    text: TextView,
    run: SectionText,
    fragment: TextFragment,
    color: Option<Color>,
)
    requires
        text.draws_fragment(run, fragment, color),
    ensures
        run.text@ == fragment.text@,
{
}

/// A fragment with a color of its own is drawn in that color, whatever else is set on it and
/// whatever color is asked for.
pub proof fn law_own_color_is_drawn(
    text: TextView,
    run: SectionText,
    fragment: TextFragment,
    color: Option<Color>,
    own: Color,
)
    requires
        text.draws_fragment(run, fragment, color),
        fragment.color == Some(own),
    ensures
        run.color@ == seq![own.r, own.g, own.b, own.a],
{
}

/// A fragment without a color of its own is drawn in the color that is asked for, whatever
/// font and scale it has.
pub proof fn law_asked_color_is_drawn(
    text: TextView,
    run: SectionText,
    fragment: TextFragment,
    color: Color,
)
    requires
        text.draws_fragment(run, fragment, Some(color)),
        fragment.color is None,
    ensures
        run.color@ == seq![color.r, color.g, color.b, color.a],
{
}

/// A fragment without a color of its own is drawn in opaque white where no color is asked for,
/// whatever font and scale it has.
pub proof fn law_white_is_drawn(text: TextView, run: SectionText, fragment: TextFragment)
    requires
        text.draws_fragment(run, fragment, None),
        fragment.color is None,
    ensures
        forall|i: int| 0 <= i < 4 ==> (#[trigger] run.color@[i]).bits == 0x3f80_0000,
{
}

/// A fragment with a font of its own is drawn in that font, whatever else is set on it and on
/// the text.
pub proof fn law_own_font_is_drawn(
    text: TextView,
    run: SectionText,
    fragment: TextFragment,
    color: Option<Color>,
    own: Font,
)
    requires
        text.draws_fragment(run, fragment, color),
        fragment.font == Some(own),
    ensures
        run.font_id == own.font_id,
{
}

/// A fragment without a font of its own is drawn in the font of the text, which is the one
/// last set, whatever color and scale it has.
pub proof fn law_font_of_text_is_drawn(
    text: TextView,
    run: SectionText,
    fragment: TextFragment,
    color: Option<Color>,
    font: Font,
    font_scale: Scale,
)
    requires
        fragment.font is None,
    ensures
        text.draws_fragment(run, fragment, color) ==> run.font_id == text.font_id,
        text.with_font(font, font_scale).draws_fragment(run, fragment, color) ==> run.font_id
            == font.font_id,
{
}

/// A fragment with a scale of its own is drawn at that scale, whatever else is set on it and
/// on the text.
pub proof fn law_own_scale_is_drawn(
    text: TextView,
    run: SectionText,
    fragment: TextFragment,
    color: Option<Color>,
    own: Scale,
)
    requires
        text.draws_fragment(run, fragment, color),
        fragment.scale == Some(own),
    ensures
        run.scale.x == own.x,
        run.scale.y == own.y,
{
}

/// A fragment without a scale of its own is drawn at the scale of the text, which is the one
/// last set, whatever color and font it has.
pub proof fn law_scale_of_text_is_drawn(
    text: TextView,
    run: SectionText,
    fragment: TextFragment,
    color: Option<Color>,
    font: Font,
    font_scale: Scale,
)
    requires
        fragment.scale is None,
    ensures
        text.draws_fragment(run, fragment, color) ==> run.scale == text.font_scale,
        text.with_font(font, font_scale).draws_fragment(run, fragment, color) ==> run.scale
            == font_scale,
{
}

/// How a fragment is drawn depends on its text and options and on the font and scale of the
/// text, not on bounds, blending or the fragments beside it.
pub proof fn law_run_depends_on_fragment_and_font(
    text: TextView,
    other: TextView,
    run: SectionText,
    fragment: TextFragment,
    color: Option<Color>,
)
    requires
        other.font_id == text.font_id,
        other.font_scale == text.font_scale,
    ensures
        text.draws_fragment(run, fragment, color) <==> other.draws_fragment(run, fragment, color),
{
}

/// A text without fragments represents the empty string, and the fragments of a text,
/// wherever they are parted, represent two strings that follow one another.
pub proof fn law_contents_follow_fragments(
    text: TextView,
    front: Seq<TextFragment>,
    back: Seq<TextFragment>,
)
    ensures
        (TextView { fragments: Seq::empty(), ..text }).contents() == Seq::<char>::empty(),
        (TextView { fragments: front + back, ..text }).contents() == (TextView {
            fragments: front,
            ..text
        }).contents() + (TextView { fragments: back, ..text }).contents(),
        forall|fragment: TextFragment|
            (#[trigger] (TextView { fragments: seq![fragment], ..text }).contents())
                == fragment.text@,
    decreases back.len(),
{
    assert forall|fragment: TextFragment|
        (#[trigger] (TextView { fragments: seq![fragment], ..text }).contents())
            == fragment.text@ by {
        assert(seq![fragment].drop_last() == Seq::<TextFragment>::empty());
        assert(joined(Seq::<TextFragment>::empty()) == Seq::<char>::empty());
        assert(Seq::<char>::empty() + fragment.text@ == fragment.text@);
    }
    if back.len() == 0 {
        assert(front + back == front);
        assert(joined(front) + Seq::<char>::empty() == joined(front));
    } else {
        law_contents_follow_fragments(text, front, back.drop_last());
        assert((front + back).drop_last() == front + back.drop_last());
        assert(joined(front) + (joined(back.drop_last()) + back.last().text@) == (joined(front)
            + joined(back.drop_last())) + back.last().text@);
    }
}

/// A section is moved to the right by the part of the width that the glyphs of its layout lie
/// left of its position: half of it for centered and all of it for right-aligned text that is
/// wrapped in bounds, and nothing of it for any other.
pub proof fn law_shift_is_told_by_width_and_alignment(
    bounds: Point2,
    line_breaker: LineBreaker,
    h_align: Align,
    v_align: VerticalAlign,
)
    ensures
        shift_within(bounds, Layout::SingleLine { line_breaker, h_align, v_align }) is Zero,
        bounds.x.bits == 0x7f80_0000 ==> shift_within(
            bounds,
            Layout::Wrap { line_breaker, h_align, v_align },
        ) is Zero,
        bounds.x.bits != 0x7f80_0000 ==> {
            let shift = shift_within(bounds, Layout::Wrap { line_breaker, h_align, v_align });
            &&& shift is Zero <==> h_align is Left
            &&& shift is HalfWidth <==> h_align is Center
            &&& shift is FullWidth <==> h_align is Right
        },
{
}

/// Aligning a layout sets its horizontal alignment and keeps the rest.
pub proof fn law_aligning_keeps_the_rest(
    line_breaker: LineBreaker,
    before: Align,
    v_align: VerticalAlign,
    h_align: Align,
)
    ensures
        (Layout::SingleLine { line_breaker, h_align: before, v_align }).h_align(h_align) == (
        Layout::SingleLine { line_breaker, h_align, v_align }),
        (Layout::Wrap { line_breaker, h_align: before, v_align }).h_align(h_align) == (
        Layout::Wrap { line_breaker, h_align, v_align }),
        Layout::default_spec() == (Layout::Wrap {
            line_breaker: LineBreaker::UnicodeLineBreaker,
            h_align: Align::Left,
            v_align: VerticalAlign::Top,
        }),
{
}

/// A number is infinity exactly where it has the bits of positive infinity; a uniform scale is
/// the given number in both directions; and white has the number one for all components.
pub proof fn law_numbers_are_their_bits(number: FloatBits)
    ensures
        number.is_infinity() <==> number.bits == 0x7f80_0000,
        FloatBits::infinity().bits == 0x7f80_0000,
        Scale::uniform(number).x == number,
        Scale::uniform(number).y == number,
        Color::white().r.bits == 0x3f80_0000,
        Color::white().g.bits == 0x3f80_0000,
        Color::white().b.bits == 0x3f80_0000,
        Color::white().a.bits == 0x3f80_0000,
        DEFAULT_FONT_SCALE == 0x4180_0000,
{
}

/// A plain fragment holds its text and leaves color, font and scale to the text that it is
/// added to.
pub proof fn law_plain_fragment_has_no_options(fragment: TextFragment, text: Seq<char>)
    ensures
        fragment.is_plain(text) <==> {
            &&& fragment.text@ == text
            &&& fragment.color == None::<Color>
            &&& fragment.font == None::<Font>
            &&& fragment.scale == None::<Scale>
        },
{
}

/// Sprites that came of laying out are drawn in place of those drawn last. Where nothing has
/// changed, or the texture has to be enlarged first, those drawn last stay.
pub proof fn law_sprites_are_replaced_by_layout(
    sprites: Seq<DrawParam>,
    drawparams: Vec<DrawParam>,
    suggested: (u32, u32),
)
    ensures
        laid_out(BrushAction::ReDraw),
        laid_out(BrushAction::Draw(drawparams)),
        !laid_out(BrushAction::TextureTooSmall { suggested }),
        sprites_after(sprites, BrushAction::ReDraw) == sprites,
        sprites_after(sprites, BrushAction::Draw(drawparams)) == drawparams@,
        sprites_after(sprites, BrushAction::TextureTooSmall { suggested }) == sprites,
{
}

/// A texture has four bytes for each of its pixels, and a size that is the suggested one but
/// for what does not fit in sixteen bits.
pub proof fn law_texture_size_is_suggested(suggested: (u32, u32))
    ensures
        texture_bytes(suggested) == 4 * suggested.0 * suggested.1,
        0 <= truncated(suggested).width < 65_536,
        0 <= truncated(suggested).height < 65_536,
        (suggested.0 - truncated(suggested).width) % 65_536 == 0,
        (suggested.1 - truncated(suggested).height) % 65_536 == 0,
{
}

/// The fonts of a context, and the texture that it lays glyphs out in, are those of its brush.
pub proof fn law_context_is_that_of_its_brush(context: GlyphContext)
    ensures
        context.fonts() == brush_fonts(context.glyph_brush),
        context.texture() == brush_texture(context.glyph_brush),
        context.textures_match() <==> {
            &&& brush_texture(context.glyph_brush).0 == context.glyph_cache.width
            &&& brush_texture(context.glyph_brush).1 == context.glyph_cache.height
        },
{
}

} // verus!

use crate::font::{Font, FontId};
use crate::fragment::TextFragment;
use crate::layout::{Align, Layout};
use crate::metrics::MetricsCache;
use crate::style::{BlendMode, Color, FloatBits, Point2, Scale, DEFAULT_FONT_SCALE};
use crate::section::{shift_within, ScreenPosition, SectionText, Shift, VariedSection};
use vstd::prelude::*;

verus! {

/// Drawable text object.  Essentially a list of [`TextFragment`]'s
/// and some metrics information.
pub struct Text {
    fragments: Vec<TextFragment>,
    blend_mode: Option<BlendMode>,
    placement: Placement,
    font_id: FontId,
    font_scale: Scale,
    /// Nothing where the fragments have been lent out for writing.
    cached_metrics: Option<MetricsCache>,
}

/// The bounds of a text, and a layout that goes with them.
#[derive(Clone, Copy)]
struct Placement {
    bounds: Point2,
    layout: Layout,
}

impl Placement {
    #[verifier::type_invariant]
    spec fn in_order(self) -> bool {
        layout_goes_with(self.layout, self.bounds)
    }
}

/// What a [`Text`] says: all of it but the cache.
pub struct TextView {
    pub fragments: Seq<TextFragment>,
    pub blend_mode: Option<BlendMode>,
    pub bounds: Point2,
    pub layout: Layout,
    pub font_id: FontId,
    pub font_scale: Scale,
}

/// The text of the fragments, one after the other.
pub open spec fn joined(fragments: Seq<TextFragment>) -> Seq<char>
    decreases fragments.len(),
{
    if fragments.len() == 0 {
        Seq::empty()
    } else {
        joined(fragments.drop_last()) + fragments.last().text@
    }
}

/// Whether the layout is the default one but for its alignment, and is the default one where
/// text in these bounds is not wrapped.
pub open spec fn layout_goes_with(layout: Layout, bounds: Point2) -> bool {
    &&& layout matches Layout::Wrap { h_align, .. } && layout == Layout::default_spec().h_align(
        h_align,
    )
    &&& bounds.x.is_infinity() ==> layout == Layout::default_spec()
}

/// The color to draw a fragment in: its own, else the one that is asked for, else white.
pub open spec fn color_of(fragment: TextFragment, color: Option<Color>) -> Color {
    match fragment.color {
        Some(own) => own,
        None => match color {
            Some(color) => color,
            None => Color::white(),
        },
    }
}

impl TextView {
    /// The string that the text represents.
    pub open spec fn contents(self) -> Seq<char> {
        joined(self.fragments)
    }

    /// The font of a fragment: its own, else the text's.
    pub open spec fn font_of(self, fragment: TextFragment) -> FontId {
        match fragment.font {
            Some(font) => font.font_id,
            None => self.font_id,
        }
    }

    /// The scale of a fragment: its own, else the text's.
    pub open spec fn scale_of(self, fragment: TextFragment) -> Scale {
        match fragment.scale {
            Some(scale) => scale,
            None => self.font_scale,
        }
    }

    /// Whether `run` draws `fragment` as a part of this text.
    pub open spec fn draws_fragment(
        self,
        run: SectionText,
        fragment: TextFragment,
        color: Option<Color>,
    ) -> bool {
        let Color { r, g, b, a } = color_of(fragment, color);
        &&& run.text@ == fragment.text@
        &&& run.color@ == seq![r, g, b, a]
        &&& run.font_id == self.font_of(fragment)
        &&& run.scale == self.scale_of(fragment)
    }

    /// The layout goes with the bounds.
    pub open spec fn layout_in_order(self) -> bool {
        layout_goes_with(self.layout, self.bounds)
    }

    /// The text with neither fragments nor bounds.
    pub open spec fn empty() -> TextView {
        TextView {
            fragments: Seq::empty(),
            blend_mode: None,
            bounds: Point2 { x: FloatBits::infinity(), y: FloatBits::infinity() },
            layout: Layout::default_spec(),
            font_id: FontId(0),
            font_scale: Scale::uniform(FloatBits { bits: DEFAULT_FONT_SCALE }),
        }
    }

    /// The text with one more fragment.
    pub open spec fn with_fragment(self, fragment: TextFragment) -> TextView {
        TextView { fragments: self.fragments.push(fragment), ..self }
    }

    /// The text in other bounds. Text that is not wrapped goes back to the default layout.
    pub open spec fn with_bounds(self, bounds: Point2, alignment: Align) -> TextView {
        TextView {
            bounds,
            layout: if bounds.x.is_infinity() {
                Layout::default_spec()
            } else {
                self.layout.h_align(alignment)
            },
            ..self
        }
    }

    /// The text with another font and scale for the fragments that have none.
    pub open spec fn with_font(self, font: Font, font_scale: Scale) -> TextView {
        TextView { font_id: font.font_id, font_scale, ..self }
    }
}

impl View for Text {
    type V = TextView;

    closed spec fn view(&self) -> TextView {
        TextView {
            fragments: self.fragments@,
            blend_mode: self.blend_mode,
            bounds: self.placement.bounds,
            layout: self.placement.layout,
            font_id: self.font_id,
            font_scale: self.font_scale,
        }
    }
}

impl Text {
    /// The cache is for the string of the fragments as they are.
    pub closed spec fn cache_in_order(self) -> bool {
        self.cached_metrics matches Some(cache) ==> cache.contents() == joined(self.fragments@)
    }

    /// What holds of every text that this library makes.
    pub open spec fn wf(self) -> bool {
        self.cache_in_order() && self@.layout_in_order()
    }

    /// Creates a `Text` from a `TextFragment`.
    pub fn new<F>(fragment: F) -> (r: Text) where F: Into<TextFragment>
        ensures
            r.wf(),
            exists|f: TextFragment| #[trigger]
                call_ensures(<F as Into<TextFragment>>::into, (fragment,), f) && r@
                    == TextView::empty().with_fragment(f),
    {
        let fragment: TextFragment = fragment.into();
        let mut text = Text::default();
        let _ = text.add(fragment);
        text
    }

    /// Appends a `TextFragment` to the `Text`.
    pub fn add<F>(&mut self, fragment: F) -> (r: &mut Text) where F: Into<TextFragment>
        ensures
            r.wf(),
            exists|f: TextFragment| #[trigger]
                call_ensures(<F as Into<TextFragment>>::into, (fragment,), f) && r@ == old(
                    self,
                )@.with_fragment(f),
            *final(self) == *final(r),
    {
        self.fragments.push(fragment.into());
        self.invalidate_cached_metrics();
        self
    }

    /// Returns a read-only slice of all `TextFragment`'s.
    pub fn fragments(&self) -> (r: &[TextFragment])
        ensures
            r@ == self@.fragments,
    {
        self.fragments.as_slice()
    }

    /// Returns a mutable slice with all fragments.
    pub fn fragments_mut(&mut self) -> (r: &mut [TextFragment])
        ensures
            r@ == old(self)@.fragments,
            final(self).wf(),
            final(self)@ == (TextView { fragments: final(r)@, ..old(self)@ }),
    {
        proof {
            use_type_invariant(&self.placement);
        }
        self.drop_cached_metrics();
        self.fragments.as_mut_slice()
    }

    /// Specifies rectangular dimensions to try and fit contents inside of,
    /// by wrapping, and alignment within the bounds.
    pub fn set_bounds(&mut self, bounds: Point2, alignment: Align) -> (r: &mut Text)
        ensures
            r.wf(),
            r@ == old(self)@.with_bounds(bounds, alignment),
            // Bounds and alignment set before are of no account.
            forall|before: Point2, aligned: Align|
                r@ == #[trigger] old(self)@.with_bounds(before, aligned).with_bounds(
                    bounds,
                    alignment,
                ),
            *final(self) == *final(r),
    {
        proof {
            use_type_invariant(&self.placement);
        }
        let layout = if bounds.x.is_infinity() {
            // Layouts don't make any sense if we don't wrap text at all.
            Layout::default()
        } else {
            self.placement.layout.h_align(alignment)
        };
        self.placement = Placement { bounds, layout };
        self.invalidate_cached_metrics();
        self
    }

    /// Specifies text's font and font scale; used for fragments that don't have their own.
    pub fn set_font(&mut self, font: Font, font_scale: Scale) -> (r: &mut Text)
        ensures
            r.wf(),
            r@ == old(self)@.with_font(font, font_scale),
            *final(self) == *final(r),
    {
        self.font_id = font.font_id;
        self.font_scale = font_scale;
        self.invalidate_cached_metrics();
        self
    }

    /// Converts `Text` to the section that a glyph brush can lay out and queue, at
    /// `relative_dest` and with `color` for the fragments that have none.
    pub fn generate_varied_section(&self, relative_dest: Point2, color: Option<Color>) -> (r:
        VariedSection<'_>)
        ensures
            r.screen_position == (ScreenPosition {
                dest: relative_dest,
                shift: shift_within(self@.bounds, self@.layout),
            }),
            r.bounds == (self@.bounds.x, self@.bounds.y),
            r.z == (FloatBits { bits: 0 }),
            r.layout == self@.layout,
            r.text@.len() == self@.fragments.len(),
            forall|i: int|
                0 <= i < self@.fragments.len() ==> self@.draws_fragment(
                    #[trigger] r.text@[i],
                    self@.fragments[i],
                    color,
                ),
    {
        let mut sections: Vec<SectionText<'_>> = Vec::with_capacity(self.fragments.len());
        for i in 0..self.fragments.len()
            invariant
                sections@.len() == i,
                forall|j: int|
                    0 <= j < i ==> self@.draws_fragment(
                        #[trigger] sections@[j],
                        self.fragments@[j],
                        color,
                    ),
        {
            let fragment = &self.fragments[i];
            let color = match fragment.color {
                Some(c) => c,
                None => match color {
                    Some(c) => c,
                    None => Color::white(),
                },
            };
            let font_id = match fragment.font {
                Some(font) => font.font_id,
                None => self.font_id,
            };
            let scale = match fragment.scale {
                Some(scale) => scale,
                None => self.font_scale,
            };
            sections.push(
                SectionText {
                    text: fragment.text.as_str(),
                    color: color.components(),
                    font_id,
                    scale,
                },
            );
        }
        // This positions text within bounds with relative_dest being to the left, always.
        let mut shift = Shift::Zero;
        if !self.placement.bounds.x.is_infinity() {
            if let Layout::Wrap { h_align, .. } = self.placement.layout {
                match h_align {
                    Align::Center => shift = Shift::HalfWidth,
                    Align::Right => shift = Shift::FullWidth,
                    _ => (),
                }
            }
        }
        VariedSection {
            screen_position: ScreenPosition { dest: relative_dest, shift },
            bounds: (self.placement.bounds.x, self.placement.bounds.y),
            z: FloatBits { bits: 0 },
            layout: self.placement.layout,
            text: sections,
        }
    }

    /// Drops what is cached of the metrics.
    fn invalidate_cached_metrics(&mut self)
        ensures
            final(self).wf(),
            final(self).cached_metrics is Some,
            final(self)@ == old(self)@,
    {
        proof {
            use_type_invariant(&self.placement);
        }
        self.drop_cached_metrics();
        self.cached_metrics = Some(MetricsCache::new(Ghost(joined(self.fragments@))));
    }

    /// Leaves the text without a cache, and frees what was cached.
    fn drop_cached_metrics(&mut self)
        ensures
            *final(self) == (Text { cached_metrics: None, ..*old(self) }),
    {
        if let Some(cache) = self.cached_metrics.take() {
            let _ = cache.into_metrics();
        }
    }

    /// Returns the string that the text represents.
    pub fn contents(&self) -> (r: String)
        requires
            self.wf(),
        ensures
            r@ == self@.contents(),
    {
        if let Some(cache) = &self.cached_metrics {
            let metrics = cache.read();
            let cached = cache.string(&metrics);
            metrics.release_read();
            if let Some(string) = cached {
                return string;
            }
        }
        let mut string_accm = String::new();
        for i in 0..self.fragments.len()
            invariant
                string_accm@ == joined(self.fragments@.take(i as int)),
        {
            string_accm.append(self.fragments[i].text.as_str());
            assert(self.fragments@.take(i + 1).drop_last() == self.fragments@.take(i as int));
        }
        assert(self.fragments@.take(self.fragments@.len() as int) == self.fragments@);
        if let Some(cache) = &self.cached_metrics {
            cache.set_string(string_accm.clone());
        }
        string_accm
    }

    /// Sets how the text is blended in when it is drawn.
    pub fn set_blend_mode(&mut self, mode: Option<BlendMode>)
        ensures
            old(self).wf() ==> final(self).wf(),
            final(self)@ == (TextView { blend_mode: mode, ..old(self)@ }),
    {
        self.blend_mode = mode;
    }

    /// How the text is blended in when it is drawn.
    pub fn blend_mode(&self) -> (r: Option<BlendMode>)
        ensures
            r == self@.blend_mode,
    {
        self.blend_mode
    }
}

impl Default for Text {
    fn default() -> (r: Text)
        ensures
            r.wf(),
            r@ == TextView::empty(),
    {
        Text {
            fragments: Vec::new(),
            blend_mode: None,
            placement: Placement {
                bounds: Point2 { x: FloatBits::infinity(), y: FloatBits::infinity() },
                layout: Layout::default(),
            },
            font_id: FontId::default(),
            font_scale: Scale::uniform(FloatBits { bits: DEFAULT_FONT_SCALE }),
            cached_metrics: Some(MetricsCache::new(Ghost(Seq::empty()))),
        }
    }
}

/// The clone gets a cache of its own, since either of the two may be changed.
impl Clone for Text {
    fn clone(&self) -> (r: Text)
        ensures
            r.wf(),
            r@ == self@,
    {
        proof {
            use_type_invariant(&self.placement);
        }
        let fragments = self.fragments.clone();
        assert(fragments@ =~= self.fragments@);
        Text {
            fragments,
            blend_mode: self.blend_mode,
            placement: self.placement,
            font_id: self.font_id,
            font_scale: self.font_scale,
            cached_metrics: Some(MetricsCache::new(Ghost(joined(self.fragments@)))),
        }
    }
}

} // verus!

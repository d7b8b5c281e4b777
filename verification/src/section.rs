use crate::font::FontId;
use crate::layout::{Align, Layout};
use crate::style::{FloatBits, Point2, Scale};
use vstd::prelude::*;

verus! {

/// How far the position of a section is moved to the right, as a share of the
/// width of its bounds.
#[derive(Debug, Clone, Copy, PartialEq, Eq, Structural)]
pub enum Shift {
    /// Not at all.
    Zero,
    /// By half of the width.
    HalfWidth,
    /// By the whole width.
    FullWidth,
}

/// The position of a section on the screen: `shift` of the width of the
/// section's bounds to the right of `dest`.
#[derive(Debug, Clone, Copy, PartialEq, Eq, Structural)]
pub struct ScreenPosition {
    pub dest: Point2,
    pub shift: Shift,
}

/// A run of text in one color, font and scale.
#[derive(Debug, Clone, Copy)]
pub struct SectionText<'a> {
    pub text: &'a str,
    /// Red, green, blue, alpha.
    pub color: [FloatBits; 4],
    pub font_id: FontId,
    pub scale: Scale,
}

/// Runs of text that bow to a single layout.
#[derive(Debug)]
pub struct VariedSection<'a> {
    pub screen_position: ScreenPosition,
    /// Width and height to fit the text in.
    pub bounds: (FloatBits, FloatBits),
    /// Depth.
    pub z: FloatBits,
    pub layout: Layout,
    pub text: Vec<SectionText<'a>>,
}

/// The shift that puts text of this layout inside bounds of this size whose left
/// edge is the given position. Text that is not wrapped has no bounds to be put in.
pub open spec fn shift_within(bounds: Point2, layout: Layout) -> Shift {
    if bounds.x.is_infinity() {
        Shift::Zero
    } else {
        match layout {
            Layout::Wrap { h_align: Align::Center, .. } => Shift::HalfWidth,
            Layout::Wrap { h_align: Align::Right, .. } => Shift::FullWidth,
            _ => Shift::Zero,
        }
    }
}

} // verus!

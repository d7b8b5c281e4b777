use vstd::prelude::*;

verus! {

/// Horizontal alignment of text.
#[derive(Debug, Clone, Copy, PartialEq, Eq, Structural)]
pub enum Align {
    Left,
    Center,
    Right,
}

/// Vertical alignment of text.
#[derive(Debug, Clone, Copy, PartialEq, Eq, Structural)]
pub enum VerticalAlign {
    Top,
    Center,
    Bottom,
}

/// The rule that says where a line may break.
#[derive(Debug, Clone, Copy, PartialEq, Eq, Structural)]
pub enum LineBreaker {
    UnicodeLineBreaker,
    AnyCharLineBreaker,
}

/// How the glyphs of a section are arranged in its bounds.
#[derive(Debug, Clone, Copy, PartialEq, Eq, Structural)]
pub enum Layout {
    /// A single line, cut at the width of the bounds.
    SingleLine { line_breaker: LineBreaker, h_align: Align, v_align: VerticalAlign },
    /// As many lines as it takes, broken at the width of the bounds.
    Wrap { line_breaker: LineBreaker, h_align: Align, v_align: VerticalAlign },
}

impl Layout {
    /// Wrapped lines from the top left.
    pub open spec fn default_spec() -> Layout {
        Layout::Wrap {
            line_breaker: LineBreaker::UnicodeLineBreaker,
            h_align: Align::Left,
            v_align: VerticalAlign::Top,
        }
    }

    /// This layout with its horizontal alignment replaced.
    pub open spec fn h_align_spec(self, h_align: Align) -> Layout {
        match self {
            Layout::SingleLine { line_breaker, v_align, .. } => Layout::SingleLine {
                line_breaker,
                h_align,
                v_align,
            },
            Layout::Wrap { line_breaker, v_align, .. } => Layout::Wrap {
                line_breaker,
                h_align,
                v_align,
            },
        }
    }

    /// This layout with its horizontal alignment replaced.
    #[verifier::when_used_as_spec(h_align_spec)]
    pub fn h_align(self, h_align: Align) -> (r: Layout)
        ensures
            r == self.h_align_spec(h_align),
    {
        match self {
            Layout::SingleLine { line_breaker, v_align, .. } => Layout::SingleLine {
                line_breaker,
                h_align,
                v_align,
            },
            Layout::Wrap { line_breaker, v_align, .. } => Layout::Wrap {
                line_breaker,
                h_align,
                v_align,
            },
        }
    }
}

impl Default for Layout {
    fn default() -> (r: Layout)
        ensures
            r == Layout::default_spec(),
    {
        Layout::Wrap {
            line_breaker: LineBreaker::UnicodeLineBreaker,
            h_align: Align::Left,
            v_align: VerticalAlign::Top,
        }
    }
}

} // verus!

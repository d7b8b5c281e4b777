use glyph_brush::{BuiltInLineBreaker, HorizontalAlign};
use glyph_text::{Align, Layout, LineBreaker, VerticalAlign};

fn brush_align(align: Align) -> HorizontalAlign {
    match align {
        Align::Left => HorizontalAlign::Left,
        Align::Center => HorizontalAlign::Center,
        Align::Right => HorizontalAlign::Right,
    }
}

fn brush_layout(layout: Layout) -> glyph_brush::Layout<BuiltInLineBreaker> {
    let breaker = |b: LineBreaker| match b {
        LineBreaker::UnicodeLineBreaker => BuiltInLineBreaker::UnicodeLineBreaker,
        LineBreaker::AnyCharLineBreaker => BuiltInLineBreaker::AnyCharLineBreaker,
    };
    let vertical = |v: VerticalAlign| match v {
        VerticalAlign::Top => glyph_brush::VerticalAlign::Top,
        VerticalAlign::Center => glyph_brush::VerticalAlign::Center,
        VerticalAlign::Bottom => glyph_brush::VerticalAlign::Bottom,
    };
    match layout {
        Layout::SingleLine { line_breaker, h_align, v_align } => glyph_brush::Layout::SingleLine {
            line_breaker: breaker(line_breaker),
            h_align: brush_align(h_align),
            v_align: vertical(v_align),
        },
        Layout::Wrap { line_breaker, h_align, v_align } => glyph_brush::Layout::Wrap {
            line_breaker: breaker(line_breaker),
            h_align: brush_align(h_align),
            v_align: vertical(v_align),
        },
    }
}

#[test]
fn default_layout_is_that_of_the_brush() {
    assert_eq!(brush_layout(Layout::default()), glyph_brush::Layout::default());
}

#[test]
fn h_align_is_that_of_the_brush() {
    let aligns = [Align::Left, Align::Center, Align::Right];
    let verticals = [VerticalAlign::Top, VerticalAlign::Center, VerticalAlign::Bottom];
    let breakers = [LineBreaker::UnicodeLineBreaker, LineBreaker::AnyCharLineBreaker];
    for h_align in aligns {
        for v_align in verticals {
            for line_breaker in breakers {
                for layout in [
                    Layout::SingleLine { line_breaker, h_align, v_align },
                    Layout::Wrap { line_breaker, h_align, v_align },
                ] {
                    for align in aligns {
                        assert_eq!(
                            brush_layout(layout.h_align(align)),
                            brush_layout(layout).h_align(brush_align(align))
                        );
                    }
                }
            }
        }
    }
}

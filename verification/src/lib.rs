//! Text objects for a sprite renderer: styled fragments, the section that lays
//! them out, the glyph cache behind them, and the steps of drawing it.

pub mod context;
pub mod draw;
pub mod font;
pub mod font_file;
pub mod font_file_laws;
pub mod fragment;
pub mod laws;
pub mod layout;
mod metrics;
pub mod section;
pub mod style;
pub mod text;

pub use context::{
    batch_param, draw_queued_text, texture_created, BatchParam, BrushAction, DrawStep,
    GlyphContext, TextureSize,
};
pub use draw::{
    to_vertex, update_texture, DrawParam, GlyphVertex, PixelPoint, PixelRect, Rect, Span,
    TextureUpdate,
};
pub use font::{Font, FontId};
pub use fragment::TextFragment;
pub use layout::{Align, Layout, LineBreaker, VerticalAlign};
pub use section::{ScreenPosition, SectionText, Shift, VariedSection};
pub use style::{BlendMode, Color, FloatBits, Point2, Scale, DEFAULT_FONT_SCALE};
pub use text::Text;

use vstd::prelude::*;

verus! {

/// The bit pattern of positive infinity, the only pattern equal to it.
pub const INFINITY_BITS: u32 = 0x7f80_0000;

/// The bit pattern of one.
pub const ONE_BITS: u32 = 0x3f80_0000;

/// The bit pattern of sixteen, the default size for fonts.
pub const DEFAULT_FONT_SCALE: u32 = 0x4180_0000;

/// A single precision number, held by its IEEE 754 bit pattern.
///
/// Numbers are carried through unchanged. The one question asked of them is
/// whether they are positive infinity, which has a single bit pattern.
#[derive(Debug, Clone, Copy, PartialEq, Eq, Structural)]
pub struct FloatBits {
    pub bits: u32,
}

impl FloatBits {
    /// Whether this is the number positive infinity.
    pub open spec fn is_infinity_spec(self) -> bool {
        self.bits == INFINITY_BITS
    }

    /// Whether this is the number positive infinity.
    #[verifier::when_used_as_spec(is_infinity_spec)]
    pub fn is_infinity(self) -> (r: bool)
        ensures
            r == self.is_infinity_spec(),
    {
        self.bits == INFINITY_BITS
    }

    /// The number positive infinity.
    pub open spec fn infinity_spec() -> FloatBits {
        FloatBits { bits: INFINITY_BITS }
    }

    /// The number positive infinity.
    #[verifier::when_used_as_spec(infinity_spec)]
    pub fn infinity() -> (r: FloatBits)
        ensures
            r == FloatBits::infinity_spec(),
    {
        FloatBits { bits: INFINITY_BITS }
    }
}

/// A point, or the size of a box.
#[derive(Debug, Clone, Copy, PartialEq, Eq, Structural)]
pub struct Point2 {
    pub x: FloatBits,
    pub y: FloatBits,
}

/// Font size in pixels, separately for width and height.
#[derive(Debug, Clone, Copy, PartialEq, Eq, Structural)]
pub struct Scale {
    pub x: FloatBits,
    pub y: FloatBits,
}

impl Scale {
    /// The scale with `s` in both directions.
    pub open spec fn uniform_spec(s: FloatBits) -> Scale {
        Scale { x: s, y: s }
    }

    /// The scale with `s` in both directions.
    #[verifier::when_used_as_spec(uniform_spec)]
    pub fn uniform(s: FloatBits) -> (r: Scale)
        ensures
            r == Scale::uniform_spec(s),
    {
        Scale { x: s, y: s }
    }
}

/// A color with red, green, blue and alpha components.
#[derive(Debug, Clone, Copy, PartialEq, Eq, Structural)]
pub struct Color {
    pub r: FloatBits,
    pub g: FloatBits,
    pub b: FloatBits,
    pub a: FloatBits,
}

impl Color {
    /// Opaque white.
    pub open spec fn white_spec() -> Color {
        let one = FloatBits { bits: ONE_BITS };
        Color { r: one, g: one, b: one, a: one }
    }

    /// Opaque white.
    #[verifier::when_used_as_spec(white_spec)]
    pub fn white() -> (r: Color)
        ensures
            r == Color::white_spec(),
    {
        let one = FloatBits { bits: ONE_BITS };
        Color { r: one, g: one, b: one, a: one }
    }

    /// The components in the order red, green, blue, alpha.
    pub fn components(self) -> (r: [FloatBits; 4])
        ensures
            r@ == seq![self.r, self.g, self.b, self.a],
    {
        [self.r, self.g, self.b, self.a]
    }
}

/// How the colors of a drawn object combine with what is behind it.
#[derive(Debug, Clone, Copy, PartialEq, Eq, Structural)]
pub enum BlendMode {
    Add,
    Subtract,
    Alpha,
    Invert,
    Multiply,
    Replace,
    Lighten,
    Darken,
}

} // verus!

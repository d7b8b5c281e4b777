use crate::font::{Font, FontId};
use crate::style::{Color, FloatBits, Scale};
use vstd::prelude::*;
use vstd::std_specs::convert::FromSpecImpl;

verus! {

/// A piece of text with optional color, font and font scale information.
/// Drawing text generally involves one or more of these.
/// These options take precedence over any similar field/argument.
/// Can be implicitly constructed from text (`String`, `&str` or `char`), and from text with a
/// `Color`, with a `FontId` and a `Scale`, or with a `Font` and a uniform scale.
#[derive(Debug)]
pub struct TextFragment {
    /// Text string itself.
    pub text: String,
    /// Fragment's color, defaults to text's color.
    pub color: Option<Color>,
    /// Fragment's font, defaults to text's font.
    pub font: Option<Font>,
    /// Fragment's scale, defaults to text's scale.
    pub scale: Option<Scale>,
}

impl TextFragment {
    /// Whether this is the fragment that holds `text` and has no option set.
    pub open spec fn is_plain(self, text: Seq<char>) -> bool {
        &&& self.text@ == text
        &&& self.color is None
        &&& self.font is None
        &&& self.scale is None
    }

    /// Creates a new fragment from `String` or `&str`.
    pub fn new<T: Into<Self>>(text: T) -> (r: Self)
        ensures
            call_ensures(<T as Into<Self>>::into, (text,), r),
    {
        text.into()
    }

    /// Set fragment's color, overrides text's color.
    pub fn color(self, color: Color) -> (r: TextFragment)
        ensures
            r == (TextFragment { color: Some(color), ..self }),
    {
        TextFragment { color: Some(color), ..self }
    }

    /// Set fragment's font, overrides text's font.
    pub fn font(self, font: Font) -> (r: TextFragment)
        ensures
            r == (TextFragment { font: Some(font), ..self }),
    {
        TextFragment { font: Some(font), ..self }
    }

    /// Set fragment's scale, overrides text's scale.
    pub fn scale(self, scale: Scale) -> (r: TextFragment)
        ensures
            r == (TextFragment { scale: Some(scale), ..self }),
    {
        TextFragment { scale: Some(scale), ..self }
    }
}

impl Default for TextFragment {
    fn default() -> (r: Self)
        ensures
            r.is_plain(Seq::empty()),
    {
        TextFragment { text: String::new(), color: None, font: None, scale: None }
    }
}

impl Clone for TextFragment {
    fn clone(&self) -> (r: Self)
        ensures
            r == *self,
    {
        TextFragment {
            text: self.text.clone(),
            color: self.color,
            font: self.font,
            scale: self.scale,
        }
    }
}

impl<'a> From<&'a str> for TextFragment {
    fn from(text: &'a str) -> (r: TextFragment)
        ensures
            r.is_plain(text@),
    {
        TextFragment { text: text.to_owned(), ..Default::default() }
    }
}

// Which fragment `from` makes of borrowed or composed text is said in its own `ensures`.
impl<'a> FromSpecImpl<&'a str> for TextFragment {
    open spec fn obeys_from_spec() -> bool {
        false
    }

    open spec fn from_spec(text: &'a str) -> TextFragment {
        arbitrary()
    }
}

impl From<char> for TextFragment {
    fn from(ch: char) -> (r: TextFragment)
        ensures
            r.is_plain(seq![ch]),
    {
        TextFragment { text: char_to_string(ch), ..Default::default() }
    }
}

impl FromSpecImpl<char> for TextFragment {
    open spec fn obeys_from_spec() -> bool {
        false
    }

    open spec fn from_spec(ch: char) -> TextFragment {
        arbitrary()
    }
}

impl From<String> for TextFragment {
    fn from(text: String) -> (r: TextFragment)
        ensures
            r.text == text,
            r.is_plain(text@),
    {
        TextFragment { text, ..Default::default() }
    }
}

impl FromSpecImpl<String> for TextFragment {
    open spec fn obeys_from_spec() -> bool {
        true
    }

    open spec fn from_spec(text: String) -> TextFragment {
        TextFragment { text, color: None, font: None, scale: None }
    }
}

impl<T> From<(T, Font, FloatBits)> for TextFragment where T: Into<TextFragment> {
    fn from(parts: (T, Font, FloatBits)) -> (r: TextFragment)
        ensures
            exists|f: TextFragment| #[trigger]
                call_ensures(<T as Into<TextFragment>>::into, (parts.0,), f) && r == (
                TextFragment { font: Some(parts.1), scale: Some(Scale::uniform(parts.2)), ..f }),
    {
        let (text, font, scale) = parts;
        text.into().font(font).scale(Scale::uniform(scale))
    }
}

impl<T> FromSpecImpl<(T, Font, FloatBits)> for TextFragment where T: Into<TextFragment> {
    open spec fn obeys_from_spec() -> bool {
        false
    }

    open spec fn from_spec(parts: (T, Font, FloatBits)) -> TextFragment {
        arbitrary()
    }
}

impl<T> From<(T, Color)> for TextFragment where T: Into<TextFragment> {
    fn from(parts: (T, Color)) -> (r: TextFragment)
        ensures
            exists|f: TextFragment| #[trigger]
                call_ensures(<T as Into<TextFragment>>::into, (parts.0,), f) && r == (
                TextFragment { color: Some(parts.1), ..f }),
    {
        let (text, color) = parts;
        text.into().color(color)
    }
}

impl<T> FromSpecImpl<(T, Color)> for TextFragment where T: Into<TextFragment> {
    open spec fn obeys_from_spec() -> bool {
        false
    }

    open spec fn from_spec(parts: (T, Color)) -> TextFragment {
        arbitrary()
    }
}

impl<T> From<(T, FontId, Scale)> for TextFragment where T: Into<TextFragment> {
    fn from(parts: (T, FontId, Scale)) -> (r: TextFragment)
        ensures
            exists|f: TextFragment| #[trigger]
                call_ensures(<T as Into<TextFragment>>::into, (parts.0,), f) && r == (
                TextFragment {
                    font: Some(Font { font_id: parts.1 }),
                    scale: Some(parts.2),
                    ..f
                }),
    {
        let (text, font_id, scale) = parts;
        text.into().font(Font { font_id }).scale(scale)
    }
}

impl<T> FromSpecImpl<(T, FontId, Scale)> for TextFragment where T: Into<TextFragment> {
    open spec fn obeys_from_spec() -> bool {
        false
    }

    open spec fn from_spec(parts: (T, FontId, Scale)) -> TextFragment {
        arbitrary()
    }
}

/// `From::from` of a type into itself, which returns its argument.
pub assume_specification<Whole>[ <Whole as core::convert::From<Whole>>::from ](whole: Whole) -> (same:
    Whole)
    ensures
        same == whole,
;

/// The string of one character, by `ToString::to_string` of `char`, which gives
/// the string that holds the character and nothing else.
#[verifier::external_body]
fn char_to_string(ch: char) -> (r: String)
    ensures
        r@ == seq![ch],
{
    ch.to_string()
}

} // verus!

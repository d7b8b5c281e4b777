use glyph_text::{Color, FloatBits, Font, FontId, Scale, TextFragment};

fn num(x: f32) -> FloatBits {
    FloatBits { bits: x.to_bits() }
}

fn red() -> Color {
    Color { r: num(1.0), g: num(0.0), b: num(0.0), a: num(1.0) }
}

#[test]
fn default_fragment_is_empty() {
    let f = TextFragment::default();
    assert_eq!(f.text, "");
    assert_eq!(f.color, None);
    assert_eq!(f.font, None);
    assert_eq!(f.scale, None);
}

#[test]
fn fragment_from_text() {
    let from_str = TextFragment::new("foo");
    assert_eq!(from_str.text, "foo");
    assert_eq!((from_str.color, from_str.font, from_str.scale), (None, None, None));
    let from_string = TextFragment::new(String::from("bar"));
    assert_eq!(from_string.text, "bar");
    assert_eq!((from_string.color, from_string.font, from_string.scale), (None, None, None));
    let from_char = TextFragment::new('\u{e9}');
    assert_eq!(from_char.text, "\u{e9}");
    assert_eq!((from_char.color, from_char.font, from_char.scale), (None, None, None));
}

#[test]
fn fragment_from_text_and_options() {
    let f = TextFragment::new(("foo", Font { font_id: FontId(3) }, num(12.5)));
    assert_eq!(f.text, "foo");
    assert_eq!(f.font, Some(Font { font_id: FontId(3) }));
    assert_eq!(f.scale, Some(Scale { x: num(12.5), y: num(12.5) }));
    assert_eq!(f.color, None);

    let f = TextFragment::new((String::from("foo"), red()));
    assert_eq!(f.text, "foo");
    assert_eq!(f.color, Some(red()));
    assert_eq!((f.font, f.scale), (None, None));

    let scale = Scale { x: num(1.0), y: num(2.0) };
    let f = TextFragment::new((String::from("foo"), FontId(2), scale));
    assert_eq!(f.text, "foo");
    assert_eq!(f.font, Some(Font { font_id: FontId(2) }));
    assert_eq!(f.scale, Some(scale));
    assert_eq!(f.color, None);

    let nested = TextFragment::new((("foo", red()), Font::default(), num(8.0)));
    assert_eq!(nested.text, "foo");
    assert_eq!(nested.color, Some(red()));
    assert_eq!(nested.font, Some(Font { font_id: FontId(0) }));
}

#[test]
fn fragment_builders_set_one_option_each() {
    let f = TextFragment::new("foo").color(red());
    assert_eq!((f.color, f.font, f.scale), (Some(red()), None, None));
    let font = Font { font_id: FontId(7) };
    let f = f.font(font);
    assert_eq!((f.color, f.font, f.scale), (Some(red()), Some(font), None));
    let scale = Scale::uniform(num(20.0));
    let f = f.scale(scale);
    assert_eq!((f.color, f.font, f.scale), (Some(red()), Some(font), Some(scale)));
    assert_eq!(f.text, "foo");
    let g = f.clone();
    assert_eq!((g.color, g.font, g.scale), (Some(red()), Some(font), Some(scale)));
    assert_eq!(g.text, "foo");
}

#[test]
fn numbers_have_the_bits_of_floats() {
    assert_eq!(glyph_text::DEFAULT_FONT_SCALE, 16.0f32.to_bits());
    assert_eq!(FloatBits::infinity(), num(f32::INFINITY));
    assert!(num(f32::INFINITY).is_infinity());
    assert!(!num(f32::NEG_INFINITY).is_infinity());
    assert!(!num(f32::NAN).is_infinity());
    assert!(!num(f32::MAX).is_infinity());
    assert_eq!(Color::white(), Color { r: num(1.0), g: num(1.0), b: num(1.0), a: num(1.0) });
    assert_eq!(red().components(), [num(1.0), num(0.0), num(0.0), num(1.0)]);
}

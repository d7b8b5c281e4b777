use glyph_text::{
    Align, BlendMode, Color, FloatBits, Font, FontId, Layout, LineBreaker, Point2, Scale, Shift,
    Text, TextFragment, VerticalAlign,
};

fn num(x: f32) -> FloatBits {
    FloatBits { bits: x.to_bits() }
}

fn point(x: f32, y: f32) -> Point2 {
    Point2 { x: num(x), y: num(y) }
}

fn color(r: f32, g: f32, b: f32, a: f32) -> Color {
    Color { r: num(r), g: num(g), b: num(b), a: num(a) }
}

fn wrap(h_align: Align) -> Layout {
    Layout::Wrap {
        line_breaker: LineBreaker::UnicodeLineBreaker,
        h_align,
        v_align: VerticalAlign::Top,
    }
}

#[test]
fn new_text_represents_its_fragment() {
    let text = Text::new("foo");
    assert_eq!(text.contents(), "foo");
    assert_eq!(text.fragments().len(), 1);
    assert_eq!(text.fragments()[0].text, "foo");
    assert_eq!(text.blend_mode(), None);
}

#[test]
fn default_text_is_empty() {
    let text = Text::default();
    assert_eq!(text.contents(), "");
    assert_eq!(text.fragments().len(), 0);
    let section = text.generate_varied_section(point(3.0, 4.0), None);
    assert!(section.text.is_empty());
    assert_eq!(section.screen_position.dest, point(3.0, 4.0));
    assert_eq!(section.screen_position.shift, Shift::Zero);
    assert_eq!(section.bounds, (num(f32::INFINITY), num(f32::INFINITY)));
    assert_eq!(section.z, num(0.0));
    assert_eq!(section.layout, wrap(Align::Left));
}

#[test]
fn added_text_is_appended() {
    let mut text = Text::new("foo");
    assert_eq!(text.contents(), "foo");
    text.add(" ").add(TextFragment::new("bar")).add('!');
    assert_eq!(text.contents(), "foo bar!");
    assert_eq!(text.contents(), "foo bar!");
    assert_eq!(text.fragments().len(), 4);
}

#[test]
fn contents_follow_written_fragments() {
    let mut text = Text::new("foo");
    text.add("bar");
    assert_eq!(text.contents(), "foobar");
    text.fragments_mut()[0].text = String::from("baz");
    assert_eq!(text.contents(), "bazbar");
    assert_eq!(text.contents(), "bazbar");
    text.add("!");
    assert_eq!(text.contents(), "bazbar!");
    text.fragments_mut()[1].color = Some(color(0.0, 1.0, 0.0, 1.0));
    assert_eq!(text.fragments()[1].color, Some(color(0.0, 1.0, 0.0, 1.0)));
    assert_eq!(text.contents(), "bazbar!");
}

#[test]
fn style_keeps_contents() {
    let mut text = Text::new("foo");
    text.set_bounds(point(100.0, 50.0), Align::Right)
        .set_font(Font { font_id: FontId(1) }, Scale::uniform(num(30.0)));
    text.set_blend_mode(Some(BlendMode::Add));
    assert_eq!(text.contents(), "foo");
    assert_eq!(text.blend_mode(), Some(BlendMode::Add));
}

#[test]
fn clone_is_independent() {
    let mut text = Text::new("foo");
    text.set_bounds(point(10.0, 20.0), Align::Center);
    text.set_blend_mode(Some(BlendMode::Darken));
    assert_eq!(text.contents(), "foo");
    let mut copy = text.clone();
    assert_eq!(copy.contents(), "foo");
    assert_eq!(copy.blend_mode(), Some(BlendMode::Darken));
    copy.add("bar");
    assert_eq!(copy.contents(), "foobar");
    assert_eq!(text.contents(), "foo");
    let section = copy.generate_varied_section(point(0.0, 0.0), None);
    assert_eq!(section.bounds, (num(10.0), num(20.0)));
    assert_eq!(section.layout, wrap(Align::Center));
}

#[test]
fn fragment_options_take_precedence() {
    let own_font = Font { font_id: FontId(5) };
    let own_scale = Scale { x: num(7.0), y: num(9.0) };
    let own_color = color(0.25, 0.5, 0.75, 1.0);
    let mut text = Text::new("plain");
    text.add(TextFragment::new("own").color(own_color).font(own_font).scale(own_scale));
    text.set_font(Font { font_id: FontId(2) }, Scale::uniform(num(30.0)));
    let asked = color(0.0, 0.0, 1.0, 0.5);

    let section = text.generate_varied_section(point(0.0, 0.0), Some(asked));
    assert_eq!(section.text.len(), 2);
    assert_eq!(section.text[0].text, "plain");
    assert_eq!(section.text[0].color, [num(0.0), num(0.0), num(1.0), num(0.5)]);
    assert_eq!(section.text[0].font_id, FontId(2));
    assert_eq!(section.text[0].scale, Scale::uniform(num(30.0)));
    assert_eq!(section.text[1].text, "own");
    assert_eq!(section.text[1].color, [num(0.25), num(0.5), num(0.75), num(1.0)]);
    assert_eq!(section.text[1].font_id, FontId(5));
    assert_eq!(section.text[1].scale, own_scale);

    let section = text.generate_varied_section(point(0.0, 0.0), None);
    assert_eq!(section.text[0].color, [num(1.0); 4]);
    assert_eq!(section.text[1].color, [num(0.25), num(0.5), num(0.75), num(1.0)]);
}

#[test]
fn default_font_and_scale() {
    let text = Text::new("foo");
    let section = text.generate_varied_section(point(0.0, 0.0), None);
    assert_eq!(section.text[0].font_id, FontId(0));
    assert_eq!(section.text[0].scale, Scale { x: num(16.0), y: num(16.0) });
}

#[test]
fn bounds_shift_the_section_by_alignment() {
    let cases = [
        (Align::Left, Shift::Zero),
        (Align::Center, Shift::HalfWidth),
        (Align::Right, Shift::FullWidth),
    ];
    for (align, shift) in cases {
        let mut text = Text::new("foo");
        text.set_bounds(point(100.0, f32::INFINITY), align);
        let section = text.generate_varied_section(point(1.0, 2.0), None);
        assert_eq!(section.screen_position.dest, point(1.0, 2.0));
        assert_eq!(section.screen_position.shift, shift);
        assert_eq!(section.bounds, (num(100.0), num(f32::INFINITY)));
        assert_eq!(section.layout, wrap(align));
    }
}

#[test]
fn unbounded_text_goes_back_to_the_default_layout() {
    let mut text = Text::new("foo");
    text.set_bounds(point(100.0, 100.0), Align::Right);
    text.set_bounds(point(f32::INFINITY, 100.0), Align::Center);
    let section = text.generate_varied_section(point(1.0, 2.0), None);
    assert_eq!(section.layout, wrap(Align::Left));
    assert_eq!(section.screen_position.shift, Shift::Zero);
    assert_eq!(section.bounds, (num(f32::INFINITY), num(100.0)));
}

#[test]
fn last_setting_counts_in_any_order() {
    let font = Font { font_id: FontId(4) };
    let scale = Scale::uniform(num(11.0));
    let mut a = Text::default();
    a.set_bounds(point(1.0, 1.0), Align::Right)
        .set_bounds(point(2.0, 3.0), Align::Center)
        .set_font(Font::default(), Scale::uniform(num(1.0)))
        .set_font(font, scale)
        .add("foo");
    let mut b = Text::default();
    b.add("foo").set_font(font, scale).set_bounds(point(2.0, 3.0), Align::Center);
    let sa = a.generate_varied_section(point(0.0, 0.0), None);
    let sb = b.generate_varied_section(point(0.0, 0.0), None);
    assert_eq!(sa.layout, sb.layout);
    assert_eq!(sa.bounds, sb.bounds);
    assert_eq!(sa.bounds, (num(2.0), num(3.0)));
    assert_eq!(sa.text[0].font_id, FontId(4));
    assert_eq!(sb.text[0].font_id, FontId(4));
    assert_eq!(sa.text[0].scale, sb.text[0].scale);
    assert_eq!(a.contents(), b.contents());
}

#[test]
fn section_draws_the_contents() {
    let mut text = Text::new("one ");
    text.add("two ").add('3');
    let section = text.generate_varied_section(point(0.0, 0.0), None);
    let drawn: String = section.text.iter().map(|run| run.text).collect();
    assert_eq!(drawn, text.contents());
}

#[test]
fn section_asks_for_loaded_fonts() {
    let loaded = 3;
    let mut text = Text::new("plain");
    text.add(TextFragment::new("own").font(Font { font_id: FontId(2) }));
    text.set_font(Font { font_id: FontId(1) }, Scale::uniform(num(16.0)));
    let section = text.generate_varied_section(point(0.0, 0.0), None);
    assert!(section.text.iter().all(|run| run.font_id.0 < loaded));
}

#[test]
fn text_from_a_fragment_holds_it() {
    let own = color(0.25, 0.5, 0.75, 1.0);
    let text = Text::new(TextFragment::new(TextFragment::new("foo").color(own)));
    assert_eq!(text.fragments().len(), 1);
    assert_eq!(text.fragments()[0].text, "foo");
    assert_eq!(text.fragments()[0].color, Some(own));
}

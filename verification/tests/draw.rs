use glyph_brush::{GlyphBrush, GlyphBrushBuilder, GlyphCruncher};
use glyph_text::font_file::check_font_file;
use glyph_text::{
    batch_param, draw_queued_text, texture_created, to_vertex, update_texture, BatchParam, BrushAction, Color, DrawParam,
    DrawStep, FloatBits, Font, FontId, GlyphContext, GlyphVertex, PixelPoint, PixelRect, Point2,
    Span, TextureSize,
};

fn num(x: f32) -> FloatBits {
    FloatBits { bits: x.to_bits() }
}

fn context() -> GlyphContext {
    let brush: GlyphBrush<'static, DrawParam> = GlyphBrushBuilder::using_fonts(vec![]).build();
    GlyphContext {
        glyph_brush: brush,
        glyph_cache: TextureSize { width: 256, height: 256 },
        glyph_state: vec![],
    }
}

fn vertex(n: i32) -> GlyphVertex {
    GlyphVertex {
        tex_min: Point2 { x: num(0.25), y: num(0.5) },
        tex_max: Point2 { x: num(0.75), y: num(0.625) },
        pixel_min: PixelPoint { x: n, y: -n },
        color: [num(0.1), num(0.2), num(0.3), num(0.4)],
    }
}

/// A font file with the tables that are looked at when a font is opened.
fn font_file(start: u8) -> Vec<u8> {
    let tags = ["cmap", "glyf", "head", "hhea", "hmtx", "loca", "maxp"];
    let mut file = vec![0, start, 0, 0, 0, tags.len() as u8, 0, 0, 0, 0, 0, 0];
    for (i, tag) in tags.iter().enumerate() {
        let offset = 12 + 16 * tags.len() as u32 + 60 * i as u32;
        file.extend_from_slice(tag.as_bytes());
        file.extend_from_slice(&[0; 4]);
        file.extend_from_slice(&offset.to_be_bytes());
        file.extend_from_slice(&60u32.to_be_bytes());
    }
    let cmap = file.len();
    file.extend(vec![0; 60 * tags.len()]);
    // One record: Microsoft, Unicode, subtable 12 bytes into the table.
    file[cmap..cmap + 12].copy_from_slice(&[0, 0, 0, 1, 0, 3, 0, 1, 0, 0, 0, 12]);
    file
}

#[test]
fn glyph_becomes_a_sprite() {
    let param = to_vertex(vertex(7));
    assert_eq!(param.src.x, num(0.25));
    assert_eq!(param.src.y, num(0.5));
    assert_eq!(param.src.w, Span { start: num(0.25), end: num(0.75) });
    assert_eq!(param.src.h, Span { start: num(0.5), end: num(0.625) });
    assert_eq!(param.dest, PixelPoint { x: 7, y: -7 });
    assert_eq!(param.color, Color { r: num(0.1), g: num(0.2), b: num(0.3), a: num(0.4) });
}

#[test]
fn texture_update_is_white_with_alpha() {
    let rect = PixelRect { min_x: 3, min_y: 5, max_x: 6, max_y: 7 };
    let update = update_texture(rect, &[0, 1, 2, 3, 128, 255]);
    assert_eq!((update.xoffset, update.yoffset, update.zoffset), (3, 5, 0));
    assert_eq!((update.width, update.height, update.depth), (3, 2, 0));
    assert_eq!(update.mipmap, 0);
    assert_eq!(
        update.data,
        vec![
            [255, 255, 255, 0],
            [255, 255, 255, 1],
            [255, 255, 255, 2],
            [255, 255, 255, 3],
            [255, 255, 255, 128],
            [255, 255, 255, 255],
        ]
    );
}

#[test]
fn texture_update_keeps_sixteen_bits() {
    let rect = PixelRect { min_x: 65537, min_y: 2, max_x: 131080, max_y: 65540 };
    let update = update_texture(rect, &[]);
    assert_eq!((update.xoffset, update.yoffset), (1, 2));
    assert_eq!((update.width, update.height), (7, 2));
    assert!(update.data.is_empty());
}

#[test]
fn draw_replaces_the_sprites() {
    let mut ctx = context();
    ctx.glyph_state = vec![to_vertex(vertex(9))];
    let params = vec![to_vertex(vertex(1)), to_vertex(vertex(2))];
    let step = draw_queued_text(&mut ctx, BrushAction::Draw(params.clone()));
    assert!(matches!(step, DrawStep::DrawState));
    assert_eq!(ctx.glyph_state, params);
    let step = draw_queued_text(&mut ctx, BrushAction::ReDraw);
    assert!(matches!(step, DrawStep::DrawState));
    assert_eq!(ctx.glyph_state, params);
}

#[test]
fn too_small_texture_is_replaced() {
    let mut ctx = context();
    let params = vec![to_vertex(vertex(1))];
    ctx.glyph_state = params.clone();
    let suggested = (512, 300);
    let step = draw_queued_text(&mut ctx, BrushAction::TextureTooSmall { suggested });
    match step {
        DrawStep::CreateTexture { size, data, suggested: handed_back } => {
            assert_eq!(handed_back, suggested);
            assert_eq!(size, TextureSize { width: 512, height: 300 });
            assert_eq!(data, vec![255; 4 * 512 * 300]);
        }
        _ => panic!("a texture is to be created"),
    }
    assert_eq!(ctx.glyph_cache, TextureSize { width: 256, height: 256 });
    assert_eq!(ctx.glyph_brush.texture_dimensions(), (256, 256));
    let step = texture_created(&mut ctx, suggested);
    assert!(matches!(step, DrawStep::ProcessQueue));
    assert_eq!(ctx.glyph_cache, TextureSize { width: 512, height: 300 });
    assert_eq!(ctx.glyph_brush.texture_dimensions(), (512, 300));
    assert_eq!(ctx.glyph_state, params);
}

#[test]
fn text_is_drawn_after_the_texture_is_replaced() {
    let mut ctx = context();
    ctx.glyph_state = vec![to_vertex(vertex(9))];
    let mut step = DrawStep::ProcessQueue;
    let params = vec![to_vertex(vertex(1)), to_vertex(vertex(2))];
    let mut actions = vec![
        BrushAction::Draw(params.clone()),
        BrushAction::TextureTooSmall { suggested: (1024, 1024) },
        BrushAction::TextureTooSmall { suggested: (512, 512) },
    ];
    while !matches!(step, DrawStep::DrawState) {
        step = match step {
            DrawStep::ProcessQueue => draw_queued_text(&mut ctx, actions.pop().unwrap()),
            DrawStep::CreateTexture { suggested, .. } => texture_created(&mut ctx, suggested),
            DrawStep::DrawState => unreachable!(),
        };
    }
    assert!(actions.is_empty());
    assert_eq!(ctx.glyph_state, params);
    assert_eq!(ctx.glyph_brush.texture_dimensions(), (1024, 1024));
    assert_eq!(ctx.glyph_cache, TextureSize { width: 1024, height: 1024 });
}

#[test]
fn oversized_texture_is_truncated() {
    let mut ctx = context();
    let suggested = (65536 + 4, 1);
    match draw_queued_text(&mut ctx, BrushAction::TextureTooSmall { suggested }) {
        DrawStep::CreateTexture { size, data, .. } => {
            assert_eq!(size, TextureSize { width: 4, height: 1 });
            assert_eq!(data.len(), 4 * 65540);
        }
        _ => panic!("a texture is to be created"),
    }
}

#[test]
fn loaded_fonts_are_numbered() {
    let mut ctx = context();
    let file = font_file(1);
    let first = Font::try_new_glyph_font_bytes(&mut ctx, &file);
    assert_eq!(first, Some(Font { font_id: FontId(0) }));
    assert_eq!(first, Some(Font::default()));
    let second = Font::new_glyph_font_bytes(&mut ctx, &file);
    assert_eq!(second, Font { font_id: FontId(1) });
    assert_eq!(ctx.glyph_brush.fonts().len(), 2);
    assert_eq!(ctx.glyph_brush.texture_dimensions(), (256, 256));
}

#[test]
fn bytes_that_are_no_font_are_refused() {
    let mut ctx = context();
    assert_eq!(Font::try_new_glyph_font_bytes(&mut ctx, &[]), None);
    assert_eq!(Font::try_new_glyph_font_bytes(&mut ctx, b"not a font"), None);
    let file = font_file(1);
    assert_eq!(Font::try_new_glyph_font_bytes(&mut ctx, &font_file(2)), None);
    for len in 0..file.len() {
        let cut = &file[..len];
        let font = Font::try_new_glyph_font_bytes(&mut ctx, cut);
        if font.is_some() {
            // What is cut off is not looked at.
            assert!(check_font_file(cut));
            assert!(len >= 12 + 16 * 7);
        }
    }
    // A table that is needed is missing.
    let mut missing = file.clone();
    missing[12] = b'x';
    assert!(check_font_file(&missing));
    assert_eq!(Font::try_new_glyph_font_bytes(&mut ctx, &missing), None);
}

#[test]
fn tables_outside_of_the_file_are_found_out() {
    let file = font_file(1);
    assert!(check_font_file(&file));
    // The offsets of the tables cmap, head and maxp.
    for entry in [0, 2, 6] {
        let mut broken = file.clone();
        let at = 12 + 16 * entry + 8;
        broken[at..at + 4].copy_from_slice(&[0xff, 0xff, 0xff, 0xf0]);
        assert!(!check_font_file(&broken));
    }
    // More tables than there are.
    let mut broken = file.clone();
    broken[4] = 0xff;
    assert!(!check_font_file(&broken));
    // A record of the character map that points too far.
    let mut broken = file.clone();
    let cmap = 12 + 16 * 7;
    broken[cmap + 8..cmap + 12].copy_from_slice(&[0xff; 4]);
    assert!(!check_font_file(&broken));
    // A table of a tag that was seen before is not looked at.
    let mut second = file.clone();
    second[12 + 16..12 + 16 + 4].copy_from_slice(b"cmap");
    second[12 + 16 + 8..12 + 16 + 12].copy_from_slice(&[0xff, 0xff, 0xff, 0xf0]);
    assert!(check_font_file(&second));
    // A record for another platform is not followed.
    let mut other = file.clone();
    other[cmap + 4..cmap + 8].copy_from_slice(&[0, 1, 0, 0]);
    other[cmap + 8..cmap + 12].copy_from_slice(&[0xff; 4]);
    assert!(check_font_file(&other));
}

#[test]
fn second_table_of_a_tag_does_not_matter() {
    // Eight tables, of which the last is a second "cmap" that points outside.
    let first = font_file(1);
    let mut file = first[..12 + 16 * 7].to_vec();
    file[5] = 8;
    for entry in 0..7 {
        let at = 12 + 16 * entry + 8;
        let offset = u32::from_be_bytes([file[at], file[at + 1], file[at + 2], file[at + 3]]) + 16;
        file[at..at + 4].copy_from_slice(&offset.to_be_bytes());
    }
    file.extend_from_slice(b"cmap\x00\x00\x00\x00\xff\xff\xff\xf0\x00\x00\x00\x00");
    file.extend_from_slice(&first[12 + 16 * 7..]);
    let mut ctx = context();
    let font = Font::try_new_glyph_font_bytes(&mut ctx, &file);
    assert_eq!(font, Some(Font { font_id: FontId(0) }));
}

#[test]
fn collections_are_followed_to_a_single_font() {
    let header = |fonts: u8| {
        let mut file = b"ttcf\x00\x01\x00\x00\x00\x00\x00".to_vec();
        file.push(fonts);
        file.extend_from_slice(&[0, 0, 0, 20, 0, 0, 0, 0]);
        file
    };
    let mut ctx = context();
    assert!(!check_font_file(&header(1)));
    assert!(check_font_file(&header(2)));
    assert!(!check_font_file(&header(2)[..19]));
    assert!(check_font_file(&header(0)));
    for fonts in [0, 1, 2] {
        assert_eq!(Font::try_new_glyph_font_bytes(&mut ctx, &header(fonts)), None);
    }
    let mut file = header(1);
    let mut font = font_file(1);
    for entry in 0..7 {
        let at = 12 + 16 * entry + 8;
        let offset = u32::from_be_bytes([font[at], font[at + 1], font[at + 2], font[at + 3]]) + 20;
        font[at..at + 4].copy_from_slice(&offset.to_be_bytes());
    }
    file.extend_from_slice(&font);
    let loaded = Font::try_new_glyph_font_bytes(&mut ctx, &file);
    assert_eq!(loaded, Some(Font { font_id: FontId(0) }));
}

#[test]
fn color_of_the_batch_is_ignored() {
    let param = BatchParam {
        dest: Point2 { x: num(1.0), y: num(2.0) },
        rotation: num(0.5),
        scale: Point2 { x: num(3.0), y: num(4.0) },
        offset: Point2 { x: num(5.0), y: num(6.0) },
        color: Color { r: num(0.1), g: num(0.2), b: num(0.3), a: num(0.4) },
    };
    assert_eq!(batch_param(param), BatchParam { color: Color::white(), ..param });
}

[package]
name = "glyph_text"
version = "0.1.0"
edition = "2021"
publish = false

[dependencies]
glyph_brush = "=0.4.3"
mint = "=0.5.9"
gfx = "=0.18.3"

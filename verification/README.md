# glyph_text

Text for a sprite renderer: styled fragments that make up a `Text`, the section that a glyph
brush lays out, the fonts of the brush, and the steps that bring queued text to the screen.

- `src/` is the library, verified with Verus. Numbers that a device takes in floating point are
  carried by their bit patterns (`style.rs`). `laws.rs` holds what is proved of the library as a
  whole.
- `app/` draws with `gfx` what the library decides. Floating point arithmetic, custom glyph
  positioners and the device are there.
- `tests/` runs the library together with the real `glyph_brush`.

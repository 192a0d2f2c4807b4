# picopi

A tile-and-sprite graphics core for a 320 x 240 display, a small grid game, and a
desktop front end, with the core and the game logic proved correct in Verus.

## Layout

- `src/graphics/hires_core/` — the rasterizer.
  - `registers.rs`: the virtual registers (atlases, layers, palettes, sprites).
  - `model.rs`: what every pixel, scanline and frame is, as spec functions over the
    registers, the memory and the scanline.
  - `raster.rs`: the rasterizer's steps; each returns what the model states, and tells
    where a step is not defined.
  - `engine.rs`: `HiResCore`, which draws scanlines and frames into a `Display` and
    raises interrupts at a `DisplayIrq`. Both traits keep, as a spec function, the
    calls they have received; the cores' contracts are stated over those records.
  - `laws.rs`: properties of the rasterizer (error stickiness, frame timing, scanline
    width, layer order, transparency, 4-bit packing).
- `src/graphics/debug_core.rs`, `framebuffer.rs`, `text.rs` — a test-image core, the
  pixel buffer a display keeps, and writing text into the text layer.
- `src/bomberman/` — the game field, its entities and the movement rules; `laws.rs`
  holds the properties of movement and that death is permanent.
- `tests/` — tests of the library.
- `app/` — the desktop front end (SDL2 window).

Run the verifier with `verus src/lib.rs` (the library depends on `heapless`).

//! What the core computes, stated over the register contents and the memory.
//!
//! Each function returns `None` on the inputs where the computation is not defined
//! (an index past the end of a register array, a division by zero, an arithmetic
//! overflow, or a read past the end of memory), and `Some` of the result otherwise.
use vstd::prelude::*;

use super::registers::{error_code, GfxError, PixelAtlas, RegisterSet, Sprite, StorageMode, EMPTY_ATLAS_ID, SPRITE_LAYER};
use crate::graphics::{green, is_magenta, pixel_events, Color, DisplayEvent, Irq};

verus! {

/// Largest value of a `u16`.
pub open spec fn u16_max() -> int {
    0xFFFF
}

/// The color index stored for pixel `offset` of atlas `atlas_id`.
///
/// An atlas holds `sizex * sizey` pixels. In 8-bit mode byte `offset` is the index. In
/// 4-bit mode byte `offset / 2` holds two indices: the high nibble for an even offset,
/// the low nibble for an odd one. An id past the 16 atlas slots is `BadAtlasId`, an
/// atlas without memory `BadAtlasPtr`, a pixel outside the atlas `BadAtlasSize`.
pub open spec fn atlas_data(regs: RegisterSet, mem: Seq<u8>, atlas_id: u8, offset: usize) -> Option<
    Result<u8, GfxError>,
> {
    if atlas_id >= 16 {
        Some(Err(GfxError::BadAtlasId))
    } else {
        let atlas = regs.pixel_atlasses[atlas_id as int];
        match atlas.data {
            None => Some(Err(GfxError::BadAtlasPtr)),
            Some(base) => {
                let eight = atlas.storage_mode == StorageMode::EightBit;
                if offset >= atlas.sizex * atlas.sizey {
                    Some(Err(GfxError::BadAtlasSize))
                } else {
                    let byte_offset: int = if eight {
                        offset as int
                    } else {
                        offset as int / 2
                    };
                    if base + byte_offset >= mem.len() {
                        None
                    } else {
                        let b = mem[base + byte_offset];
                        if eight {
                            Some(Ok(b))
                        } else if offset % 2 == 1 {
                            Some(Ok(b & 0x0Fu8))
                        } else {
                            Some(Ok(b >> 4u8))
                        }
                    }
                }
            },
        }
    }
}

/// The pixel offset into atlas `atlas_id` of pixel (`pixelx`, `pixely`) of tile `tile_id`,
/// the atlas being cut into tiles of `tilew` x `tileh` pixels, row by row.
/// `None` where a step of the `u16` arithmetic divides by zero or overflows.
pub open spec fn tile_pixel_offset(
    atlas: PixelAtlas,
    tile_id: u16,
    tilew: u8,
    tileh: u8,
    pixelx: u16,
    pixely: u16,
) -> Option<u16> {
    if tilew == 0 {
        None
    } else {
        let atlas_width: int = atlas.sizex as int / tilew as int;
        if atlas_width == 0 {
            None
        } else {
            let tile_col: int = tile_id as int % atlas_width;
            let tile_row_start: int = (tile_id - tile_col) * (tilew * tileh);
            let col_start: int = tile_col * tilew;
            let row_offset: int = pixely * atlas.sizex;
            let start: int = tile_row_start + col_start;
            let intra_tile_start: int = start + row_offset;
            let offset: int = intra_tile_start + pixelx;
            if tile_row_start > u16_max() || col_start > u16_max() || start > u16_max()
                || row_offset > u16_max() || intra_tile_start > u16_max() || offset > u16_max() {
                None
            } else {
                Some(offset as u16)
            }
        }
    }
}

/// The color index of pixel (`pixelx`, `pixely`) of tile `tile_id` of atlas `atlas_id`.
pub open spec fn colorindex_from_atlas(
    regs: RegisterSet,
    mem: Seq<u8>,
    atlas_id: u8,
    tile_id: u16,
    tilew: u8,
    tileh: u8,
    pixelx: u16,
    pixely: u16,
) -> Option<Result<u8, GfxError>> {
    if atlas_id >= 16 {
        Some(Err(GfxError::BadAtlasId))
    } else {
        let atlas = regs.pixel_atlasses[atlas_id as int];
        if atlas.sizex == 0 || atlas.sizey == 0 {
            Some(Err(GfxError::BadAtlasId))
        } else {
            match tile_pixel_offset(atlas, tile_id, tilew, tileh, pixelx, pixely) {
                None => None,
                Some(offset) => atlas_data(regs, mem, atlas_id, offset as usize),
            }
        }
    }
}

/// Entry `entry_id` of palette `palette_id`: 4 bytes at address `palette + 4 * entry_id`,
/// blue, green, red and alpha in that order; the alpha byte is not used. An id past the
/// 32 palette slots is `BadPaletteId`, a palette without memory `BadPalettePtr`.
pub open spec fn palette_entry(regs: RegisterSet, mem: Seq<u8>, palette_id: u8, entry_id: u8) -> Option<
    Result<Color, GfxError>,
> {
    if palette_id >= 32 {
        Some(Err(GfxError::BadPaletteId))
    } else {
        match regs.palettes[palette_id as int] {
            None => Some(Err(GfxError::BadPalettePtr)),
            Some(p) => {
                let start: int = p + 4 * entry_id;
                if start + 3 >= mem.len() {
                    None
                } else {
                    Some(Ok(Color { r: mem[start + 2], g: mem[start + 1], b: mem[start] }))
                }
            },
        }
    }
}

/// Maps a resolved palette color to the color to draw: magenta is transparent.
pub open spec fn opaque_color(c: Color) -> Option<Color> {
    if is_magenta(c) {
        None
    } else {
        Some(c)
    }
}

/// What layer `layer` shows at pixel `pixel` of scanline `line`: `Ok(None)` where it is
/// transparent there.
pub open spec fn layer_pixel(regs: RegisterSet, mem: Seq<u8>, line: u16, pixel: u16, layer: int) -> Option<
    Result<Option<Color>, GfxError>,
> {
    let l = regs.layers[layer];
    if l.tilex == 0 || l.tiley == 0 {
        Some(Ok(None))
    } else {
        let row: int = line as int / l.tiley as int;
        let col: int = pixel as int / l.tilex as int;
        let row_start: int = row * 40;
        let tile_index: int = row_start + col;
        if row_start > u16_max() || tile_index > u16_max() || tile_index >= 1200 {
            None
        } else {
            let tile = l.tiles[tile_index];
            let tile_pixel_x = (pixel as int % l.tilex as int) as u16;
            let tile_pixel_y = (line as int % l.tiley as int) as u16;
            if tile.atlas_id == EMPTY_ATLAS_ID {
                Some(Ok(None))
            } else {
                match colorindex_from_atlas(
                    regs,
                    mem,
                    tile.atlas_id,
                    tile.tile_id as u16,
                    l.tilex,
                    l.tiley,
                    tile_pixel_x,
                    tile_pixel_y,
                ) {
                    None => None,
                    Some(Err(e)) => Some(Err(e)),
                    Some(Ok(index)) => if index == 0 {
                        Some(Ok(None))
                    } else {
                        match palette_entry(regs, mem, tile.palette_id, index) {
                            None => None,
                            Some(Err(e)) => Some(Err(e)),
                            Some(Ok(c)) => Some(Ok(opaque_color(c))),
                        }
                    },
                }
            }
        }
    }
}

/// Whether sprite slot `s` is unused.
pub open spec fn sprite_unused(s: Sprite) -> bool {
    s.posx == -1 && s.posy == -1
}

/// Whether the span [`start`, `start` + `len`) covers `p`; `None` where `start + len`
/// overflows an `i16` and is needed to tell.
pub open spec fn span_covers(start: i16, len: i16, p: i16) -> Option<bool> {
    if !(start <= p) {
        Some(false)
    } else if start + len > 0x7FFF || start + len < -0x8000 {
        None
    } else {
        Some(p < start + len)
    }
}

/// What sprite `s`, known to cover pixel (`px`, `py`), shows there: `Ok(None)` where its
/// pixel is transparent (color index 0, or magenta).
pub open spec fn sprite_hit(regs: RegisterSet, mem: Seq<u8>, s: Sprite, px: i16, py: i16) -> Option<
    Result<Option<Color>, GfxError>,
> {
    if s.atlas_id >= 16 {
        Some(Err(GfxError::BadAtlasId))
    } else {
        let atlas = regs.pixel_atlasses[s.atlas_id as int];
        let atlas_x: int = s.atlasx + (px - s.posx);
        let atlas_y: int = s.atlasy + (py - s.posy);
        let row: int = atlas_y * atlas.sizex;
        let offset: int = row + atlas_x;
        if atlas_x > u16_max() || atlas_y > u16_max() || row > u16_max() || offset > u16_max() {
            None
        } else {
            match atlas_data(regs, mem, s.atlas_id, offset as usize) {
                None => None,
                Some(Err(e)) => Some(Err(e)),
                Some(Ok(index)) => if index == 0 {
                    Some(Ok(None))
                } else {
                    match palette_entry(regs, mem, s.palette_id, index) {
                        None => None,
                        Some(Err(e)) => Some(Err(e)),
                        Some(Ok(c)) => Some(Ok(opaque_color(c))),
                    }
                },
            }
        }
    }
}

/// What the sprites from slot `i` on show at pixel `pixel` of scanline `line`: the first
/// used sprite that covers the pixel with a color that is not transparent decides.
pub open spec fn sprite_pixel_from(regs: RegisterSet, mem: Seq<u8>, line: u16, pixel: u16, i: int) -> Option<
    Result<Option<Color>, GfxError>,
>
    decreases 64 - i,
{
    if i < 0 || i >= 64 {
        Some(Ok(None))
    } else {
        let s = regs.sprites[i];
        let px = pixel as i16;
        let py = line as i16;
        if sprite_unused(s) {
            sprite_pixel_from(regs, mem, line, pixel, i + 1)
        } else {
            match span_covers(s.posx, s.w, px) {
                None => None,
                Some(false) => sprite_pixel_from(regs, mem, line, pixel, i + 1),
                Some(true) => match span_covers(s.posy, s.h, py) {
                    None => None,
                    Some(false) => sprite_pixel_from(regs, mem, line, pixel, i + 1),
                    Some(true) => match sprite_hit(regs, mem, s, px, py) {
                        Some(Ok(None)) => sprite_pixel_from(regs, mem, line, pixel, i + 1),
                        other => other,
                    },
                },
            }
        }
    }
}

/// What the sprites show at pixel `pixel` of scanline `line`.
pub open spec fn sprite_pixel(regs: RegisterSet, mem: Seq<u8>, line: u16, pixel: u16) -> Option<
    Result<Option<Color>, GfxError>,
> {
    sprite_pixel_from(regs, mem, line, pixel, 0)
}

/// What layer `i` contributes at a pixel: on the sprite layer the sprites come first,
/// then the layer's tiles.
pub open spec fn level_pixel(regs: RegisterSet, mem: Seq<u8>, line: u16, pixel: u16, i: int) -> Option<
    Result<Option<Color>, GfxError>,
> {
    if i == SPRITE_LAYER {
        match sprite_pixel(regs, mem, line, pixel) {
            Some(Ok(None)) => layer_pixel(regs, mem, line, pixel, i),
            other => other,
        }
    } else {
        layer_pixel(regs, mem, line, pixel, i)
    }
}

/// The color of a pixel from layer `i` down: the first layer that shows a color decides,
/// green where none does.
pub open spec fn resolve_from(regs: RegisterSet, mem: Seq<u8>, line: u16, pixel: u16, i: int) -> Option<
    Result<Color, GfxError>,
>
    decreases 4 - i,
{
    if i < 0 || i >= 4 {
        Some(Ok(green()))
    } else {
        match level_pixel(regs, mem, line, pixel, i) {
            None => None,
            Some(Err(e)) => Some(Err(e)),
            Some(Ok(Some(c))) => Some(Ok(c)),
            Some(Ok(None)) => resolve_from(regs, mem, line, pixel, i + 1),
        }
    }
}

/// The color of pixel `pixel` of scanline `line`.
pub open spec fn resolve_pixel(regs: RegisterSet, mem: Seq<u8>, line: u16, pixel: u16) -> Option<
    Result<Color, GfxError>,
> {
    resolve_from(regs, mem, line, pixel, 0)
}

/// The pixels of scanline `line` from pixel `p` on, up to the first error, and that error.
pub open spec fn scanline_from(regs: RegisterSet, mem: Seq<u8>, line: u16, p: int) -> Option<
    (Seq<Color>, Option<GfxError>),
>
    decreases 320 - p,
{
    if p < 0 || p >= 320 {
        Some((Seq::empty(), None))
    } else {
        match resolve_pixel(regs, mem, line, p as u16) {
            None => None,
            Some(Err(e)) => Some((Seq::empty(), Some(e))),
            Some(Ok(c)) => prepend(seq![c], scanline_from(regs, mem, line, p + 1)),
        }
    }
}

/// `done` followed by the outcome `rest`.
pub open spec fn prepend(done: Seq<Color>, rest: Option<(Seq<Color>, Option<GfxError>)>) -> Option<
    (Seq<Color>, Option<GfxError>),
> {
    match rest {
        None => None,
        Some((cs, e)) => Some((done + cs, e)),
    }
}

/// The pixels of scanline `line` up to the first error, and that error.
pub open spec fn scanline_pixels(regs: RegisterSet, mem: Seq<u8>, line: u16) -> Option<
    (Seq<Color>, Option<GfxError>),
> {
    scanline_from(regs, mem, line, 0)
}

/// The interrupts raised at the end of scanline `line`.
pub open spec fn line_end_irqs(regs: RegisterSet, line: u16) -> Seq<Irq> {
    let compare: Seq<Irq> = if regs.LYXIrqEnable && regs.LYCCompare == line {
        seq![Irq::Scanline { scanline_index: line as usize }]
    } else {
        Seq::empty()
    };
    let line_end: Seq<Irq> = if regs.LENDIrqEnable {
        seq![Irq::Scanline { scanline_index: line as usize }]
    } else {
        Seq::empty()
    };
    let vsync: Seq<Irq> = if line == 239 {
        seq![Irq::VSync]
    } else {
        Seq::empty()
    };
    compare + line_end + vsync
}

/// The scanline that follows `line`.
pub open spec fn next_line(line: u16) -> u16 {
    if line >= 239 {
        0
    } else {
        (line + 1) as u16
    }
}

} // verus!

verus! {

/// The part of a core's state that rendering reads and changes: the registers, the
/// current scanline, the calls the display has received and the interrupts the
/// interrupt receiver has received.
pub struct FrameState {
    pub regs: RegisterSet,
    pub line: u16,
    pub display: Seq<DisplayEvent>,
    pub irqs: Seq<Irq>,
}

/// The registers with `code` recorded in the error register.
pub open spec fn with_error(regs: RegisterSet, code: u8) -> RegisterSet {
    RegisterSet { lastErr: code, ..regs }
}

/// The registers after scanline `line` has been drawn: an error met on the line is recorded.
pub open spec fn registers_after_line(regs: RegisterSet, mem: Seq<u8>, line: u16) -> RegisterSet {
    match scanline_pixels(regs, mem, line) {
        Some((_, Some(e))) => with_error(regs, error_code(e)),
        _ => regs,
    }
}

/// One scanline of rendering. Nothing happens while the output is disabled or once an
/// error is recorded.
pub open spec fn scanline_step(s: FrameState, mem: Seq<u8>) -> Option<FrameState> {
    if s.regs.lastErr != 0 || !s.regs.output_enable {
        Some(s)
    } else {
        match scanline_pixels(s.regs, mem, s.line) {
            None => None,
            Some((cs, _)) => Some(
                FrameState {
                    regs: registers_after_line(s.regs, mem, s.line),
                    line: next_line(s.line),
                    display: s.display + pixel_events(cs),
                    irqs: s.irqs + line_end_irqs(s.regs, s.line),
                },
            ),
        }
    }
}

/// `n` scanlines of rendering.
pub open spec fn scanline_steps(s: FrameState, mem: Seq<u8>, n: nat) -> Option<FrameState>
    decreases n,
{
    if n == 0 {
        Some(s)
    } else {
        match scanline_steps(s, mem, (n - 1) as nat) {
            None => None,
            Some(t) => scanline_step(t, mem),
        }
    }
}

} // verus!

verus! {

/// A frame: 240 scanlines of rendering, then the display is told to show the frame.
pub open spec fn frame_steps(s: FrameState, mem: Seq<u8>) -> Option<FrameState> {
    match scanline_steps(s, mem, 240) {
        None => None,
        Some(t) => Some(FrameState { display: t.display.push(DisplayEvent::Show), ..t }),
    }
}

} // verus!

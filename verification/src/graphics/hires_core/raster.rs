//! The rasterizer's steps as functions of the registers, the memory and the scanline.
//!
//! Each returns exactly what the model in `model` states, `None` included: where a
//! step is not defined (an index past a register array, a division by zero, an
//! arithmetic overflow, a read past the end of memory) it answers `None` instead of
//! computing, so that a caller can find out before drawing whether a scanline or a
//! frame can be drawn.
use vstd::prelude::*;

use super::model::{
    atlas_data, colorindex_from_atlas, layer_pixel, level_pixel, palette_entry, resolve_from,
    resolve_pixel, scanline_from, scanline_pixels, span_covers, sprite_hit, sprite_pixel,
    sprite_pixel_from, tile_pixel_offset,
};
use super::registers::{GfxError, RegisterSet, Sprite, StorageMode, EMPTY_ATLAS_ID, SPRITE_LAYER};
use crate::graphics::Color;

verus! {

/// The color index stored for pixel `offset` of atlas `atlas_id`.
pub fn atlas_data_of(regs: &RegisterSet, mem: &Vec<u8>, atlas_id: u8, offset: usize) -> (r: Option<
    Result<u8, GfxError>,
>)
    ensures
        r == atlas_data(*regs, mem@, atlas_id, offset),
{
    if atlas_id >= 16 {
        return Some(Err(GfxError::BadAtlasId));
    }
    let atlas = regs.pixel_atlasses[atlas_id as usize];
    let base = match atlas.data {
        None => {
            return Some(Err(GfxError::BadAtlasPtr));
        },
        Some(base) => base,
    };
    let sizex = atlas.sizex as u64;
    let sizey = atlas.sizey as u64;
    assert(sizex * sizey <= 0xFFFF * 0xFFFF) by (nonlinear_arith)
        requires
            sizex <= 0xFFFF,
            sizey <= 0xFFFF,
    ;
    let pixels_in_atlas = sizex * sizey;
    if offset as u64 >= pixels_in_atlas {
        return Some(Err(GfxError::BadAtlasSize));
    }
    let byte_offset: usize = match atlas.storage_mode {
        StorageMode::EightBit => offset,
        StorageMode::FourBit => offset / 2,
    };
    if base >= mem.len() || byte_offset >= mem.len() - base {
        return None;
    }
    let atlas_byte = mem[base + byte_offset];
    match atlas.storage_mode {
        StorageMode::EightBit => Some(Ok(atlas_byte)),
        StorageMode::FourBit => {
            if offset % 2 == 1 {
                Some(Ok(atlas_byte & 0x0F))
            } else {
                Some(Ok(atlas_byte >> 4))
            }
        },
    }
}

/// The color index of pixel (`pixelx`, `pixely`) of tile `tile_id` of atlas `atlas_id`,
/// the atlas being cut into tiles of `tilew` x `tileh` pixels.
pub fn colorindex_of(
    regs: &RegisterSet,
    mem: &Vec<u8>,
    atlas_id: u8,
    tile_id: u16,
    tilew: u8,
    tileh: u8,
    pixelx: u16,
    pixely: u16,
) -> (r: Option<Result<u8, GfxError>>)
    ensures
        r == colorindex_from_atlas(*regs, mem@, atlas_id, tile_id, tilew, tileh, pixelx, pixely),
{
    if atlas_id >= 16 {
        return Some(Err(GfxError::BadAtlasId));
    }
    let atlas = regs.pixel_atlasses[atlas_id as usize];
    if atlas.sizex == 0 || atlas.sizey == 0 {
        return Some(Err(GfxError::BadAtlasId));
    }
    if tilew == 0 {
        return None;
    }
    let atlas_width = atlas.sizex / (tilew as u16);
    if atlas_width == 0 {
        return None;
    }
    let tile_col = tile_id % atlas_width;
    assert(tile_col <= tile_id) by (nonlinear_arith)
        requires
            atlas_width > 0,
            tile_col as int == tile_id as int % atlas_width as int,
    ;
    let w = tilew as u64;
    let h = tileh as u64;
    let row_tiles = (tile_id - tile_col) as u64;
    let sizex = atlas.sizex as u64;
    let py = pixely as u64;
    assert(w * h <= 0xFF * 0xFF && row_tiles * (w * h) <= 0xFFFF * (0xFF * 0xFF) && (tile_col as u64) * w
        <= 0xFFFF * 0xFF && py * sizex <= 0xFFFF * 0xFFFF) by (nonlinear_arith)
        requires
            w <= 0xFF,
            h <= 0xFF,
            row_tiles <= 0xFFFF,
            tile_col <= 0xFFFF,
            py <= 0xFFFF,
            sizex <= 0xFFFF,
    ;
    let tile_row_start = row_tiles * (w * h);
    let col_start = (tile_col as u64) * w;
    let start = tile_row_start + col_start;
    let row_offset = py * sizex;
    let intra_tile_start = start + row_offset;
    let offset = intra_tile_start + pixelx as u64;
    if tile_row_start > 0xFFFF || col_start > 0xFFFF || start > 0xFFFF || row_offset > 0xFFFF
        || intra_tile_start > 0xFFFF || offset > 0xFFFF {
        return None;
    }
    assert(tile_pixel_offset(atlas, tile_id, tilew, tileh, pixelx, pixely) == Some(offset as u16));
    atlas_data_of(regs, mem, atlas_id, offset as usize)
}

/// Entry `entry_id` of palette `palette_id`.
pub fn palette_entry_of(regs: &RegisterSet, mem: &Vec<u8>, palette_id: u8, entry_id: u8) -> (r: Option<
    Result<Color, GfxError>,
>)
    ensures
        r == palette_entry(*regs, mem@, palette_id, entry_id),
{
    if palette_id >= 32 {
        return Some(Err(GfxError::BadPaletteId));
    }
    match regs.palettes[palette_id as usize] {
        None => Some(Err(GfxError::BadPalettePtr)),
        Some(p) => {
            let entry_start = 4 * (entry_id as usize);
            if p >= mem.len() || entry_start + 3 >= mem.len() - p {
                return None;
            }
            let start = p + entry_start;
            let v0 = mem[start];
            let v1 = mem[start + 1];
            let v2 = mem[start + 2];
            let _alpha = mem[start + 3];
            Some(Ok(Color { r: v2, g: v1, b: v0 }))
        },
    }
}

/// What layer `layer_index` shows at pixel `pixel_index` of scanline `line`.
pub fn layer_pixel_of(regs: &RegisterSet, mem: &Vec<u8>, line: u16, pixel_index: u16, layer_index: usize) -> (r: Option<
    Result<Option<Color>, GfxError>,
>)
    requires
        layer_index < 4,
    ensures
        r == layer_pixel(*regs, mem@, line, pixel_index, layer_index as int),
{
    let layer = &regs.layers[layer_index];
    if layer.tilex == 0 || layer.tiley == 0 {
        return Some(Ok(None));
    }
    let tilex = layer.tilex as u16;
    let tiley = layer.tiley as u16;
    let row = (line / tiley) as u32;
    let col = (pixel_index / tilex) as u32;
    let row_start = row * 40;
    let tile_index = row_start + col;
    if row_start > 0xFFFF || tile_index > 0xFFFF || tile_index >= 1200 {
        return None;
    }
    let tile_pixel_x = pixel_index % tilex;
    let tile_pixel_y = line % tiley;
    let the_tile = layer.tiles[tile_index as usize];
    if the_tile.atlas_id == EMPTY_ATLAS_ID {
        return Some(Ok(None));
    }
    match colorindex_of(
        regs,
        mem,
        the_tile.atlas_id,
        the_tile.tile_id as u16,
        layer.tilex,
        layer.tiley,
        tile_pixel_x,
        tile_pixel_y,
    ) {
        None => None,
        Some(Err(e)) => Some(Err(e)),
        Some(Ok(index)) => {
            if index == 0 {
                return Some(Ok(None));
            }
            match palette_entry_of(regs, mem, the_tile.palette_id, index) {
                None => None,
                Some(Err(e)) => Some(Err(e)),
                Some(Ok(c)) => {
                    if c.r == 255 && c.g == 0 && c.b == 255 {
                        Some(Ok(None))
                    } else {
                        Some(Ok(Some(c)))
                    }
                },
            }
        },
    }
}

/// Whether the span [`start`, `start` + `len`) covers `p`, `None` where that needs an
/// `i16` sum that overflows.
fn span_covers_of(start: i16, len: i16, p: i16) -> (r: Option<bool>)
    ensures
        r == span_covers(start, len, p),
{
    if !(start <= p) {
        return Some(false);
    }
    let end = start as i32 + len as i32;
    if end > 0x7FFF || end < -0x8000 {
        return None;
    }
    Some((p as i32) < end)
}

/// What sprite `s`, which covers pixel (`px`, `py`), shows there: `Ok(None)` where its
/// pixel is transparent.
fn sprite_hit_of(regs: &RegisterSet, mem: &Vec<u8>, s: Sprite, px: i16, py: i16) -> (r: Option<
    Result<Option<Color>, GfxError>,
>)
    requires
        s.posx <= px,
        s.posy <= py,
    ensures
        r == sprite_hit(*regs, mem@, s, px, py),
{
    if s.atlas_id >= 16 {
        return Some(Err(GfxError::BadAtlasId));
    }
    let atlas = regs.pixel_atlasses[s.atlas_id as usize];
    let atlas_x = s.atlasx as i64 + (px as i64 - s.posx as i64);
    let atlas_y = s.atlasy as i64 + (py as i64 - s.posy as i64);
    if atlas_x > 0xFFFF || atlas_y > 0xFFFF {
        return None;
    }
    let sizex = atlas.sizex as i64;
    assert(atlas_y * sizex <= 0xFFFF * 0xFFFF) by (nonlinear_arith)
        requires
            0 <= atlas_y <= 0xFFFF,
            0 <= sizex <= 0xFFFF,
    ;
    let row = atlas_y * sizex;
    let offset = row + atlas_x;
    if row > 0xFFFF || offset > 0xFFFF {
        return None;
    }
    match atlas_data_of(regs, mem, s.atlas_id, offset as usize) {
        None => None,
        Some(Err(e)) => Some(Err(e)),
        Some(Ok(index)) => {
            if index == 0 {
                return Some(Ok(None));
            }
            match palette_entry_of(regs, mem, s.palette_id, index) {
                None => None,
                Some(Err(e)) => Some(Err(e)),
                Some(Ok(c)) => {
                    if c.r == 255 && c.g == 0 && c.b == 255 {
                        Some(Ok(None))
                    } else {
                        Some(Ok(Some(c)))
                    }
                },
            }
        },
    }
}

/// What the sprites show at pixel `pixel_index` of scanline `line`: the first used
/// sprite that covers the pixel with a color that is not transparent decides.
pub fn sprite_pixel_of(regs: &RegisterSet, mem: &Vec<u8>, line: u16, pixel_index: u16) -> (r: Option<
    Result<Option<Color>, GfxError>,
>)
    ensures
        r == sprite_pixel(*regs, mem@, line, pixel_index),
{
    let px = pixel_index as i16;
    let py = line as i16;
    let mut sprite_id: usize = 0;
    while sprite_id < 64
        invariant
            sprite_id <= 64,
            px == pixel_index as i16,
            py == line as i16,
            sprite_pixel(*regs, mem@, line, pixel_index) == sprite_pixel_from(
                *regs,
                mem@,
                line,
                pixel_index,
                sprite_id as int,
            ),
        decreases 64 - sprite_id,
    {
        let sprite = regs.sprites[sprite_id];
        if sprite.posx == -1i16 && sprite.posy == -1i16 {
            sprite_id += 1;
            continue;
        }
        match span_covers_of(sprite.posx, sprite.w, px) {
            None => {
                return None;
            },
            Some(false) => {
                sprite_id += 1;
                continue;
            },
            Some(true) => {},
        }
        match span_covers_of(sprite.posy, sprite.h, py) {
            None => {
                return None;
            },
            Some(false) => {
                sprite_id += 1;
                continue;
            },
            Some(true) => {},
        }
        match sprite_hit_of(regs, mem, sprite, px, py) {
            Some(Ok(None)) => {
                sprite_id += 1;
                continue;
            },
            other => {
                return other;
            },
        }
    }
    Some(Ok(None))
}

/// What layer `i` contributes at a pixel: on the sprite layer the sprites come first.
pub fn level_pixel_of(regs: &RegisterSet, mem: &Vec<u8>, line: u16, pixel: u16, i: usize) -> (r: Option<
    Result<Option<Color>, GfxError>,
>)
    requires
        i < 4,
    ensures
        r == level_pixel(*regs, mem@, line, pixel, i as int),
{
    if i == SPRITE_LAYER {
        match sprite_pixel_of(regs, mem, line, pixel) {
            Some(Ok(None)) => layer_pixel_of(regs, mem, line, pixel, i),
            other => other,
        }
    } else {
        layer_pixel_of(regs, mem, line, pixel, i)
    }
}

/// The color of pixel `pixel` of scanline `line`: the first layer that shows a color
/// there decides, green where none does.
pub fn resolve_pixel_of(regs: &RegisterSet, mem: &Vec<u8>, line: u16, pixel: u16) -> (r: Option<
    Result<Color, GfxError>,
>)
    ensures
        r == resolve_pixel(*regs, mem@, line, pixel),
{
    let mut i: usize = 0;
    while i < 4
        invariant
            i <= 4,
            resolve_pixel(*regs, mem@, line, pixel) == resolve_from(*regs, mem@, line, pixel, i as int),
        decreases 4 - i,
    {
        match level_pixel_of(regs, mem, line, pixel, i) {
            None => {
                return None;
            },
            Some(Err(e)) => {
                return Some(Err(e));
            },
            Some(Ok(Some(c))) => {
                return Some(Ok(c));
            },
            Some(Ok(None)) => {},
        }
        i += 1;
    }
    Some(Ok(Color { r: 0, g: 255, b: 0 }))
}

/// Whether scanline `line` can be drawn, and if so the error it stops at, if any.
pub fn scanline_outcome_of(regs: &RegisterSet, mem: &Vec<u8>, line: u16) -> (r: Option<Option<GfxError>>)
    ensures
        r is Some <==> scanline_pixels(*regs, mem@, line) is Some,
        r is Some ==> r.unwrap() == scanline_pixels(*regs, mem@, line).unwrap().1,
{
    let mut pixel: usize = 0;
    while pixel < 320
        invariant
            pixel <= 320,
            scanline_pixels(*regs, mem@, line) is Some <==> scanline_from(*regs, mem@, line, pixel as int) is Some,
            scanline_pixels(*regs, mem@, line) is Some ==> scanline_pixels(*regs, mem@, line).unwrap().1
                == scanline_from(*regs, mem@, line, pixel as int).unwrap().1,
        decreases 320 - pixel,
    {
        match resolve_pixel_of(regs, mem, line, pixel as u16) {
            None => {
                return None;
            },
            Some(Err(e)) => {
                return Some(Some(e));
            },
            Some(Ok(_)) => {},
        }
        pixel += 1;
    }
    Some(None)
}

} // verus!

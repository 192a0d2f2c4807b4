//! Properties of the rasterizer that hold for every register state and memory.
use vstd::prelude::*;

use super::model::{
    atlas_data, colorindex_from_atlas, frame_steps, layer_pixel, level_pixel, line_end_irqs, next_line,
    palette_entry, resolve_from, resolve_pixel, scanline_from, scanline_pixels, scanline_step, scanline_steps,
    opaque_color, span_covers, sprite_hit, sprite_pixel, sprite_pixel_from, sprite_unused, FrameState,
};
use super::engine::{text_mode_registers, TextRom};
use super::registers::{error_code, GfxError, RegisterSet, Sprite, StorageMode, Tile, EMPTY_ATLAS_ID};
use crate::graphics::{green, is_magenta, pixel_events, Color, DisplayEvent, Irq};

verus! {

/// A scanline draws at most 320 pixels, and exactly 320 when it meets no error.
pub proof fn law_scanline_width(regs: RegisterSet, mem: Seq<u8>, line: u16)
    requires
        scanline_pixels(regs, mem, line) is Some,
    ensures
        scanline_pixels(regs, mem, line).unwrap().0.len() <= 320,
        scanline_pixels(regs, mem, line).unwrap().1 is None <==> scanline_pixels(regs, mem, line).unwrap().0.len()
            == 320,
{
    lemma_scanline_from_width(regs, mem, line, 0);
}

proof fn lemma_scanline_from_width(regs: RegisterSet, mem: Seq<u8>, line: u16, p: int)
    requires
        0 <= p <= 320,
        scanline_from(regs, mem, line, p) is Some,
    ensures
        scanline_from(regs, mem, line, p).unwrap().0.len() <= 320 - p,
        scanline_from(regs, mem, line, p).unwrap().1 is None <==> scanline_from(regs, mem, line, p).unwrap().0.len()
            == 320 - p,
    decreases 320 - p,
{
    if p < 320 {
        if scanline_from(regs, mem, line, p + 1) is Some {
            lemma_scanline_from_width(regs, mem, line, p + 1);
        }
    }
}

proof fn lemma_sprite_error_is_real(regs: RegisterSet, mem: Seq<u8>, line: u16, pixel: u16, i: int)
    ensures
        sprite_pixel_from(regs, mem, line, pixel, i) matches Some(Err(e)) ==> e != GfxError::NoError,
    decreases 64 - i,
{
    if 0 <= i < 64 {
        lemma_sprite_error_is_real(regs, mem, line, pixel, i + 1);
    }
}

proof fn lemma_resolve_error_is_real(regs: RegisterSet, mem: Seq<u8>, line: u16, pixel: u16, i: int)
    ensures
        resolve_from(regs, mem, line, pixel, i) matches Some(Err(e)) ==> e != GfxError::NoError,
    decreases 4 - i,
{
    lemma_sprite_error_is_real(regs, mem, line, pixel, 0);
    if 0 <= i < 4 {
        lemma_resolve_error_is_real(regs, mem, line, pixel, i + 1);
    }
}

/// The errors a scanline meets are real errors, never `NoError`.
proof fn lemma_scanline_error_is_real(regs: RegisterSet, mem: Seq<u8>, line: u16, p: int)
    ensures
        scanline_from(regs, mem, line, p) matches Some((_, Some(e))) ==> e != GfxError::NoError,
    decreases 320 - p,
{
    if 0 <= p < 320 {
        lemma_resolve_error_is_real(regs, mem, line, p as u16, 0);
        lemma_scanline_error_is_real(regs, mem, line, p + 1);
    }
}

/// An error recorded in the error register stops the core: however many scanlines are
/// asked for, nothing is drawn, no interrupt is raised and the scanline stays.
pub proof fn law_error_is_sticky(s: FrameState, mem: Seq<u8>, n: nat)
    requires
        s.regs.lastErr != 0,
    ensures
        scanline_steps(s, mem, n) == Some(s),
    decreases n,
{
    if n > 0 {
        law_error_is_sticky(s, mem, (n - 1) as nat);
    }
}

/// Once recorded, an error stays recorded.
pub proof fn law_error_stays(s: FrameState, mem: Seq<u8>, n: nat)
    requires
        scanline_steps(s, mem, n) is Some,
        s.regs.lastErr != 0,
    ensures
        scanline_steps(s, mem, n).unwrap().regs.lastErr == s.regs.lastErr,
{
    law_error_is_sticky(s, mem, n);
}

/// The number of VSync interrupts in `irqs`.
pub open spec fn vsync_count(irqs: Seq<Irq>) -> nat
    decreases irqs.len(),
{
    if irqs.len() == 0 {
        0
    } else {
        vsync_count(irqs.drop_last()) + if irqs.last() == Irq::VSync {
            1nat
        } else {
            0nat
        }
    }
}

proof fn lemma_vsync_count_concat(a: Seq<Irq>, b: Seq<Irq>)
    ensures
        vsync_count(a + b) == vsync_count(a) + vsync_count(b),
    decreases b.len(),
{
    if b.len() > 0 {
        lemma_vsync_count_concat(a, b.drop_last());
        assert((a + b).drop_last() =~= a + b.drop_last());
    }
}

proof fn lemma_line_end_vsyncs(regs: RegisterSet, line: u16)
    ensures
        vsync_count(line_end_irqs(regs, line)) == if line == 239 {
            1nat
        } else {
            0nat
        },
{
    let sc = Irq::Scanline { scanline_index: line as usize };
    let compare: Seq<Irq> = if regs.LYXIrqEnable && regs.LYCCompare == line {
        seq![sc]
    } else {
        Seq::empty()
    };
    let line_end: Seq<Irq> = if regs.LENDIrqEnable {
        seq![sc]
    } else {
        Seq::empty()
    };
    let vsync: Seq<Irq> = if line == 239 {
        seq![Irq::VSync]
    } else {
        Seq::empty()
    };
    assert(line_end_irqs(regs, line) == compare + line_end + vsync);
    lemma_vsync_count_concat(compare + line_end, vsync);
    lemma_vsync_count_concat(compare, line_end);
    assert(vsync_count(compare) == 0) by {
        if compare.len() > 0 {
            assert(compare.drop_last() =~= Seq::<Irq>::empty());
        }
    }
    assert(vsync_count(line_end) == 0) by {
        if line_end.len() > 0 {
            assert(line_end.drop_last() =~= Seq::<Irq>::empty());
        }
    }
    assert(vsync_count(vsync) == if line == 239 { 1nat } else { 0nat }) by {
        if vsync.len() > 0 {
            assert(vsync.drop_last() =~= Seq::<Irq>::empty());
        }
    }
}

/// While the output is enabled and no error is met, each scanline hands 320 pixels to
/// the display and nothing else, and the scanline counter runs round the 240 lines of
/// the screen: after `n` scanlines from line `l` the core is at line `(l + n) % 240` and
/// has raised VSync once per pass over the last line, `(l + n) / 240` times. Rendering
/// never changes whether the output is enabled.
pub proof fn law_lines_cycle(s: FrameState, mem: Seq<u8>, n: nat)
    requires
        s.line < 240,
        s.regs.output_enable,
        scanline_steps(s, mem, n) is Some,
        scanline_steps(s, mem, n).unwrap().regs.lastErr == 0,
    ensures
        scanline_steps(s, mem, n).unwrap().line == (s.line + n) % 240,
        scanline_steps(s, mem, n).unwrap().display.len() == s.display.len() + 320 * n,
        scanline_steps(s, mem, n).unwrap().display.subrange(0, s.display.len() as int) == s.display,
        forall|i: int|
            s.display.len() <= i < scanline_steps(s, mem, n).unwrap().display.len() ==> #[trigger] scanline_steps(
                s,
                mem,
                n,
            ).unwrap().display[i] is Pixel,
        vsync_count(scanline_steps(s, mem, n).unwrap().irqs) == vsync_count(s.irqs) + (s.line + n) / 240,
        scanline_steps(s, mem, n).unwrap().regs.output_enable,
    decreases n,
{
    if n == 0 {
        assert(s.display.subrange(0, s.display.len() as int) =~= s.display);
    } else {
        let prev = scanline_steps(s, mem, (n - 1) as nat);
        let t = prev.unwrap();
        if t.regs.lastErr != 0 {
            assert(scanline_step(t, mem) == Some(t));
            assert(false);
        }
        law_lines_cycle(s, mem, (n - 1) as nat);
        law_scanline_width(t.regs, mem, t.line);
        lemma_scanline_error_is_real(t.regs, mem, t.line, 0);
        assert(scanline_pixels(t.regs, mem, t.line).unwrap().1 is None);
        lemma_vsync_count_concat(t.irqs, line_end_irqs(t.regs, t.line));
        lemma_line_end_vsyncs(t.regs, t.line);
        let x: int = s.line + n - 1;
        assert((x + 1) / 240 == x / 240 + (if x % 240 == 239 { 1int } else { 0int })) by (nonlinear_arith)
            requires
                x >= 0,
        ;
        let cs = scanline_pixels(t.regs, mem, t.line).unwrap().0;
        let d = t.display + pixel_events(cs);
        assert(scanline_steps(s, mem, n).unwrap().display == d);
        assert(d.subrange(0, s.display.len() as int) =~= s.display) by {
            assert forall|i: int| 0 <= i < s.display.len() implies d[i] == s.display[i] by {
                assert(t.display.subrange(0, s.display.len() as int)[i] == t.display[i]);
            }
        }
        assert forall|i: int| s.display.len() <= i < d.len() implies #[trigger] d[i] is Pixel by {
            if i >= t.display.len() {
                assert(d[i] == pixel_events(cs)[i - t.display.len()]);
            } else {
                assert(d[i] == t.display[i]);
            }
        }
    }
}

/// A frame drawn with the output enabled and without error ends on the line it started
/// from and hands the display exactly 320 x 240 pixels and then one call to show them,
/// the last call of the frame; it raises VSync exactly once.
pub proof fn law_frame(s: FrameState, mem: Seq<u8>)
    requires
        s.line < 240,
        s.regs.output_enable,
        scanline_steps(s, mem, 240) is Some,
        scanline_steps(s, mem, 240).unwrap().regs.lastErr == 0,
    ensures
        frame_steps(s, mem) is Some,
        frame_steps(s, mem).unwrap().line == s.line,
        frame_steps(s, mem).unwrap().display.len() == s.display.len() + 76801,
        frame_steps(s, mem).unwrap().display.subrange(0, s.display.len() as int) == s.display,
        forall|i: int|
            s.display.len() <= i < s.display.len() + 76800 ==> #[trigger] frame_steps(s, mem).unwrap().display[i] is Pixel,
        frame_steps(s, mem).unwrap().display.last() == DisplayEvent::Show,
        vsync_count(frame_steps(s, mem).unwrap().irqs) == vsync_count(s.irqs) + 1,
{
    law_lines_cycle(s, mem, 240);
    let t = scanline_steps(s, mem, 240).unwrap();
    let f = frame_steps(s, mem).unwrap();
    assert(f.display == t.display.push(DisplayEvent::Show));
    assert(f.display.subrange(0, s.display.len() as int) =~= t.display.subrange(0, s.display.len() as int));
    assert forall|i: int| s.display.len() <= i < s.display.len() + 76800 implies #[trigger] f.display[i] is Pixel by {
        assert(f.display[i] == t.display[i]);
    }
}

/// The layers are composited in index order: layer 0 (foreground) in front, then the
/// sprites, then the tiles of layer 1, then layer 2, then layer 3; the first of them that
/// shows a color at a pixel decides its color, whatever the ones behind it show, and a
/// pixel that none of them covers is green.
pub proof fn law_layer_order(regs: RegisterSet, mem: Seq<u8>, line: u16, pixel: u16, c: Color)
    ensures
        layer_pixel(regs, mem, line, pixel, 0) == Some(Ok::<Option<Color>, GfxError>(Some(c))) ==> resolve_pixel(
            regs,
            mem,
            line,
            pixel,
        ) == Some(Ok::<Color, GfxError>(c)),
        layer_pixel(regs, mem, line, pixel, 0) == Some(Ok::<Option<Color>, GfxError>(None)) && sprite_pixel(
            regs,
            mem,
            line,
            pixel,
        ) == Some(Ok::<Option<Color>, GfxError>(Some(c))) ==> resolve_pixel(regs, mem, line, pixel) == Some(
            Ok::<Color, GfxError>(c),
        ),
        transparent_upto(regs, mem, line, pixel, 1) && layer_pixel(regs, mem, line, pixel, 1) == Some(
            Ok::<Option<Color>, GfxError>(Some(c)),
        ) ==> resolve_pixel(regs, mem, line, pixel) == Some(Ok::<Color, GfxError>(c)),
        transparent_upto(regs, mem, line, pixel, 2) && layer_pixel(regs, mem, line, pixel, 2) == Some(
            Ok::<Option<Color>, GfxError>(Some(c)),
        ) ==> resolve_pixel(regs, mem, line, pixel) == Some(Ok::<Color, GfxError>(c)),
        transparent_upto(regs, mem, line, pixel, 3) && layer_pixel(regs, mem, line, pixel, 3) == Some(
            Ok::<Option<Color>, GfxError>(Some(c)),
        ) ==> resolve_pixel(regs, mem, line, pixel) == Some(Ok::<Color, GfxError>(c)),
        transparent_upto(regs, mem, line, pixel, 4) ==> resolve_pixel(regs, mem, line, pixel) == Some(
            Ok::<Color, GfxError>(green()),
        ),
{
    reveal_with_fuel(resolve_from, 5);
}

/// Whether the sprites and layers `0 .. n` all show nothing at a pixel.
pub open spec fn transparent_upto(regs: RegisterSet, mem: Seq<u8>, line: u16, pixel: u16, n: int) -> bool {
    &&& sprite_pixel(regs, mem, line, pixel) == Some(Ok::<Option<Color>, GfxError>(None))
    &&& forall|k: int| 0 <= k < n ==> #[trigger] layer_pixel(regs, mem, line, pixel, k) == Some(
        Ok::<Option<Color>, GfxError>(None),
    )
}

/// A layer shows only what its own tiles select: two register sets that agree on layer
/// `layer`, on the atlases and on the palettes show the same at every pixel of it,
/// whatever the other layers and the sprites hold.
pub proof fn law_layer_reads_own_tiles(
    regs: RegisterSet,
    other: RegisterSet,
    mem: Seq<u8>,
    line: u16,
    pixel: u16,
    layer: int,
)
    requires
        0 <= layer < 4,
        other.layers[layer] == regs.layers[layer],
        other.pixel_atlasses == regs.pixel_atlasses,
        other.palettes == regs.palettes,
    ensures
        layer_pixel(other, mem, line, pixel, layer) == layer_pixel(regs, mem, line, pixel, layer),
{
    assert forall|a: u8, o: usize| #[trigger] atlas_data(other, mem, a, o) == atlas_data(regs, mem, a, o) by {}
    assert forall|a: u8, t: u16, w: u8, h: u8, x: u16, y: u16|
        #[trigger] colorindex_from_atlas(other, mem, a, t, w, h, x, y) == colorindex_from_atlas(
            regs,
            mem,
            a,
            t,
            w,
            h,
            x,
            y,
        ) by {}
    assert forall|p: u8, e: u8| #[trigger] palette_entry(other, mem, p, e) == palette_entry(regs, mem, p, e) by {}
}

/// While the output is disabled nothing is drawn, no interrupt is raised and the
/// scanline stays, however many scanlines are asked for.
pub proof fn law_disabled_output_draws_nothing(s: FrameState, mem: Seq<u8>, n: nat)
    requires
        !s.regs.output_enable,
    ensures
        scanline_steps(s, mem, n) == Some(s),
    decreases n,
{
    if n > 0 {
        law_disabled_output_draws_nothing(s, mem, (n - 1) as nat);
    }
}

/// A frame drawn while the output is disabled hands the display no pixel, only the call
/// to show the frame, raises no interrupt and leaves registers and scanline as they were.
pub proof fn law_disabled_output_frame(s: FrameState, mem: Seq<u8>)
    requires
        !s.regs.output_enable,
    ensures
        frame_steps(s, mem) == Some(FrameState { display: s.display.push(DisplayEvent::Show), ..s }),
{
    law_disabled_output_draws_nothing(s, mem, 240);
}

/// VSync is raised exactly at the end of the last line of the screen.
pub proof fn law_vsync_at_frame_end(regs: RegisterSet, line: u16)
    requires
        line < 240,
    ensures
        line_end_irqs(regs, line).contains(Irq::VSync) <==> line == 239,
        next_line(line) == (line + 1) % 240,
{
    let s = line_end_irqs(regs, line);
    if line == 239 {
        assert(s[s.len() - 1] == Irq::VSync);
    } else {
        assert forall|i: int| 0 <= i < s.len() implies s[i] != Irq::VSync by {}
    }
}

/// Color index 0 is transparent: a tile whose pixel holds index 0 shows nothing there.
pub proof fn law_index_zero_is_transparent(regs: RegisterSet, mem: Seq<u8>, line: u16, pixel: u16, layer: int)
    requires
        0 <= layer < 4,
        ({
            let l = regs.layers[layer];
            let t = l.tiles[(line as int / l.tiley as int) * 40 + pixel as int / l.tilex as int];
            &&& l.tilex != 0 && l.tiley != 0
            &&& (line as int / l.tiley as int) * 40 + (pixel as int / l.tilex as int) < 1200
            &&& t.atlas_id != EMPTY_ATLAS_ID
            &&& colorindex_from_atlas(
                regs,
                mem,
                t.atlas_id,
                t.tile_id as u16,
                l.tilex,
                l.tiley,
                (pixel as int % l.tilex as int) as u16,
                (line as int % l.tiley as int) as u16,
            ) == Some(Ok::<u8, super::registers::GfxError>(0u8))
        }),
    ensures
        layer_pixel(regs, mem, line, pixel, layer) == Some(Ok::<Option<crate::graphics::Color>, super::registers::GfxError>(None)),
{
}

/// In 4-bit mode two neighbouring pixels share a byte: pixel `offset` reads byte
/// `offset / 2`, its high nibble for an even offset and its low nibble for an odd one.
pub proof fn law_four_bit_packing(regs: RegisterSet, mem: Seq<u8>, atlas_id: u8, offset: usize)
    requires
        atlas_id < 16,
        regs.pixel_atlasses[atlas_id as int].storage_mode == StorageMode::FourBit,
        regs.pixel_atlasses[atlas_id as int].data is Some,
        ({
            let a = regs.pixel_atlasses[atlas_id as int];
            &&& offset < a.sizex * a.sizey
            &&& a.data.unwrap() + offset / 2 < mem.len()
        }),
    ensures
        ({
            let b = mem[regs.pixel_atlasses[atlas_id as int].data.unwrap() + offset / 2];
            atlas_data(regs, mem, atlas_id, offset) == Some(
                Ok::<u8, GfxError>(if offset % 2 == 0 { b >> 4u8 } else { b & 0x0Fu8 }),
            )
        }),
{
}

/// Every invalid atlas id is reported, never left undefined: an id past the 16 slots
/// reads as `BadAtlasId`, and so does a tile that takes such an atlas (other than the
/// empty marker, which shows nothing) or a sprite that does.
pub proof fn law_bad_atlas_id(regs: RegisterSet, mem: Seq<u8>, atlas_id: u8, offset: usize)
    requires
        atlas_id >= 16,
    ensures
        atlas_data(regs, mem, atlas_id, offset) == Some(Err::<u8, GfxError>(GfxError::BadAtlasId)),
        forall|tile_id: u16, w: u8, h: u8, x: u16, y: u16|
            #[trigger] colorindex_from_atlas(regs, mem, atlas_id, tile_id, w, h, x, y) == Some(
                Err::<u8, GfxError>(GfxError::BadAtlasId),
            ),
{
}

/// Palette lookups report their errors: an id past the 32 slots is `BadPaletteId`, a
/// palette without memory `BadPalettePtr`; every one of the 256 entries of a palette
/// with memory behind it can be read.
pub proof fn law_palette_errors(regs: RegisterSet, mem: Seq<u8>, palette_id: u8, entry_id: u8)
    ensures
        palette_id >= 32 ==> palette_entry(regs, mem, palette_id, entry_id) == Some(
            Err::<crate::graphics::Color, GfxError>(GfxError::BadPaletteId),
        ),
        palette_id < 32 && regs.palettes[palette_id as int] is None ==> palette_entry(regs, mem, palette_id, entry_id)
            == Some(Err::<crate::graphics::Color, GfxError>(GfxError::BadPalettePtr)),
        palette_id < 32 && regs.palettes[palette_id as int] is Some && regs.palettes[palette_id as int].unwrap() + 4
            * entry_id + 3 < mem.len() ==> palette_entry(regs, mem, palette_id, entry_id) is Some && palette_entry(
            regs,
            mem,
            palette_id,
            entry_id,
        ).unwrap() is Ok,
{
}

/// In 8-bit mode pixel `offset` of an atlas is the byte at `offset` from the atlas's
/// start: every pixel inside the atlas whose byte lies in memory reads that byte.
pub proof fn law_eight_bit_reads_byte(regs: RegisterSet, mem: Seq<u8>, atlas_id: u8, offset: usize)
    requires
        atlas_id < 16,
        regs.pixel_atlasses[atlas_id as int].storage_mode == StorageMode::EightBit,
        regs.pixel_atlasses[atlas_id as int].data is Some,
        ({
            let a = regs.pixel_atlasses[atlas_id as int];
            &&& offset < a.sizex * a.sizey
            &&& a.data.unwrap() + offset < mem.len()
        }),
    ensures
        atlas_data(regs, mem, atlas_id, offset) == Some(
            Ok::<u8, GfxError>(mem[regs.pixel_atlasses[atlas_id as int].data.unwrap() + offset]),
        ),
{
}

/// Where pixel (`x`, `y`) of tile `t` lies in an atlas cut into tiles of `w` x `h`
/// pixels, `n` tiles to an atlas row: tile rows are `h` pixels tall and hold `n` tiles of
/// `w` pixels, so the tile's top left pixel is at column `(t % n) * w` of pixel row
/// `(t / n) * h`, and the pixel `y` rows below and `x` columns right of it. (Where the
/// atlas width `sizex` is a multiple of `w`, `n * w == sizex`.)
pub open spec fn tile_pixel_at(sizex: int, n: int, w: int, h: int, t: int, x: int, y: int) -> int {
    (t / n) * h * (n * w) + y * sizex + (t % n) * w + x
}

/// A tile's pixel is read from the atlas at the place the tile grid puts it: for an atlas
/// cut into `tilew` x `tileh` tiles, `sizex / tilew` to a row, pixel (`pixelx`, `pixely`)
/// of tile `tile_id` is the atlas pixel at `tile_pixel_at`, whenever that place fits the
/// core's 16-bit arithmetic.
pub proof fn law_tile_pixel_offset(
    regs: RegisterSet,
    mem: Seq<u8>,
    atlas_id: u8,
    tile_id: u16,
    tilew: u8,
    tileh: u8,
    pixelx: u16,
    pixely: u16,
)
    requires
        atlas_id < 16,
        regs.pixel_atlasses[atlas_id as int].sizex > 0,
        regs.pixel_atlasses[atlas_id as int].sizey > 0,
        tilew > 0,
        regs.pixel_atlasses[atlas_id as int].sizex as int / tilew as int > 0,
        tile_pixel_at(
            regs.pixel_atlasses[atlas_id as int].sizex as int,
            regs.pixel_atlasses[atlas_id as int].sizex as int / tilew as int,
            tilew as int,
            tileh as int,
            tile_id as int,
            pixelx as int,
            pixely as int,
        ) <= 0xFFFF,
    ensures
        colorindex_from_atlas(regs, mem, atlas_id, tile_id, tilew, tileh, pixelx, pixely) == atlas_data(
            regs,
            mem,
            atlas_id,
            tile_pixel_at(
                regs.pixel_atlasses[atlas_id as int].sizex as int,
                regs.pixel_atlasses[atlas_id as int].sizex as int / tilew as int,
                tilew as int,
                tileh as int,
                tile_id as int,
                pixelx as int,
                pixely as int,
            ) as usize,
        ),
{
    let sizex: int = regs.pixel_atlasses[atlas_id as int].sizex as int;
    let n: int = sizex / tilew as int;
    let t: int = tile_id as int;
    let w: int = tilew as int;
    let h: int = tileh as int;
    let q: int = t / n;
    let r: int = t % n;
    vstd::arithmetic::div_mod::lemma_fundamental_div_mod(t, n);
    assert(0 <= r < n);
    assert(q >= 0) by (nonlinear_arith)
        requires
            t >= 0,
            n > 0,
            q == t / n,
    ;
    assert((t - r) * (w * h) == q * h * (n * w)) by (nonlinear_arith)
        requires
            t == n * q + r,
    ;
    assert(q * h * (n * w) >= 0 && r * w >= 0 && pixely * sizex >= 0) by (nonlinear_arith)
        requires
            q >= 0,
            h >= 0,
            n >= 0,
            w >= 0,
            r >= 0,
            sizex >= 0,
            pixely >= 0,
    ;
}

/// A sprite that covers pixel (`px`, `py`) shows the pixel of its atlas that lies
/// `px - posx` columns right of and `py - posy` rows below (`atlasx`, `atlasy`): for an
/// 8-bit atlas it reads the color index at byte `(atlasy + py - posy) * sizex + atlasx +
/// px - posx` of the atlas; index 0 shows nothing, another index shows the palette's
/// entry (blue, green, red at 4 bytes per entry) unless that entry is magenta.
pub proof fn law_sprite_reads_atlas(regs: RegisterSet, mem: Seq<u8>, s: Sprite, px: i16, py: i16)
    requires
        s.posx <= px,
        s.posy <= py,
        s.atlas_id < 16,
        s.palette_id < 32,
        regs.pixel_atlasses[s.atlas_id as int].storage_mode == StorageMode::EightBit,
        regs.pixel_atlasses[s.atlas_id as int].data is Some,
        regs.palettes[s.palette_id as int] is Some,
        regs.palettes[s.palette_id as int].unwrap() + 4 * 255 + 3 < mem.len(),
        ({
            let a = regs.pixel_atlasses[s.atlas_id as int];
            let off = sprite_atlas_offset(a.sizex as int, s, px as int, py as int);
            &&& (s.atlasy + (py - s.posy)) * a.sizex <= 0xFFFF
            &&& s.atlasy + (py - s.posy) <= 0xFFFF
            &&& off <= 0xFFFF
            &&& off < a.sizex * a.sizey
            &&& a.data.unwrap() + off < mem.len()
        }),
    ensures
        ({
            let a = regs.pixel_atlasses[s.atlas_id as int];
            let k = mem[a.data.unwrap() + sprite_atlas_offset(a.sizex as int, s, px as int, py as int)];
            let e: int = regs.palettes[s.palette_id as int].unwrap() + 4 * k;
            let c = Color { r: mem[e + 2], g: mem[e + 1], b: mem[e] };
            sprite_hit(regs, mem, s, px, py) == Some(
                Ok::<Option<Color>, GfxError>(
                    if k == 0 {
                        None
                    } else if is_magenta(c) {
                        None
                    } else {
                        Some(c)
                    },
                ),
            )
        }),
{
    let a = regs.pixel_atlasses[s.atlas_id as int];
    assert(s.atlasy + (py - s.posy) >= 0 && s.atlasx + (px - s.posx) >= 0);
    assert((s.atlasy + (py - s.posy)) * a.sizex >= 0) by (nonlinear_arith)
        requires
            s.atlasy + (py - s.posy) >= 0,
            a.sizex >= 0,
    ;
}

/// The atlas pixel a sprite shows at pixel (`px`, `py`), for an atlas `sizex` wide.
pub open spec fn sprite_atlas_offset(sizex: int, s: Sprite, px: int, py: int) -> int {
    (s.atlasy + (py - s.posy)) * sizex + s.atlasx + (px - s.posx)
}

/// Setting up the text mode turns layer 0 into a text layer over the character ROM:
/// atlas 0 is the 128 x 192 pixel ROM, palette 0 the ROM's palette, layer 0 is cut into
/// 8 x 8 pixel cells, and every one of its 1200 tiles takes atlas 0 and palette 0 while
/// keeping its character (`tile_id`), whatever atlas and palette it took before.
pub proof fn law_text_mode_layer(old: RegisterSet, new: RegisterSet, rom: TextRom)
    requires
        text_mode_registers(old, new, rom),
    ensures
        new.Mode == 1,
        new.pixel_atlasses[0].data == Some(rom.data),
        new.pixel_atlasses[0].sizex == 128 && new.pixel_atlasses[0].sizey == 192,
        new.palettes[0] == Some(rom.palette),
        new.layers[0].tilex == 8 && new.layers[0].tiley == 8,
        forall|j: int|
            0 <= j < 1200 ==> {
                &&& #[trigger] new.layers[0].tiles[j].atlas_id == 0
                &&& new.layers[0].tiles[j].palette_id == 0
                &&& new.layers[0].tiles[j].tile_id == old.layers[0].tiles[j].tile_id
                &&& new.layers[0].tiles[j]._rfu == old.layers[0].tiles[j]._rfu
            },
{
    assert forall|j: int| 0 <= j < 1200 implies {
        &&& #[trigger] new.layers[0].tiles[j].atlas_id == 0
        &&& new.layers[0].tiles[j].palette_id == 0
        &&& new.layers[0].tiles[j].tile_id == old.layers[0].tiles[j].tile_id
        &&& new.layers[0].tiles[j]._rfu == old.layers[0].tiles[j]._rfu
    } by {
        assert(new.layers[0].tiles[j] == (Tile {
            atlas_id: 0,
            palette_id: 0,
            ..old.layers[0].tiles[j]
        }));
    }
}

/// A palette entry is 4 bytes at `palette + 4 * entry`: blue, green, red, then an unused
/// alpha byte.
pub proof fn law_palette_entry_bytes(regs: RegisterSet, mem: Seq<u8>, palette_id: u8, entry_id: u8)
    requires
        palette_id < 32,
        regs.palettes[palette_id as int] is Some,
        regs.palettes[palette_id as int].unwrap() + 4 * entry_id + 3 < mem.len(),
    ensures
        ({
            let e: int = regs.palettes[palette_id as int].unwrap() + 4 * entry_id;
            palette_entry(regs, mem, palette_id, entry_id) == Some(
                Ok::<Color, GfxError>(Color { r: mem[e + 2], g: mem[e + 1], b: mem[e] }),
            )
        }),
{
}

/// A layer is a grid of 40 tiles to a row, each `tilex` x `tiley` pixels: at pixel
/// `pixel` of scanline `line` it shows pixel (`pixel % tilex`, `line % tiley`) of the
/// tile in row `line / tiley` and column `pixel / tilex`, looked up in that tile's atlas
/// and colored by that tile's palette. A layer of zero-sized tiles, and a tile on the
/// empty atlas, show nothing; color index 0 and magenta show nothing; an error met on
/// the way is reported.
pub proof fn law_layer_reads_tile(regs: RegisterSet, mem: Seq<u8>, line: u16, pixel: u16, layer: int)
    requires
        0 <= layer < 4,
        line < 240,
        pixel < 320,
    ensures
        ({
            let l = regs.layers[layer];
            let ti: int = (line as int / l.tiley as int) * 40 + (pixel as int / l.tilex as int);
            let t = l.tiles[ti];
            let ci = colorindex_from_atlas(
                regs,
                mem,
                t.atlas_id,
                t.tile_id as u16,
                l.tilex,
                l.tiley,
                (pixel as int % l.tilex as int) as u16,
                (line as int % l.tiley as int) as u16,
            );
            &&& (l.tilex == 0 || l.tiley == 0) ==> layer_pixel(regs, mem, line, pixel, layer) == Some(
                Ok::<Option<Color>, GfxError>(None),
            )
            &&& (l.tilex > 0 && l.tiley > 0 && ti < 1200) ==> {
                &&& t.atlas_id == EMPTY_ATLAS_ID ==> layer_pixel(regs, mem, line, pixel, layer) == Some(
                    Ok::<Option<Color>, GfxError>(None),
                )
                &&& t.atlas_id != EMPTY_ATLAS_ID ==> {
                    &&& ci == Some(Ok::<u8, GfxError>(0u8)) ==> layer_pixel(regs, mem, line, pixel, layer)
                        == Some(Ok::<Option<Color>, GfxError>(None))
                    &&& forall|e: GfxError|
                        ci == Some(Err::<u8, GfxError>(e)) ==> layer_pixel(regs, mem, line, pixel, layer)
                            == Some(Err::<Option<Color>, GfxError>(e))
                    &&& forall|k: u8|
                        ci == Some(Ok::<u8, GfxError>(k)) && k != 0 && t.palette_id < 32
                            && regs.palettes[t.palette_id as int] is Some
                            && regs.palettes[t.palette_id as int].unwrap() + 4 * k + 3 < mem.len() ==> {
                            let e: int = regs.palettes[t.palette_id as int].unwrap() + 4 * k;
                            let c = Color { r: mem[e + 2], g: mem[e + 1], b: mem[e] };
                            layer_pixel(regs, mem, line, pixel, layer) == Some(
                                Ok::<Option<Color>, GfxError>(if is_magenta(c) { None } else { Some(c) }),
                            )
                        }
                }
            }
        }),
{
    let l = regs.layers[layer];
    if l.tilex > 0 && l.tiley > 0 {
        assert(line as int / l.tiley as int <= 239);
        assert(pixel as int / l.tilex as int <= 319);
    }
}

/// The pixels of a scanline are the pixels 0, 1, 2, ... of the line, in that order, each
/// resolved on its own; the line stops at the first pixel that cannot be resolved and
/// reports its error, and otherwise has all 320 pixels.
pub proof fn law_scanline_in_order(regs: RegisterSet, mem: Seq<u8>, line: u16)
    requires
        scanline_pixels(regs, mem, line) is Some,
    ensures
        ({
            let (cs, e) = scanline_pixels(regs, mem, line).unwrap();
            &&& forall|k: int| 0 <= k < cs.len() ==> resolve_pixel(regs, mem, line, k as u16) == Some(
                Ok::<Color, GfxError>(#[trigger] cs[k]),
            )
            &&& e is None ==> cs.len() == 320
            &&& forall|err: GfxError|
                e == Some(err) ==> cs.len() < 320 && resolve_pixel(regs, mem, line, cs.len() as u16) == Some(
                    Err::<Color, GfxError>(err),
                )
        }),
{
    lemma_scanline_from_in_order(regs, mem, line, 0);
}

proof fn lemma_scanline_from_in_order(regs: RegisterSet, mem: Seq<u8>, line: u16, p: int)
    requires
        0 <= p <= 320,
        scanline_from(regs, mem, line, p) is Some,
    ensures
        ({
            let (cs, e) = scanline_from(regs, mem, line, p).unwrap();
            &&& forall|k: int| 0 <= k < cs.len() ==> resolve_pixel(regs, mem, line, (p + k) as u16) == Some(
                Ok::<Color, GfxError>(#[trigger] cs[k]),
            )
            &&& e is None ==> p + cs.len() == 320
            &&& forall|err: GfxError|
                e == Some(err) ==> p + cs.len() < 320 && resolve_pixel(regs, mem, line, (p + cs.len()) as u16)
                    == Some(Err::<Color, GfxError>(err))
        }),
    decreases 320 - p,
{
    if p < 320 {
        match resolve_pixel(regs, mem, line, p as u16) {
            Some(Ok(c)) => {
                lemma_scanline_from_in_order(regs, mem, line, p + 1);
                let (rs, re) = scanline_from(regs, mem, line, p + 1).unwrap();
                let (cs, e) = scanline_from(regs, mem, line, p).unwrap();
                assert(cs == seq![c] + rs);
                assert forall|k: int| 0 <= k < cs.len() implies resolve_pixel(regs, mem, line, (p + k) as u16)
                    == Some(Ok::<Color, GfxError>(#[trigger] cs[k])) by {
                    if k > 0 {
                        assert(cs[k] == rs[k - 1]);
                        assert(p + 1 + (k - 1) == p + k);
                    }
                }
            },
            _ => {},
        }
    }
}

/// The interrupts at the end of scanline `line`: a scanline interrupt for the line when
/// the compare interrupt is enabled and the compare register holds the line, another one
/// when the line-end interrupt is enabled, and after them VSync on the last line of the
/// screen and on no other.
pub proof fn law_line_irqs(regs: RegisterSet, line: u16)
    requires
        line < 240,
    ensures
        ({
            let s = line_end_irqs(regs, line);
            let a: int = if regs.LYXIrqEnable && regs.LYCCompare == line { 1 } else { 0 };
            let b: int = if regs.LENDIrqEnable { 1 } else { 0 };
            let v: int = if line == 239 { 1 } else { 0 };
            &&& s.len() == a + b + v
            &&& forall|i: int| 0 <= i < a + b ==> s[i] == Irq::Scanline { scanline_index: line as usize }
            &&& line == 239 ==> s[a + b] == Irq::VSync
        }),
{
}

/// Each error is recorded under a number of its own, and only `NoError` under 0.
pub proof fn law_error_codes_distinct(e: GfxError, f: GfxError)
    ensures
        error_code(e) == error_code(f) ==> e == f,
        error_code(e) == 0 <==> e == GfxError::NoError,
{
}

/// Whether sprite `s` covers pixel (`px`, `py`): it spans `w` pixels from `posx` and `h`
/// lines from `posy`.
pub open spec fn sprite_covers(s: Sprite, px: int, py: int) -> bool {
    s.posx <= px < s.posx + s.w && s.posy <= py < s.posy + s.h
}

/// Whether the sprite's extent fits the 16-bit signed coordinates the core computes in.
pub open spec fn sprite_extent_fits(s: Sprite) -> bool {
    -0x8000 <= s.posx + s.w <= 0x7FFF && -0x8000 <= s.posy + s.h <= 0x7FFF
}

/// Whether sprite `s` lets pixel (`px`, `py`) through to the sprites after it: it is
/// unused, does not cover the pixel, or is transparent there.
pub open spec fn sprite_lets_through(regs: RegisterSet, mem: Seq<u8>, s: Sprite, px: i16, py: i16) -> bool {
    ||| sprite_unused(s)
    ||| sprite_extent_fits(s) && !sprite_covers(s, px as int, py as int)
    ||| sprite_extent_fits(s) && sprite_covers(s, px as int, py as int) && sprite_hit(regs, mem, s, px, py)
        == Some(Ok::<Option<Color>, GfxError>(None))
}

/// The first sprite that shows a color at a pixel decides it: when sprite `i` is used,
/// covers the pixel and shows color `c` there, and every sprite before it lets the pixel
/// through, the sprites show `c` at that pixel, whatever the sprites after `i` hold.
pub proof fn law_first_sprite_wins(regs: RegisterSet, mem: Seq<u8>, line: u16, pixel: u16, i: int, c: Color)
    requires
        line < 240,
        pixel < 320,
        0 <= i < 64,
        !sprite_unused(regs.sprites[i]),
        sprite_extent_fits(regs.sprites[i]),
        sprite_covers(regs.sprites[i], pixel as int, line as int),
        sprite_hit(regs, mem, regs.sprites[i], pixel as i16, line as i16) == Some(
            Ok::<Option<Color>, GfxError>(Some(c)),
        ),
        forall|j: int|
            0 <= j < i ==> sprite_lets_through(regs, mem, #[trigger] regs.sprites[j], pixel as i16, line as i16),
    ensures
        sprite_pixel(regs, mem, line, pixel) == Some(Ok::<Option<Color>, GfxError>(Some(c))),
{
    assert(pixel as i16 == pixel as int && line as i16 == line as int) by (bit_vector)
        requires
            pixel < 320,
            line < 240,
    ;
    lemma_sprites_from_win(regs, mem, line, pixel, i, c, 0);
}

proof fn lemma_sprites_from_win(regs: RegisterSet, mem: Seq<u8>, line: u16, pixel: u16, i: int, c: Color, j: int)
    requires
        pixel as i16 == pixel as int,
        line as i16 == line as int,
        0 <= j <= i < 64,
        !sprite_unused(regs.sprites[i]),
        sprite_extent_fits(regs.sprites[i]),
        sprite_covers(regs.sprites[i], pixel as int, line as int),
        sprite_hit(regs, mem, regs.sprites[i], pixel as i16, line as i16) == Some(
            Ok::<Option<Color>, GfxError>(Some(c)),
        ),
        forall|k: int|
            0 <= k < i ==> sprite_lets_through(regs, mem, #[trigger] regs.sprites[k], pixel as i16, line as i16),
    ensures
        sprite_pixel_from(regs, mem, line, pixel, j) == Some(Ok::<Option<Color>, GfxError>(Some(c))),
    decreases i - j,
{
    let s = regs.sprites[j];
    if j < i {
        lemma_sprites_from_win(regs, mem, line, pixel, i, c, j + 1);
        assert(sprite_lets_through(regs, mem, s, pixel as i16, line as i16));
    }
}

} // verus!

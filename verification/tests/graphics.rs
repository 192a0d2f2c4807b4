use std::cell::RefCell;
use std::rc::Rc;

use picopi::graphics::debug_core::DebugGfxCore;
use picopi::graphics::framebuffer::{PixelBuffer, PIXEL_BUFFER_LEN};
use picopi::graphics::hires_core::{
    GfxError, HiResCore, RegisterSet, StorageMode, TextRom, EMPTY_ATLAS_ID,
};
use picopi::graphics::text::write_text;
use picopi::graphics::{Color, Display, DisplayIrq, DisplayLog, GfxCore, Irq, IrqLog};

/// A call received by the display or by the interrupt receiver.
#[derive(Clone, Copy, Debug, PartialEq)]
enum Call {
    Pixel,
    Reset,
    Show,
    Interrupt(Irq),
}

#[derive(Clone, Default)]
struct Recorder {
    pixels: Rc<RefCell<Vec<Color>>>,
    shows: Rc<RefCell<usize>>,
    resets: Rc<RefCell<usize>>,
    calls: Rc<RefCell<Vec<Call>>>,
}

impl Display for Recorder {
    fn received(&self) -> DisplayLog {
        unreachable!()
    }

    fn push_pixel(&mut self, color: Color) {
        self.pixels.borrow_mut().push(color);
        self.calls.borrow_mut().push(Call::Pixel);
    }

    fn reset_position(&mut self) {
        *self.resets.borrow_mut() += 1;
        self.calls.borrow_mut().push(Call::Reset);
    }

    fn show_screen(&mut self) {
        *self.shows.borrow_mut() += 1;
        self.calls.borrow_mut().push(Call::Show);
    }
}

#[derive(Clone, Default)]
struct IrqRecorder {
    irqs: Rc<RefCell<Vec<Irq>>>,
    calls: Rc<RefCell<Vec<Call>>>,
}

impl DisplayIrq for IrqRecorder {
    fn received(&self) -> IrqLog {
        unreachable!()
    }

    fn trigger_irq(&mut self, irq_type: Irq) {
        self.irqs.borrow_mut().push(irq_type);
        self.calls.borrow_mut().push(Call::Interrupt(irq_type));
    }
}

/// A display and an interrupt receiver that write into one shared log of calls.
fn shared_recorders() -> (Recorder, IrqRecorder, Rc<RefCell<Vec<Call>>>) {
    let calls: Rc<RefCell<Vec<Call>>> = Rc::new(RefCell::new(Vec::new()));
    let display = Recorder { calls: calls.clone(), ..Recorder::default() };
    let irq = IrqRecorder { calls: calls.clone(), ..IrqRecorder::default() };
    (display, irq, calls)
}

impl IrqRecorder {
    fn line_irqs(&self) -> usize {
        self.irqs.borrow().iter().filter(|i| matches!(i, Irq::Scanline { .. })).count()
    }

    fn vsyncs(&self) -> usize {
        self.irqs.borrow().iter().filter(|i| matches!(i, Irq::VSync)).count()
    }
}

const PALETTE: usize = 32 * 32 + 1;

/// 32 x 32 pixels, row i holding color index 1 + 2 i; palette 0 at `PALETTE`, entry k
/// stored as blue, green, red, alpha = 3k, 2k, k, 0.
fn memory() -> Vec<u8> {
    let mut ram = vec![0u8; 32 * 1024];
    for i in 0..32 {
        for j in 0..32 {
            ram[i * 32 + j] = (1 + i * 2) as u8;
        }
    }
    for k in 1..64 {
        let at = PALETTE + 4 * k;
        ram[at] = (3 * k) as u8;
        ram[at + 1] = (2 * k) as u8;
        ram[at + 2] = k as u8;
    }
    ram
}

fn core_with(ram: Vec<u8>) -> (HiResCore<IrqRecorder, Recorder>, Recorder, IrqRecorder) {
    let display = Recorder::default();
    let irq = IrqRecorder::default();
    let mut core = HiResCore::new(irq.clone(), display.clone(), ram, TextRom { data: 0, palette: PALETTE });
    core.get_registers_mut().output_enable = true;
    (core, display, irq)
}

fn set_default_data(regs: &mut RegisterSet) {
    regs.layers[0].tilex = 16;
    regs.layers[0].tiley = 16;
    regs.layers[0].tiles[0].atlas_id = 1;
    regs.layers[0].tiles[0].tile_id = 1;
    regs.layers[0].tiles[0].palette_id = 0;
    regs.palettes[0] = Some(PALETTE);
    regs.pixel_atlasses[1].data = Some(0);
    regs.pixel_atlasses[1].sizex = 32;
    regs.pixel_atlasses[1].sizey = 32;
    regs.pixel_atlasses[1].storage_mode = StorageMode::EightBit;
    regs.lastErr = 0;
}

fn color(r: u8, g: u8, b: u8) -> Color {
    Color { r, g, b }
}

#[test]
fn will_trigger_vsync_after_240_lines() {
    let (mut core, _display, irq) = core_with(memory());
    for _ in 0..239 {
        core.render_scanline();
        assert_eq!(irq.vsyncs(), 0);
    }
    core.render_scanline();
    assert_eq!(irq.vsyncs(), 1);
    assert_eq!(*irq.irqs.borrow().last().unwrap(), Irq::VSync);
}

#[test]
fn line_irqs_follow_the_enable_bits() {
    let (mut core, _display, irq) = core_with(memory());
    {
        let regs = core.get_registers_mut();
        regs.LYXIrqEnable = true;
        regs.LYCCompare = 2;
    }
    core.render_scanline();
    core.render_scanline();
    assert_eq!(irq.line_irqs(), 0);
    core.render_scanline();
    assert_eq!(*irq.irqs.borrow(), vec![Irq::Scanline { scanline_index: 2 }]);

    core.get_registers_mut().LENDIrqEnable = true;
    core.render_scanline();
    assert_eq!(irq.line_irqs(), 2);
    assert_eq!(irq.irqs.borrow()[1], Irq::Scanline { scanline_index: 3 });
}

#[test]
fn compare_and_line_end_both_fire_on_the_compared_line() {
    let (mut core, _display, irq) = core_with(memory());
    {
        let regs = core.get_registers_mut();
        regs.LYXIrqEnable = true;
        regs.LENDIrqEnable = true;
        regs.LYCCompare = 0;
    }
    core.render_scanline();
    assert_eq!(
        *irq.irqs.borrow(),
        vec![Irq::Scanline { scanline_index: 0 }, Irq::Scanline { scanline_index: 0 }]
    );
}

#[test]
fn will_render_correct_value() {
    let (mut core, display, _irq) = core_with(memory());
    set_default_data(core.get_registers_mut());
    core.render_scanline();
    let pixels = display.pixels.borrow();
    // tile 1 starts at column 16 of the atlas; row 0 holds index 1: red 1, green 2, blue 3
    assert_eq!(pixels[0], color(1, 2, 3));
    assert_eq!(pixels[15], color(1, 2, 3));
    // the next tile of layer 0 takes atlas 0, which has no size: the line stops there
    assert_eq!(pixels.len(), 16);
    assert_eq!(core.get_registers().lastErr, GfxError::BadAtlasId as u8);
}

#[test]
fn will_render_green_output_if_nothing_was_setup() {
    let (mut core, display, _irq) = core_with(vec![0u8; 64]);
    core.render_scanline();
    let pixels = display.pixels.borrow();
    assert_eq!(pixels.len(), 320);
    assert!(pixels.iter().all(|c| *c == color(0, 255, 0)));
}

#[test]
fn will_set_error_if_atlas_has_no_memory() {
    let (mut core, display, _irq) = core_with(memory());
    {
        let regs = core.get_registers_mut();
        set_default_data(regs);
        regs.layers[0].tiles[0].atlas_id = 2;
        regs.pixel_atlasses[2].sizex = 32;
        regs.pixel_atlasses[2].sizey = 32;
    }
    core.render_scanline();
    assert_eq!(core.get_registers().lastErr, GfxError::BadAtlasPtr as u8);
    assert_eq!(core.get_registers().lastErr, GfxError::BadAtlasPtr.code());
    assert_eq!(display.pixels.borrow().len(), 0);
}

#[test]
fn will_set_error_if_bad_tile_id() {
    let (mut core, display, _irq) = core_with(memory());
    {
        let regs = core.get_registers_mut();
        set_default_data(regs);
        regs.layers[0].tiles[0].tile_id = 255;
    }
    core.render_scanline();
    assert_eq!(core.get_registers().lastErr, GfxError::BadAtlasSize as u8);
    assert_eq!(display.pixels.borrow().len(), 0);
}

#[test]
fn zero_sized_atlas_is_a_bad_atlas_id() {
    let (mut core, _display, _irq) = core_with(memory());
    {
        let regs = core.get_registers_mut();
        set_default_data(regs);
        regs.pixel_atlasses[1].sizey = 0;
    }
    assert_eq!(core.resolve_pixel(0), Err(GfxError::BadAtlasId));
}

#[test]
fn palette_without_memory_is_reported_as_bad_palette_ptr() {
    let (mut core, _display, _irq) = core_with(memory());
    {
        let regs = core.get_registers_mut();
        set_default_data(regs);
        regs.palettes[0] = None;
    }
    assert_eq!(core.resolve_pixel(0), Err(GfxError::BadPalettePtr));
}

#[test]
fn an_error_stops_all_further_rendering() {
    let (mut core, display, irq) = core_with(memory());
    {
        let regs = core.get_registers_mut();
        set_default_data(regs);
        regs.layers[0].tiles[0].tile_id = 255;
        regs.LENDIrqEnable = true;
    }
    core.render_scanline();
    let irqs_after_error = irq.irqs.borrow().len();
    assert_eq!(irqs_after_error, 1);
    for _ in 0..300 {
        core.render_scanline();
    }
    assert_eq!(display.pixels.borrow().len(), 0);
    assert_eq!(irq.irqs.borrow().len(), irqs_after_error);
    assert_eq!(core.get_registers().lastErr, GfxError::BadAtlasSize as u8);
}

#[test]
fn error_in_the_middle_of_a_line_keeps_the_pixels_before_it() {
    let (mut core, display, _irq) = core_with(memory());
    {
        let regs = core.get_registers_mut();
        set_default_data(regs);
        // tile 1 of layer 0 (pixels 16..32) points at an atlas with no memory
        regs.layers[0].tiles[1].atlas_id = 3;
        regs.pixel_atlasses[3].sizex = 32;
        regs.pixel_atlasses[3].sizey = 32;
    }
    core.render_scanline();
    assert_eq!(display.pixels.borrow().len(), 16);
    assert_eq!(core.get_registers().lastErr, GfxError::BadAtlasPtr as u8);
}

#[test]
fn color_index_zero_and_magenta_are_transparent() {
    let mut ram = memory();
    // row 0 of the atlas holds index 0 from column 16 on
    for j in 16..32 {
        ram[j] = 0;
    }
    let (mut core, display, _irq) = core_with(ram);
    {
        let regs = core.get_registers_mut();
        set_default_data(regs);
        // tile 0 of layer 2 shows index 1 of palette 1, which is magenta
        regs.layers[2].tilex = 16;
        regs.layers[2].tiley = 16;
        regs.layers[2].tiles[0].atlas_id = 1;
        regs.layers[2].tiles[0].tile_id = 0;
        regs.layers[2].tiles[0].palette_id = 1;
        regs.palettes[1] = Some(2000);
    }
    core.get_memory_mut()[2004] = 255;
    core.get_memory_mut()[2005] = 0;
    core.get_memory_mut()[2006] = 255;
    core.render_scanline();
    let pixels = display.pixels.borrow();
    // layer 0 is transparent at pixel 0 (index 0), layer 2 is magenta: no layer draws
    assert_eq!(pixels[0], color(0, 255, 0));
}

#[test]
fn will_render_sprite() {
    let (mut core, display, _irq) = core_with(memory());
    {
        let regs = core.get_registers_mut();
        set_default_data(regs);
        regs.layers[0].tiles[0].atlas_id = EMPTY_ATLAS_ID;
        regs.sprites[0].atlas_id = 1;
        regs.sprites[0].atlasx = 4;
        regs.sprites[0].atlasy = 2;
        regs.sprites[0].w = 8;
        regs.sprites[0].h = 8;
        regs.sprites[0].posx = 0;
        regs.sprites[0].posy = 0;
    }
    core.render_scanline();
    let pixels = display.pixels.borrow();
    // atlas row 2 holds index 5: red 5, green 10, blue 15
    assert_eq!(pixels[0], color(5, 10, 15));
    assert_eq!(pixels[7], color(5, 10, 15));
    assert_eq!(pixels[8], color(0, 255, 0));
}

#[test]
fn unused_sprite_slot_is_skipped() {
    let (mut core, _display, _irq) = core_with(memory());
    {
        let regs = core.get_registers_mut();
        set_default_data(regs);
        regs.layers[0].tiles[0].atlas_id = EMPTY_ATLAS_ID;
        regs.sprites[0].atlas_id = 1;
        regs.sprites[0].w = 8;
        regs.sprites[0].h = 8;
        regs.sprites[0].posx = -1;
        regs.sprites[0].posy = -1;
    }
    assert_eq!(core.resolve_pixel(0), Ok(color(0, 255, 0)));
}

#[test]
fn four_bit_atlas_reads_high_then_low_nibble() {
    let mut ram = vec![0u8; 4096];
    ram[0] = 0x12;
    for k in 1..16 {
        let at = 1000 + 4 * k;
        ram[at] = k as u8;
        ram[at + 1] = k as u8;
        ram[at + 2] = k as u8;
    }
    let (mut core, display, _irq) = core_with(ram);
    {
        let regs = core.get_registers_mut();
        regs.layers[0].tilex = 2;
        regs.layers[0].tiley = 2;
        regs.layers[0].tiles[0].atlas_id = 0;
        regs.pixel_atlasses[0].data = Some(0);
        regs.pixel_atlasses[0].sizex = 2;
        regs.pixel_atlasses[0].sizey = 2;
        regs.pixel_atlasses[0].storage_mode = StorageMode::FourBit;
        regs.palettes[0] = Some(1000);
    }
    assert_eq!(core.resolve_pixel(0), Ok(color(1, 1, 1)));
    assert_eq!(core.resolve_pixel(1), Ok(color(2, 2, 2)));
    core.render_scanline();
    assert_eq!(display.pixels.borrow()[1], color(2, 2, 2));
}

#[test]
fn text_mode_is_set_up_once() {
    let (mut core, _display, _irq) = core_with(memory());
    core.get_registers_mut().layers[0].tiles[7].tile_id = 42;
    core.get_registers_mut().layers[0].tiles[7].atlas_id = 9;
    core.enable_text_mode();
    {
        let regs = core.get_registers();
        assert_eq!(regs.Mode, 1);
        assert_eq!(regs.pixel_atlasses[0].data, Some(0));
        assert_eq!(regs.pixel_atlasses[0].sizex, 128);
        assert_eq!(regs.pixel_atlasses[0].sizey, 192);
        assert_eq!(regs.palettes[0], Some(PALETTE));
        assert_eq!(regs.layers[0].tilex, 8);
        assert_eq!(regs.layers[0].tiley, 8);
        assert_eq!(regs.layers[0].tiles[7].atlas_id, 0);
        assert_eq!(regs.layers[0].tiles[7].tile_id, 42);
    }
    core.get_registers_mut().layers[0].tilex = 3;
    core.enable_text_mode();
    assert_eq!(core.get_registers().layers[0].tilex, 3);
}

#[test]
fn render_frame_draws_240_lines_and_shows_once() {
    let (mut core, display, irq) = core_with(memory());
    core.render_frame();
    assert_eq!(display.pixels.borrow().len(), 320 * 240);
    assert_eq!(*display.shows.borrow(), 1);
    assert_eq!(irq.vsyncs(), 1);
    core.render_frame();
    assert_eq!(display.pixels.borrow().len(), 2 * 320 * 240);
    assert_eq!(irq.vsyncs(), 2);
}

#[test]
fn debug_core_paints_a_magenta_frame() {
    let display = Recorder::default();
    let irq = IrqRecorder::default();
    let mut core = DebugGfxCore::new(display.clone(), irq.clone());
    core.tick();
    let pixels = display.pixels.borrow();
    assert_eq!(pixels.len(), 320 * 240);
    assert!(pixels.iter().all(|c| *c == color(255, 0, 255)));
    let irqs = irq.irqs.borrow();
    assert_eq!(irqs.len(), 241);
    assert_eq!(irqs[0], Irq::Scanline { scanline_index: 0 });
    assert_eq!(irqs[239], Irq::Scanline { scanline_index: 239 });
    assert_eq!(irqs[240], Irq::VSync);
    assert_eq!(*display.shows.borrow(), 1);
}

#[test]
fn debug_core_raises_each_line_interrupt_after_its_pixels() {
    let (display, irq, calls) = shared_recorders();
    let mut core = DebugGfxCore::new(display, irq);
    core.tick();
    let calls = calls.borrow();
    assert_eq!(calls.len(), 240 * 321 + 2);
    for line in 0..240 {
        let at = line * 321;
        assert!(calls[at..at + 320].iter().all(|c| *c == Call::Pixel));
        assert_eq!(calls[at + 320], Call::Interrupt(Irq::Scanline { scanline_index: line }));
    }
    assert_eq!(calls[240 * 321], Call::Interrupt(Irq::VSync));
    assert_eq!(calls[240 * 321 + 1], Call::Show);
}

#[test]
fn hires_line_interrupts_follow_the_line_and_show_comes_last() {
    let (display, irq, calls) = shared_recorders();
    let mut core = HiResCore::new(irq, display, memory(), TextRom { data: 0, palette: PALETTE });
    {
        let regs = core.get_registers_mut();
        regs.output_enable = true;
        regs.LENDIrqEnable = true;
    }
    core.render_frame();
    let calls = calls.borrow();
    assert_eq!(calls.len(), 240 * 321 + 2);
    for line in 0..240 {
        let at = line * 321;
        assert!(calls[at..at + 320].iter().all(|c| *c == Call::Pixel));
        assert_eq!(calls[at + 320], Call::Interrupt(Irq::Scanline { scanline_index: line }));
    }
    assert_eq!(calls[240 * 321], Call::Interrupt(Irq::VSync));
    assert_eq!(calls[240 * 321 + 1], Call::Show);
    assert!(!calls.contains(&Call::Reset));
}

#[test]
fn pixel_buffer_stores_rgb_triples() {
    let mut buffer = PixelBuffer::new();
    assert!(buffer.has_room());
    buffer.push_pixel(color(1, 2, 3));
    buffer.push_pixel(color(4, 5, 6));
    assert_eq!(&buffer.frame()[0..6], &[1, 2, 3, 4, 5, 6]);
    buffer.reset_position();
    buffer.push_pixel(color(7, 8, 9));
    assert_eq!(&buffer.frame()[0..6], &[7, 8, 9, 4, 5, 6]);
    assert_eq!(buffer.frame().len(), PIXEL_BUFFER_LEN);
}

#[test]
fn pixel_buffer_fills_up_after_a_frame() {
    let mut buffer = PixelBuffer::new();
    for _ in 0..320 * 240 {
        buffer.push_pixel(color(9, 9, 9));
    }
    assert!(!buffer.has_room());
    assert_eq!(buffer.frame()[PIXEL_BUFFER_LEN - 1], 9);
}

#[test]
fn write_text_fills_tile_ids_from_row_and_column() {
    let mut regs = RegisterSet::zeroed();
    write_text(&mut regs, "PicoPi32 Textmode".to_string(), 10, 5);
    let start = 10 * 40 + 5;
    for (k, b) in "PicoPi32 Textmode".bytes().enumerate() {
        assert_eq!(regs.layers[0].tiles[start + k].tile_id, b);
    }
    assert_eq!(regs.layers[0].tiles[start - 1].tile_id, 0);
    assert_eq!(regs.layers[0].tiles[start + 17].tile_id, 0);
}

#[test]
fn write_text_reaches_the_last_tile() {
    let mut regs = RegisterSet::zeroed();
    write_text(&mut regs, "ab".to_string(), 29, 38);
    assert_eq!(regs.layers[0].tiles[1198].tile_id, b'a');
    assert_eq!(regs.layers[0].tiles[1199].tile_id, b'b');
}

#[test]
fn readiness_of_a_zeroed_core() {
    let (core, _display, _irq) = core_with(memory());
    assert!(core.scanline_ready());
    assert!(core.frame_ready());
}

#[test]
fn atlas_slot_past_the_last_is_a_bad_atlas_id() {
    let (mut core, display, _irq) = core_with(memory());
    {
        let regs = core.get_registers_mut();
        set_default_data(regs);
        regs.layers[0].tiles[0].atlas_id = 16;
    }
    assert!(core.scanline_ready());
    assert!(core.frame_ready());
    assert_eq!(core.resolve_pixel(0), Err(GfxError::BadAtlasId));
    core.render_scanline();
    assert_eq!(display.pixels.borrow().len(), 0);
    assert_eq!(core.get_registers().lastErr, GfxError::BadAtlasId as u8);
}

#[test]
fn tile_of_an_atlas_far_past_the_slots_is_a_bad_atlas_id() {
    let (mut core, _display, _irq) = core_with(memory());
    {
        let regs = core.get_registers_mut();
        set_default_data(regs);
        regs.layers[0].tiles[0].atlas_id = 200;
    }
    assert_eq!(core.resolve_pixel(0), Err(GfxError::BadAtlasId));
}

#[test]
fn sprite_of_atlas_slot_sixteen_is_a_bad_atlas_id() {
    let (mut core, _display, _irq) = core_with(memory());
    {
        let regs = core.get_registers_mut();
        set_default_data(regs);
        regs.layers[0].tiles[0].atlas_id = EMPTY_ATLAS_ID;
        regs.sprites[0].atlas_id = 16;
        regs.sprites[0].w = 4;
        regs.sprites[0].h = 4;
    }
    assert!(core.scanline_ready());
    assert_eq!(core.resolve_pixel(0), Err(GfxError::BadAtlasId));
}

#[test]
fn atlas_slot_far_past_the_last_is_a_bad_atlas_id() {
    let (mut core, _display, _irq) = core_with(memory());
    {
        let regs = core.get_registers_mut();
        set_default_data(regs);
        regs.layers[0].tiles[0].atlas_id = EMPTY_ATLAS_ID;
        regs.sprites[0].atlas_id = 17;
        regs.sprites[0].w = 4;
        regs.sprites[0].h = 4;
    }
    assert!(core.scanline_ready());
    assert_eq!(core.resolve_pixel(0), Err(GfxError::BadAtlasId));
}

#[test]
fn read_past_memory_is_not_ready() {
    let (mut core, _display, _irq) = core_with(memory());
    {
        let regs = core.get_registers_mut();
        set_default_data(regs);
        regs.pixel_atlasses[1].data = Some(1_000_000);
    }
    assert!(!core.scanline_ready());
    assert!(!core.frame_ready());
}

#[test]
fn a_recorded_error_keeps_the_core_ready() {
    let (mut core, display, _irq) = core_with(memory());
    {
        let regs = core.get_registers_mut();
        set_default_data(regs);
        regs.layers[0].tiles[0].atlas_id = 16;
        regs.lastErr = GfxError::BadAtlasSize as u8;
    }
    assert!(core.scanline_ready());
    assert!(core.frame_ready());
    core.render_frame();
    assert_eq!(display.pixels.borrow().len(), 0);
}

#[test]
fn a_line_failing_late_in_the_frame_makes_the_frame_not_ready() {
    let (mut core, _display, _irq) = core_with(memory());
    {
        let regs = core.get_registers_mut();
        regs.layers[3].tilex = 8;
        regs.layers[3].tiley = 8;
        for t in regs.layers[3].tiles.iter_mut() {
            t.atlas_id = EMPTY_ATLAS_ID;
        }
        // a tile of the last row takes an atlas whose memory lies past the end
        regs.layers[3].tiles[29 * 40].atlas_id = 2;
        regs.pixel_atlasses[2].data = Some(1_000_000);
        regs.pixel_atlasses[2].sizex = 8;
        regs.pixel_atlasses[2].sizey = 8;
    }
    assert!(core.scanline_ready());
    assert!(!core.frame_ready());
}

#[test]
fn text_mode_frame_renders() {
    let (mut core, display, _irq) = core_with(memory());
    core.get_registers_mut().Mode = 1;
    assert!(core.frame_ready());
    core.render_frame();
    assert_eq!(core.get_registers().layers[0].tilex, 8);
    assert_eq!(display.pixels.borrow().len(), 320 * 240);
}

#[test]
fn disabled_output_draws_nothing() {
    let display = Recorder::default();
    let irq = IrqRecorder::default();
    let mut core = HiResCore::new(irq.clone(), display.clone(), memory(), TextRom { data: 0, palette: PALETTE });
    {
        let regs = core.get_registers_mut();
        regs.LENDIrqEnable = true;
    }
    for _ in 0..5 {
        core.render_scanline();
    }
    assert_eq!(display.pixels.borrow().len(), 0);
    assert_eq!(irq.irqs.borrow().len(), 0);
    core.render_frame();
    assert_eq!(display.pixels.borrow().len(), 0);
    assert_eq!(*display.shows.borrow(), 1);
    core.get_registers_mut().output_enable = true;
    core.render_scanline();
    assert_eq!(display.pixels.borrow().len(), 320);
    assert_eq!(*irq.irqs.borrow(), vec![Irq::Scanline { scanline_index: 0 }]);
}

#[test]
fn transparent_sprite_pixel_lets_the_next_sprite_show() {
    let mut ram = memory();
    ram[0] = 0;
    let (mut core, _display, _irq) = core_with(ram);
    {
        let regs = core.get_registers_mut();
        set_default_data(regs);
        regs.layers[0].tiles[0].atlas_id = EMPTY_ATLAS_ID;
        for id in 0..2 {
            regs.sprites[id].atlas_id = 1;
            regs.sprites[id].w = 8;
            regs.sprites[id].h = 8;
        }
        regs.sprites[1].atlasy = 2;
    }
    // sprite 0 shows index 0 at pixel 0, sprite 1 index 5
    assert_eq!(core.resolve_pixel(0), Ok(color(5, 10, 15)));
    // at pixel 1 sprite 0 shows index 1 and decides
    assert_eq!(core.resolve_pixel(1), Ok(color(1, 2, 3)));
}

#[test]
fn magenta_sprite_pixel_is_transparent() {
    let (mut core, _display, _irq) = core_with(memory());
    {
        let regs = core.get_registers_mut();
        set_default_data(regs);
        regs.layers[0].tiles[0].atlas_id = EMPTY_ATLAS_ID;
        regs.sprites[0].atlas_id = 1;
        regs.sprites[0].w = 8;
        regs.sprites[0].h = 8;
        regs.sprites[0].palette_id = 2;
        regs.palettes[2] = Some(3000);
    }
    core.get_memory_mut()[3004] = 255;
    core.get_memory_mut()[3006] = 255;
    assert_eq!(core.resolve_pixel(0), Ok(color(0, 255, 0)));
}

use picopi::graphics::hires_core::raster::{
    atlas_data_of, colorindex_of, layer_pixel_of, palette_entry_of, scanline_outcome_of,
    sprite_pixel_of,
};

#[test]
fn atlas_reads_follow_the_storage_mode() {
    let mut regs = RegisterSet::zeroed();
    let mut mem = vec![0u8; 16];
    mem[4] = 0xAB;
    mem[5] = 0xCD;
    regs.pixel_atlasses[2].data = Some(4);
    regs.pixel_atlasses[2].sizex = 2;
    regs.pixel_atlasses[2].sizey = 2;
    regs.pixel_atlasses[2].storage_mode = StorageMode::FourBit;
    assert_eq!(atlas_data_of(&regs, &mem, 2, 0), Some(Ok(0xA)));
    assert_eq!(atlas_data_of(&regs, &mem, 2, 1), Some(Ok(0xB)));
    assert_eq!(atlas_data_of(&regs, &mem, 2, 2), Some(Ok(0xC)));
    assert_eq!(atlas_data_of(&regs, &mem, 2, 3), Some(Ok(0xD)));
    // 4 pixels: offset 4 lies outside the atlas
    assert_eq!(atlas_data_of(&regs, &mem, 2, 4), Some(Err(GfxError::BadAtlasSize)));
    regs.pixel_atlasses[2].storage_mode = StorageMode::EightBit;
    assert_eq!(atlas_data_of(&regs, &mem, 2, 1), Some(Ok(0xCD)));
    assert_eq!(atlas_data_of(&regs, &mem, 2, 3), Some(Ok(0)));
    assert_eq!(atlas_data_of(&regs, &mem, 2, 4), Some(Err(GfxError::BadAtlasSize)));
    assert_eq!(atlas_data_of(&regs, &mem, 17, 0), Some(Err(GfxError::BadAtlasId)));
    assert_eq!(atlas_data_of(&regs, &mem, 16, 0), Some(Err(GfxError::BadAtlasId)));
    assert_eq!(atlas_data_of(&regs, &mem, 3, 0), Some(Err(GfxError::BadAtlasPtr)));
    // memory ends before the atlas does
    regs.pixel_atlasses[2].data = Some(14);
    assert_eq!(atlas_data_of(&regs, &mem, 2, 1), Some(Ok(0)));
    assert_eq!(atlas_data_of(&regs, &mem, 2, 2), None);
    regs.pixel_atlasses[2].storage_mode = StorageMode::FourBit;
    assert_eq!(atlas_data_of(&regs, &mem, 2, 3), Some(Ok(0)));
}

#[test]
fn tile_pixels_are_found_row_by_row() {
    let mut regs = RegisterSet::zeroed();
    let mut mem = vec![0u8; 64];
    for i in 0..64 {
        mem[i] = i as u8;
    }
    // an 8 x 8 atlas of 2 x 2 tiles: 4 tiles per row
    regs.pixel_atlasses[0].data = Some(0);
    regs.pixel_atlasses[0].sizex = 8;
    regs.pixel_atlasses[0].sizey = 8;
    regs.pixel_atlasses[0].storage_mode = StorageMode::EightBit;
    assert_eq!(colorindex_of(&regs, &mem, 0, 0, 2, 2, 0, 0), Some(Ok(0)));
    assert_eq!(colorindex_of(&regs, &mem, 0, 1, 2, 2, 1, 0), Some(Ok(3)));
    // tile 5 is in the second row of tiles, second column: pixel (1, 1) is at 16 + 2 + 8 + 1
    assert_eq!(colorindex_of(&regs, &mem, 0, 5, 2, 2, 1, 1), Some(Ok(27)));
    // tiles wider than the atlas are not defined
    assert_eq!(colorindex_of(&regs, &mem, 0, 0, 9, 2, 0, 0), None);
    regs.pixel_atlasses[0].sizex = 0;
    assert_eq!(colorindex_of(&regs, &mem, 0, 0, 2, 2, 0, 0), Some(Err(GfxError::BadAtlasId)));
}

#[test]
fn palette_entries_are_blue_green_red_alpha() {
    let mut regs = RegisterSet::zeroed();
    let mut mem = vec![0u8; 1024];
    mem[4] = 30;
    mem[5] = 20;
    mem[6] = 10;
    mem[7] = 99;
    mem[4 * 200] = 7;
    mem[4 * 200 + 1] = 8;
    mem[4 * 200 + 2] = 9;
    regs.palettes[3] = Some(0);
    assert_eq!(palette_entry_of(&regs, &mem, 3, 1), Some(Ok(color(10, 20, 30))));
    // all 256 entries of a palette can be read
    assert_eq!(palette_entry_of(&regs, &mem, 3, 200), Some(Ok(color(9, 8, 7))));
    assert_eq!(palette_entry_of(&regs, &mem, 3, 255), Some(Ok(color(0, 0, 0))));
    assert_eq!(palette_entry_of(&regs, &mem, 4, 1), Some(Err(GfxError::BadPalettePtr)));
    assert_eq!(palette_entry_of(&regs, &mem, 32, 1), Some(Err(GfxError::BadPaletteId)));
    assert_eq!(palette_entry_of(&regs, &mem, 255, 1), Some(Err(GfxError::BadPaletteId)));
    // memory ends inside the entry
    regs.palettes[3] = Some(1020);
    assert_eq!(palette_entry_of(&regs, &mem, 3, 0), Some(Ok(color(0, 0, 0))));
    assert_eq!(palette_entry_of(&regs, &mem, 3, 1), None);
}

#[test]
fn layers_without_tile_size_or_with_empty_tiles_are_transparent() {
    let mut regs = RegisterSet::zeroed();
    let mem = vec![0u8; 16];
    assert_eq!(layer_pixel_of(&regs, &mem, 0, 0, 2), Some(Ok(None)));
    regs.layers[2].tilex = 8;
    regs.layers[2].tiley = 8;
    regs.layers[2].tiles[41].atlas_id = EMPTY_ATLAS_ID;
    // scanline 9, pixel 12: row 1, column 1, tile 41
    assert_eq!(layer_pixel_of(&regs, &mem, 9, 12, 2), Some(Ok(None)));
    // a 1 x 1 tile grid runs past the 1200 tiles of the layer
    regs.layers[2].tilex = 1;
    regs.layers[2].tiley = 1;
    assert_eq!(layer_pixel_of(&regs, &mem, 200, 300, 2), None);
}

#[test]
fn sprite_extents_that_overflow_are_not_defined() {
    let mut regs = RegisterSet::zeroed();
    let mem = vec![0u8; 16];
    regs.sprites[0].posx = 0x7FF0;
    regs.sprites[0].w = 0x7FF0;
    // the sprite starts right of pixel 5: no sum is needed
    assert_eq!(sprite_pixel_of(&regs, &mem, 0, 5), Some(Ok(None)));
    regs.sprites[0].posx = 1;
    assert_eq!(sprite_pixel_of(&regs, &mem, 0, 5), Some(Ok(None)));
    regs.sprites[0].posx = 0x10;
    regs.sprites[0].w = 0x7FF8;
    assert_eq!(sprite_pixel_of(&regs, &mem, 0, 20), None);
}

#[test]
fn scanline_outcome_reports_the_error_it_stops_at() {
    let mut regs = RegisterSet::zeroed();
    let mem = vec![0u8; 16];
    assert_eq!(scanline_outcome_of(&regs, &mem, 0), Some(None));
    regs.layers[0].tilex = 8;
    regs.layers[0].tiley = 8;
    assert_eq!(scanline_outcome_of(&regs, &mem, 0), Some(Some(GfxError::BadAtlasId)));
    regs.layers[0].tiles[0].atlas_id = 16;
    assert_eq!(scanline_outcome_of(&regs, &mem, 0), Some(Some(GfxError::BadAtlasId)));
    regs.layers[0].tiles[0].atlas_id = 0;
    regs.pixel_atlasses[0].data = Some(100);
    regs.pixel_atlasses[0].sizex = 8;
    regs.pixel_atlasses[0].sizey = 8;
    assert_eq!(scanline_outcome_of(&regs, &mem, 0), None);
}

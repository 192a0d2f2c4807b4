use vstd::prelude::*;

use super::model::{
    frame_steps, line_end_irqs, prepend, registers_after_line, resolve_pixel, scanline_from,
    scanline_pixels, scanline_step, scanline_steps, with_error, FrameState,
};
use super::raster::{resolve_pixel_of, scanline_outcome_of};
use super::registers::{error_code, is_zeroed, GfxError, RegisterSet, Tile};
use crate::graphics::{pixel_events, Color, Display, DisplayEvent, DisplayIrq, GfxCore, Irq};

verus! {

/// Where the character ROM of the text mode lies in the core's memory.
#[derive(Clone, Copy, Debug)]
pub struct TextRom {
    /// Address of the 128 x 192 pixel character atlas.
    pub data: usize,
    /// Address of its palette.
    pub palette: usize,
}

/// The registers after the text mode has been set up: atlas 0 is the character ROM,
/// palette 0 its palette, and layer 0 a grid of 8 x 8 tiles that all take atlas 0 and
/// palette 0. Everything else is kept.
pub open spec fn text_mode_registers(old: RegisterSet, new: RegisterSet, rom: TextRom) -> bool {
    &&& new.output_enable == old.output_enable
    &&& new.LENDIrqEnable == old.LENDIrqEnable
    &&& new.LYXIrqEnable == old.LYXIrqEnable
    &&& new.Mode == 1
    &&& new.LYCCompare == old.LYCCompare
    &&& new.xshift == old.xshift
    &&& new.yshift == old.yshift
    &&& new.RFU1 == old.RFU1
    &&& new.RFU2 == old.RFU2
    &&& new.lastErr == old.lastErr
    &&& new.pixel_atlasses[0].data == Some(rom.data)
    &&& new.pixel_atlasses[0].sizex == 128
    &&& new.pixel_atlasses[0].sizey == 192
    &&& new.pixel_atlasses[0].storage_mode == old.pixel_atlasses[0].storage_mode
    &&& forall|i: int| 1 <= i < 16 ==> new.pixel_atlasses[i] == old.pixel_atlasses[i]
    &&& new.palettes[0] == Some(rom.palette)
    &&& forall|i: int| 1 <= i < 32 ==> new.palettes[i] == old.palettes[i]
    &&& new.layers[0].tilex == 8
    &&& new.layers[0].tiley == 8
    &&& new.layers[0].scrollx == old.layers[0].scrollx
    &&& new.layers[0].scrolly == old.layers[0].scrolly
    &&& forall|j: int|
        0 <= j < 1200 ==> #[trigger] new.layers[0].tiles[j] == (Tile {
            atlas_id: 0,
            palette_id: 0,
            ..old.layers[0].tiles[j]
        })
    &&& forall|i: int| 1 <= i < 4 ==> new.layers[i] == old.layers[i]
    &&& new.sprites == old.sprites
}

/// The tile-and-sprite graphics core.
///
/// It draws a frame scanline by scanline, 320 pixels per line and 240 lines per frame,
/// while the output is enabled. Each pixel takes the color of the first of the four
/// layers that shows one there (layer 0 in front); on layer 1 the sprites come before
/// the layer's own tiles, the first sprite that shows a color deciding. Color index 0
/// and the color magenta are transparent. A pixel that no layer covers is drawn green.
/// An error stops the scanline, is recorded in the error register, and no scanline is
/// drawn while the register holds an error.
pub struct HiResCore<I: DisplayIrq, D: Display> {
    display_irq: I,
    display: D,
    scanline: u16,
    registers: RegisterSet,
    memory: Vec<u8>,
    text_rom: TextRom,
    active_mode: u8,
}

impl<I: DisplayIrq, D: Display> HiResCore<I, D> {
    /// The registers.
    pub closed spec fn regs(&self) -> RegisterSet {
        self.registers
    }

    /// The memory that atlases and palettes point into.
    pub closed spec fn mem(&self) -> Seq<u8> {
        self.memory@
    }

    /// The scanline drawn next.
    pub closed spec fn line(&self) -> u16 {
        self.scanline
    }

    /// The mode the core has set itself up for (1 once the text mode is set up).
    pub closed spec fn active_mode(&self) -> u8 {
        self.active_mode
    }

    /// Where the character ROM lies.
    pub closed spec fn rom(&self) -> TextRom {
        self.text_rom
    }

    /// Every call the display has received, in order.
    pub closed spec fn displayed(&self) -> Seq<DisplayEvent> {
        self.display.received()
    }

    /// Every interrupt the interrupt receiver has received, in order.
    pub closed spec fn raised(&self) -> Seq<Irq> {
        self.display_irq.received()
    }

    /// The core's internal invariant: the scanline is on the screen.
    pub closed spec fn inv(&self) -> bool {
        self.scanline < 240
    }

    /// The rendering state.
    pub open spec fn state(&self) -> FrameState {
        FrameState { regs: self.regs(), line: self.line(), display: self.displayed(), irqs: self.raised() }
    }

    /// Whether `render_frame` is defined on the current state: every scanline of the frame
    /// it draws can be drawn.
    pub open spec fn can_render_frame(&self) -> bool {
        &&& self.inv()
        &&& forall|start: RegisterSet|
            #[trigger] frame_registers(self.regs(), self.active_mode(), self.rom(), start) ==> scanline_steps(
                FrameState { regs: start, ..self.state() },
                self.mem(),
                240,
            ) is Some
    }

    /// A core on zeroed registers, drawing into `display`, raising interrupts at
    /// `display_irq`, with atlases and palettes addressing `memory`.
    pub fn new(display_irq: I, display: D, memory: Vec<u8>, text_rom: TextRom) -> (core: Self)
        ensures
            core.inv(),
            is_zeroed(core.regs()),
            core.mem() == memory@,
            core.line() == 0,
            core.active_mode() == 0,
            core.rom() == text_rom,
            core.displayed() == display.received(),
            core.raised() == display_irq.received(),
    {
        HiResCore {
            display_irq,
            display,
            scanline: 0,
            registers: RegisterSet::zeroed(),
            memory,
            text_rom,
            active_mode: 0,
        }
    }

    /// Read and write access to the registers.
    pub fn get_registers_mut(&mut self) -> (regs: &mut RegisterSet)
        ensures
            *regs == old(self).regs(),
            final(self).regs() == *final(regs),
            final(self).mem() == old(self).mem(),
            final(self).line() == old(self).line(),
            final(self).active_mode() == old(self).active_mode(),
            final(self).rom() == old(self).rom(),
            final(self).displayed() == old(self).displayed(),
            final(self).raised() == old(self).raised(),
            final(self).inv() == old(self).inv(),
    {
        &mut self.registers
    }

    /// Read access to the registers.
    pub fn get_registers(&self) -> (regs: &RegisterSet)
        ensures
            *regs == self.regs(),
    {
        &self.registers
    }

    /// Read access to the memory.
    pub fn get_memory(&self) -> (mem: &Vec<u8>)
        ensures
            mem@ == self.mem(),
    {
        &self.memory
    }

    /// Read and write access to the memory.
    pub fn get_memory_mut(&mut self) -> (mem: &mut Vec<u8>)
        ensures
            mem@ == old(self).mem(),
            final(self).mem() == final(mem)@,
            final(self).regs() == old(self).regs(),
            final(self).line() == old(self).line(),
            final(self).active_mode() == old(self).active_mode(),
            final(self).rom() == old(self).rom(),
            final(self).displayed() == old(self).displayed(),
            final(self).raised() == old(self).raised(),
            final(self).inv() == old(self).inv(),
    {
        &mut self.memory
    }
}


/// The registers a frame starts from: the text mode is set up first when the mode
/// register asks for it and the core has not set it up yet.
pub open spec fn frame_registers(regs: RegisterSet, active_mode: u8, rom: TextRom, start: RegisterSet) -> bool {
    if regs.Mode == 1 && active_mode != 1 {
        text_mode_registers(regs, start, rom)
    } else {
        start == regs
    }
}

/// If `n` scanlines render, so do the first `k`.
pub proof fn lemma_steps_prefix(s: FrameState, mem: Seq<u8>, k: nat, n: nat)
    requires
        k <= n,
        scanline_steps(s, mem, n) is Some,
    ensures
        scanline_steps(s, mem, k) is Some,
    decreases n,
{
    if k < n {
        lemma_steps_prefix(s, mem, k, (n - 1) as nat);
    }
}

/// If `n` scanlines cannot be rendered, neither can more.
pub proof fn lemma_steps_undefined(s: FrameState, mem: Seq<u8>, k: nat, n: nat)
    requires
        k <= n,
        scanline_steps(s, mem, k) is None,
    ensures
        scanline_steps(s, mem, n) is None,
    decreases n,
{
    if k < n {
        lemma_steps_undefined(s, mem, k, (n - 1) as nat);
    }
}

/// The text mode set-up determines the registers it leaves.
pub proof fn lemma_text_mode_unique(old: RegisterSet, a: RegisterSet, b: RegisterSet, rom: TextRom)
    requires
        text_mode_registers(old, a, rom),
        text_mode_registers(old, b, rom),
    ensures
        a == b,
{
    assert(a.pixel_atlasses =~= b.pixel_atlasses);
    assert(a.palettes =~= b.palettes);
    assert(a.layers[0].tiles =~= b.layers[0].tiles);
    assert(a.layers =~= b.layers);
    assert(a.sprites =~= b.sprites);
}

/// Sets the text mode up in `regs`: atlas 0 becomes the character ROM (128 x 192 pixels),
/// palette 0 its palette, and layer 0 a grid of 8 x 8 tiles on atlas 0 and palette 0.
fn set_up_text_mode(regs: &mut RegisterSet, rom: TextRom)
    ensures
        text_mode_registers(*old(regs), *final(regs), rom),
{
    regs.pixel_atlasses[0].data = Some(rom.data);
    regs.pixel_atlasses[0].sizex = 128;
    regs.pixel_atlasses[0].sizey = 192;
    regs.palettes[0] = Some(rom.palette);
    regs.layers[0].tilex = 8;
    regs.layers[0].tiley = 8;
    let mut tiles = regs.layers[0].tiles;
    let ghost tiles0 = tiles;
    let mut i: usize = 0;
    while i < 1200
        invariant
            i <= 1200,
            forall|j: int| 0 <= j < i ==> #[trigger] tiles[j] == (Tile { atlas_id: 0, palette_id: 0, ..tiles0[j] }),
            forall|j: int| i <= j < 1200 ==> #[trigger] tiles[j] == tiles0[j],
        decreases 1200 - i,
    {
        tiles[i].palette_id = 0;
        tiles[i].atlas_id = 0;
        i += 1;
    }
    regs.layers[0].tiles = tiles;
    regs.Mode = 1;
}

impl<I: DisplayIrq, D: Display> HiResCore<I, D> {
    /// The color of pixel `pixel` of the current scanline: the first layer that shows a
    /// color there decides (on layer 1 the sprites come first), green where none does.
    pub fn resolve_pixel(&self, pixel: u16) -> (r: Result<Color, GfxError>)
        requires
            resolve_pixel(self.regs(), self.mem(), self.line(), pixel) is Some,
        ensures
            Some(r) == resolve_pixel(self.regs(), self.mem(), self.line(), pixel),
    {
        resolve_pixel_of(&self.registers, &self.memory, self.scanline, pixel).unwrap()
    }

    /// Whether `render_scanline` can be called now.
    pub fn scanline_ready(&self) -> (r: bool)
        requires
            self.inv(),
        ensures
            r == self.can_render_scanline(),
    {
        if self.registers.lastErr != 0 || !self.registers.output_enable {
            return true;
        }
        scanline_outcome_of(&self.registers, &self.memory, self.scanline).is_some()
    }

    /// Whether `render_frame` can be called now.
    pub fn frame_ready(&self) -> (r: bool)
        requires
            self.inv(),
        ensures
            r == self.can_render_frame(),
    {
        let mut regs = self.registers;
        if regs.Mode == 1 && self.active_mode != 1 {
            set_up_text_mode(&mut regs, self.text_rom);
        }
        let ghost start = regs;
        let ghost s0 = FrameState { regs: start, ..self.state() };
        assert(frame_registers(self.regs(), self.active_mode(), self.rom(), start));
        assert forall|other: RegisterSet|
            #[trigger] frame_registers(self.regs(), self.active_mode(), self.rom(), other) implies other == start by {
            if self.regs().Mode == 1 && self.active_mode() != 1 {
                lemma_text_mode_unique(self.regs(), other, start, self.rom());
            }
        }
        let mut line = self.scanline;
        let ghost mut s = s0;
        let mut k: usize = 0;
        while k < 240
            invariant
                k <= 240,
                line < 240,
                s.regs == regs,
                s.line == line,
                Some(s) == scanline_steps(s0, self.mem(), k as nat),
                s0 == (FrameState { regs: start, ..self.state() }),
                frame_registers(self.regs(), self.active_mode(), self.rom(), start),
                forall|other: RegisterSet|
                    #[trigger] frame_registers(self.regs(), self.active_mode(), self.rom(), other) ==> other == start,
            decreases 240 - k,
        {
            if regs.lastErr == 0 && regs.output_enable {
                match scanline_outcome_of(&regs, &self.memory, line) {
                    None => {
                        proof {
                            lemma_steps_undefined(s0, self.mem(), (k + 1) as nat, 240);
                        }
                        return false;
                    },
                    Some(err) => {
                        proof {
                            s = scanline_step(s, self.mem()).unwrap();
                        }
                        match err {
                            Some(e) => {
                                regs.lastErr = e.code();
                            },
                            None => {},
                        }
                        line = if line >= 239 {
                            0
                        } else {
                            line + 1
                        };
                    },
                }
            }
            k += 1;
        }
        true
    }

    /// Draws the current scanline: hands each pixel to the display, left to right, and
    /// stops at the first pixel whose color cannot be resolved, recording the error.
    fn render_scanline_pixels(&mut self)
        requires
            old(self).inv(),
            scanline_pixels(old(self).regs(), old(self).mem(), old(self).line()) is Some,
        ensures
            final(self).inv(),
            final(self).displayed() == old(self).displayed() + pixel_events(
                scanline_pixels(old(self).regs(), old(self).mem(), old(self).line()).unwrap().0,
            ),
            final(self).regs() == registers_after_line(old(self).regs(), old(self).mem(), old(self).line()),
            final(self).mem() == old(self).mem(),
            final(self).line() == old(self).line(),
            final(self).active_mode() == old(self).active_mode(),
            final(self).rom() == old(self).rom(),
            final(self).raised() == old(self).raised(),
    {
        let ghost regs0 = self.registers;
        let ghost mem0 = self.memory@;
        let ghost line0 = self.scanline;
        let ghost start = self.display.received();
        let ghost mut done: Seq<Color> = Seq::empty();
        let mut pixel: usize = 0;
        assert(start + pixel_events(done) =~= start);
        while pixel < 320
            invariant
                pixel <= 320,
                regs0 == old(self).registers,
                mem0 == old(self).memory@,
                line0 == old(self).scanline,
                start == old(self).display.received(),
                self.registers == regs0,
                self.memory@ == mem0,
                self.scanline == line0,
                line0 < 240,
                self.active_mode == old(self).active_mode,
                self.text_rom == old(self).text_rom,
                self.display_irq == old(self).display_irq,
                self.display.received() == start + pixel_events(done),
                scanline_pixels(regs0, mem0, line0) == prepend(done, scanline_from(regs0, mem0, line0, pixel as int)),
                scanline_pixels(regs0, mem0, line0) is Some,
            decreases 320 - pixel,
        {
            match self.resolve_pixel(pixel as u16) {
                Ok(c) => {
                    self.display.push_pixel(c);
                    proof {
                        let rest = scanline_from(regs0, mem0, line0, pixel + 1);
                        assert(scanline_from(regs0, mem0, line0, pixel as int) == prepend(seq![c], rest));
                        match rest {
                            None => {},
                            Some((cs, e)) => {
                                assert(done + (seq![c] + cs) =~= (done + seq![c]) + cs);
                            },
                        }
                        assert(pixel_events(done + seq![c]) =~= pixel_events(done).push(DisplayEvent::Pixel(c)));
                        assert(start + pixel_events(done + seq![c]) =~= (start + pixel_events(done)).push(
                            DisplayEvent::Pixel(c),
                        ));
                        done = done + seq![c];
                    }
                },
                Err(e) => {
                    proof {
                        assert(scanline_from(regs0, mem0, line0, pixel as int) == Some((Seq::<Color>::empty(), Some(e))));
                        assert(done + Seq::<Color>::empty() =~= done);
                        assert(scanline_pixels(regs0, mem0, line0) == Some((done, Some(e))));
                    }
                    self.registers.lastErr = e.code();
                    assert(self.registers == with_error(regs0, error_code(e)));
                    return;
                },
            }
            pixel += 1;
        }
        proof {
            assert(done + Seq::<Color>::empty() =~= done);
        }
    }

    /// Sets up the text mode, once: atlas 0 becomes the character ROM, palette 0 its
    /// palette, and layer 0 a grid of 8 x 8 tiles on atlas 0 and palette 0.
    pub fn enable_text_mode(&mut self)
        ensures
            final(self).inv() == old(self).inv(),
            old(self).active_mode() == 1 ==> final(self).regs() == old(self).regs(),
            old(self).active_mode() != 1 ==> text_mode_registers(old(self).regs(), final(self).regs(), old(self).rom()),
            final(self).active_mode() == 1,
            final(self).mem() == old(self).mem(),
            final(self).line() == old(self).line(),
            final(self).rom() == old(self).rom(),
            final(self).displayed() == old(self).displayed(),
            final(self).raised() == old(self).raised(),
    {
        if self.active_mode != 1 {
            set_up_text_mode(&mut self.registers, self.text_rom);
            self.active_mode = 1;
        }
    }

    /// Draws a frame: sets up the text mode first when the mode register asks for it,
    /// draws 240 scanlines and then hands the frame to the display to show.
    pub fn render_frame(&mut self)
        requires
            old(self).can_render_frame(),
        ensures
            final(self).inv(),
            exists|start: RegisterSet|
                #[trigger] frame_registers(old(self).regs(), old(self).active_mode(), old(self).rom(), start)
                    && Some(final(self).state()) == frame_steps(
                    FrameState { regs: start, ..old(self).state() },
                    old(self).mem(),
                ),
            final(self).mem() == old(self).mem(),
            final(self).rom() == old(self).rom(),
            final(self).active_mode() == if old(self).regs().Mode == 1 { 1 } else { old(self).active_mode() },
    {
        if self.registers.Mode == 1 {
            self.enable_text_mode();
        }
        let ghost start = self.registers;
        let ghost s0 = self.state();
        let ghost mem0 = self.memory@;
        assert(frame_registers(old(self).regs(), old(self).active_mode(), old(self).rom(), start));
        assert(s0 == FrameState { regs: start, ..old(self).state() });
        let mut k: usize = 0;
        while k < 240
            invariant
                k <= 240,
                self.inv(),
                self.memory@ == mem0,
                self.text_rom == old(self).text_rom,
                self.active_mode == (if old(self).registers.Mode == 1 { 1 } else { old(self).active_mode }),
                Some(self.state()) == scanline_steps(s0, mem0, k as nat),
                scanline_steps(s0, mem0, 240) is Some,
            decreases 240 - k,
        {
            proof {
                lemma_steps_prefix(s0, mem0, (k + 1) as nat, 240);
            }
            self.render_scanline();
            k += 1;
        }
        let ghost t = self.state();
        self.display.show_screen();
        assert(self.state() == FrameState { display: t.display.push(DisplayEvent::Show), ..t });
    }
}

impl<I: DisplayIrq, D: Display> GfxCore for HiResCore<I, D> {
    open spec fn can_render_scanline(&self) -> bool {
        self.inv() && scanline_step(self.state(), self.mem()) is Some
    }

    /// Draws the current scanline and raises the line interrupts; after the last line of
    /// the frame raises VSync and starts over at line 0. Does nothing while the output is
    /// disabled or an error is recorded.
    fn render_scanline(&mut self)
        ensures
            final(self).inv(),
            Some(final(self).state()) == scanline_step(old(self).state(), old(self).mem()),
            final(self).mem() == old(self).mem(),
            final(self).active_mode() == old(self).active_mode(),
            final(self).rom() == old(self).rom(),
    {
        if self.registers.lastErr != 0 {
            return;
        }
        if !self.registers.output_enable {
            return;
        }
        let ghost regs0 = self.registers;
        let ghost irqs0 = self.display_irq.received();
        self.render_scanline_pixels();
        let line = self.scanline;
        let ghost mut raised: Seq<Irq> = Seq::empty();
        assert(irqs0 + raised =~= irqs0);
        if self.registers.LYXIrqEnable && self.registers.LYCCompare == line {
            self.display_irq.trigger_irq(Irq::Scanline { scanline_index: line as usize });
            proof {
                assert(irqs0 + raised.push(Irq::Scanline { scanline_index: line as usize }) =~= (irqs0
                    + raised).push(Irq::Scanline { scanline_index: line as usize }));
                raised = raised.push(Irq::Scanline { scanline_index: line as usize });
            }
        }
        if self.registers.LENDIrqEnable {
            self.display_irq.trigger_irq(Irq::Scanline { scanline_index: line as usize });
            proof {
                assert(irqs0 + raised.push(Irq::Scanline { scanline_index: line as usize }) =~= (irqs0
                    + raised).push(Irq::Scanline { scanline_index: line as usize }));
                raised = raised.push(Irq::Scanline { scanline_index: line as usize });
            }
        }
        let next = line + 1;
        if next > 239 {
            self.display_irq.trigger_irq(Irq::VSync);
            proof {
                assert(irqs0 + raised.push(Irq::VSync) =~= (irqs0 + raised).push(Irq::VSync));
                raised = raised.push(Irq::VSync);
            }
            self.scanline = 0;
        } else {
            self.scanline = next;
        }
        proof {
            assert(raised =~= line_end_irqs(regs0, line));
        }
    }
}

} // verus!

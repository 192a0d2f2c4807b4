use vstd::prelude::*;

use super::{pixel_events, Color, Display, DisplayEvent, DisplayIrq, Irq, DISPLAY_HEIGHT, DISPLAY_WIDTH};

verus! {

/// The color the debug core paints.
pub open spec fn magenta() -> Color {
    Color { r: 255, g: 0, b: 255 }
}

/// The calls one debug frame makes on the display: 320 x 240 magenta pixels, then the
/// frame is shown.
pub open spec fn debug_frame_display() -> Seq<DisplayEvent> {
    pixel_events(Seq::new(320 * 240, |i: int| magenta())).push(DisplayEvent::Show)
}

/// The interrupts of one debug frame: a scanline interrupt per line, then VSync.
pub open spec fn debug_frame_irqs() -> Seq<Irq> {
    Seq::new(240, |i: int| Irq::Scanline { scanline_index: i as usize }).push(Irq::VSync)
}

/// The most basic graphics core: it paints every frame magenta.
pub struct DebugGfxCore<D: Display, I: DisplayIrq> {
    display: D,
    irq: I,
}

impl<D: Display, I: DisplayIrq> DebugGfxCore<D, I> {
    /// Every call the display has received, in order.
    pub closed spec fn displayed(&self) -> Seq<DisplayEvent> {
        self.display.received()
    }

    /// Every interrupt the interrupt receiver has received, in order.
    pub closed spec fn raised(&self) -> Seq<Irq> {
        self.irq.received()
    }

    /// A debug core drawing into `display` and raising interrupts at `irq`.
    pub fn new(display: D, irq: I) -> (core: Self)
        ensures
            core.displayed() == display.received(),
            core.raised() == irq.received(),
    {
        DebugGfxCore { display, irq }
    }

    /// Draws one frame: 240 lines of 320 magenta pixels, a scanline interrupt after each
    /// line and VSync after the last, then hands the frame to the display to show.
    pub fn tick(&mut self)
        ensures
            final(self).displayed() == old(self).displayed() + debug_frame_display(),
            final(self).raised() == old(self).raised() + debug_frame_irqs(),
    {
        let ghost calls0 = self.display.received();
        let ghost irqs0 = self.irq.received();
        let mut line_index: usize = 0;
        while line_index < DISPLAY_HEIGHT
            invariant
                line_index <= 240,
                calls0 == old(self).display.received(),
                irqs0 == old(self).irq.received(),
                self.display.received() =~= calls0 + pixel_events(
                    Seq::new((line_index * 320) as nat, |i: int| magenta()),
                ),
                self.irq.received() =~= irqs0 + Seq::new(
                    line_index as nat,
                    |i: int| Irq::Scanline { scanline_index: i as usize },
                ),
            decreases 240 - line_index,
        {
            let mut x: usize = 0;
            while x < DISPLAY_WIDTH
                invariant
                    x <= 320,
                    line_index < 240,
                    calls0 == old(self).display.received(),
                    self.irq.received() =~= irqs0 + Seq::new(
                        line_index as nat,
                        |i: int| Irq::Scanline { scanline_index: i as usize },
                    ),
                    self.display.received() =~= calls0 + pixel_events(
                        Seq::new((line_index * 320 + x) as nat, |i: int| magenta()),
                    ),
                decreases 320 - x,
            {
                self.display.push_pixel(Color { r: 255, g: 0, b: 255 });
                x += 1;
            }
            self.irq.trigger_irq(Irq::Scanline { scanline_index: line_index });
            line_index += 1;
        }
        self.irq.trigger_irq(Irq::VSync);
        self.display.show_screen();
        proof {
            assert(self.irq.received() =~= irqs0 + debug_frame_irqs());
            assert(self.display.received() =~= calls0 + debug_frame_display());
        }
    }
}

} // verus!

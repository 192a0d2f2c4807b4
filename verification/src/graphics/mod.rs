use vstd::prelude::*;

pub mod debug_core;
pub mod framebuffer;
pub mod hires_core;
pub mod text;

verus! {

/// Width of the display in pixels.
pub const DISPLAY_WIDTH: usize = 320;

/// Height of the display in pixels (the number of scanlines of a frame).
pub const DISPLAY_HEIGHT: usize = 240;

/// A color as it is handed to a display.
#[derive(Clone, Copy, Debug, PartialEq, Eq, Structural)]
pub struct Color {
    pub r: u8,
    pub g: u8,
    pub b: u8,
}

/// The interrupts a graphics core raises.
#[derive(Clone, Copy, Debug, PartialEq, Eq, Structural)]
pub enum Irq {
    /// Raised when the core has finished drawing a scanline.
    Scanline { scanline_index: usize },
    /// Raised when the core has finished drawing a complete image.
    VSync,
    DmaComplete,
}

/// A call a display has received.
#[derive(Clone, Copy, Debug, PartialEq, Eq, Structural)]
pub enum DisplayEvent {
    /// `push_pixel` with this color.
    Pixel(Color),
    /// `reset_position`.
    Reset,
    /// `show_screen`.
    Show,
}

/// The calls a display has received, in order.
pub type DisplayLog = Seq<DisplayEvent>;

/// The interrupts a receiver has received, in order.
pub type IrqLog = Seq<Irq>;

/// A display that receives the pixels of a frame one by one, left to right and top to
/// bottom, and is told when to show the frame.
///
/// Implementations keep, as a spec function, the calls they have received; each method
/// promises to record its own call and nothing else. The graphics cores state what they
/// hand to a display over this record.
pub trait Display {
    /// Every call received so far, in order.
    spec fn received(&self) -> DisplayLog;

    fn push_pixel(&mut self, color: Color)
        ensures
            final(self).received() == old(self).received().push(DisplayEvent::Pixel(color)),
    ;

    fn reset_position(&mut self)
        ensures
            final(self).received() == old(self).received().push(DisplayEvent::Reset),
    ;

    fn show_screen(&mut self)
        ensures
            final(self).received() == old(self).received().push(DisplayEvent::Show),
    ;
}

/// The receiver of the interrupts a graphics core raises.
///
/// Implementations keep, as a spec function, the interrupts they have received;
/// `trigger_irq` promises to record its own call and nothing else.
pub trait DisplayIrq {
    /// Every interrupt received so far, in order.
    spec fn received(&self) -> IrqLog;

    fn trigger_irq(&mut self, irq_type: Irq)
        ensures
            final(self).received() == old(self).received().push(irq_type),
    ;
}

/// A graphics core that renders a frame scanline by scanline.
pub trait GfxCore {
    /// Whether the next call of `render_scanline` is defined on the current state.
    spec fn can_render_scanline(&self) -> bool;

    fn render_scanline(&mut self)
        requires
            old(self).can_render_scanline(),
    ;
}

/// The calls that hand `colors` to a display, in order.
pub open spec fn pixel_events(colors: Seq<Color>) -> Seq<DisplayEvent> {
    colors.map_values(|c: Color| DisplayEvent::Pixel(c))
}

/// The color the debug core paints and that the hires core treats as transparent.
pub open spec fn is_magenta(c: Color) -> bool {
    c.r == 255 && c.g == 0 && c.b == 255
}

/// The signal color of a pixel that no layer covers.
pub open spec fn green() -> Color {
    Color { r: 0, g: 255, b: 0 }
}

} // verus!

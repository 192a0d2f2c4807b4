use vstd::prelude::*;

use super::Color;

verus! {

/// Bytes of a frame of 320 x 240 pixels at 3 bytes (red, green, blue) per pixel.
pub const PIXEL_BUFFER_LEN: usize = 230400;

/// A frame being assembled from pixels pushed one by one, as a display keeps it before
/// it shows it.
pub struct PixelBuffer {
    pixel_index: usize,
    raw_buffer: Vec<u8>,
}

impl PixelBuffer {
    /// The bytes of the frame.
    pub closed spec fn bytes(&self) -> Seq<u8> {
        self.raw_buffer@
    }

    /// Where the next pixel goes, in bytes.
    pub closed spec fn position(&self) -> nat {
        self.pixel_index as nat
    }

    /// The buffer's internal invariant: it holds a whole frame.
    pub closed spec fn inv(&self) -> bool {
        self.raw_buffer@.len() == PIXEL_BUFFER_LEN
    }

    /// A black frame, filled from the start.
    pub fn new() -> (buffer: Self)
        ensures
            buffer.inv(),
            buffer.position() == 0,
            forall|i: int| 0 <= i < PIXEL_BUFFER_LEN ==> #[trigger] buffer.bytes()[i] == 0,
    {
        PixelBuffer { pixel_index: 0, raw_buffer: vec![0u8; 230400] }
    }

    /// Whether another pixel fits into the frame.
    pub fn has_room(&self) -> (r: bool)
        requires
            self.inv(),
        ensures
            r == (self.position() + 3 <= PIXEL_BUFFER_LEN),
    {
        self.pixel_index <= PIXEL_BUFFER_LEN - 3
    }

    /// Writes `color` at the current position and moves on by one pixel.
    pub fn push_pixel(&mut self, color: Color)
        requires
            old(self).inv(),
            old(self).position() + 3 <= PIXEL_BUFFER_LEN,
        ensures
            final(self).inv(),
            final(self).position() == old(self).position() + 3,
            final(self).bytes() == old(self).bytes().update(old(self).position() as int, color.r).update(
                old(self).position() + 1int,
                color.g,
            ).update(old(self).position() + 2int, color.b),
    {
        let pi = self.pixel_index;
        self.raw_buffer[pi] = color.r;
        self.raw_buffer[pi + 1] = color.g;
        self.raw_buffer[pi + 2] = color.b;
        self.pixel_index = pi + 3;
    }

    /// Starts the frame over from the first pixel; the bytes are kept.
    pub fn reset_position(&mut self)
        ensures
            final(self).inv() == old(self).inv(),
            final(self).position() == 0,
            final(self).bytes() == old(self).bytes(),
    {
        self.pixel_index = 0;
    }

    /// Read access to the bytes of the frame.
    pub fn frame(&self) -> (bytes: &Vec<u8>)
        ensures
            bytes@ == self.bytes(),
    {
        &self.raw_buffer
    }
}

} // verus!

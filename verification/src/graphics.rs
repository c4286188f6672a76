//! The RGB frame buffer the renderer interface fills: a fixed-size pixel
//! grid with three bytes per pixel.

use crate::bytes::zero_vec;
use vstd::prelude::*;

verus! {

/// Frame width in pixels.
pub const FRAME_WIDTH: usize = 256;

/// Frame height in pixels.
pub const FRAME_HEIGHT: usize = 240;

/// An RGB frame buffer, three bytes per pixel, rows stored top to bottom.
#[derive(Debug)]
pub struct Frame {
    pub data: Vec<u8>,
}

impl Frame {
    /// A black frame.
    pub fn new() -> (r: Frame)
        ensures
            r.data@.len() == FRAME_WIDTH * FRAME_HEIGHT * 3,
            r.data@ == Seq::new((FRAME_WIDTH * FRAME_HEIGHT * 3) as nat, |i: int| 0u8),
    {
        Frame { data: zero_vec(FRAME_WIDTH * FRAME_HEIGHT * 3) }
    }

    /// Set one pixel's three colour bytes; a position whose bytes would
    /// fall outside the buffer leaves the frame unchanged.
    pub fn set_pixel(&mut self, x: usize, y: usize, rgb: (u8, u8, u8))
        requires
            y * 3 * FRAME_WIDTH + x * 3 + 2 <= usize::MAX,
        ensures
            ({
                let base = y * 3 * FRAME_WIDTH + x * 3;
                if base + 2 < old(self).data@.len() {
                    final(self).data@ == old(self).data@.update(base as int, rgb.0).update(
                        base as int + 1,
                        rgb.1,
                    ).update(base as int + 2, rgb.2)
                } else {
                    final(self).data@ == old(self).data@
                }
            }),
    {
        let base = y * 3 * FRAME_WIDTH + x * 3;
        if base + 2 < self.data.len() {
            self.data.set(base, rgb.0);
            self.data.set(base + 1, rgb.1);
            self.data.set(base + 2, rgb.2);
        }
    }
}

} // verus!

//! The frame buffer: 160 x 144 pixels, four bytes (red, green, blue,
//! alpha) per pixel.
use vstd::prelude::*;

verus! {

/// Pixels in a frame.
pub const PX_TOTAL: usize = 160 * 144;
/// Bytes in a frame.
pub const RGBA_BUF_SIZE: usize = 160 * 144 * 4;

/// A frame of RGBA pixels.
#[derive(Clone, Copy)]
pub struct RgbaBuf {
    pub data: [u8; 92160],
}

impl RgbaBuf {
    /// A frame whose every byte is `v`.
    pub open spec fn filled(&self, v: u8) -> bool {
        forall|i: int| 0 <= i < 92160 ==> #[trigger] self.data[i] == v
    }

    /// A frame of zero bytes.
    pub(crate) fn new() -> (r: Self)
        ensures
            r.filled(0),
    {
        RgbaBuf { data: [0u8; 92160] }
    }

    /// Sets the red, green and blue bytes of pixel `i`; alpha is untouched.
    pub(crate) fn set_px(&mut self, i: u32, rgb: (u8, u8, u8))
        requires
            i < 160 * 144,
        ensures
            final(self).data@ == old(self).data@.update(4 * i, rgb.0).update(4 * i + 1, rgb.1).update(
                4 * i + 2,
                rgb.2,
            ),
    {
        let base = i as usize * 4;
        self.data[base] = rgb.0;
        self.data[base + 1] = rgb.1;
        self.data[base + 2] = rgb.2;
    }

    /// The frame's bytes.
    pub fn pixel_data(&self) -> (r: &[u8])
        ensures
            r@ == self.data@,
    {
        self.data.as_slice()
    }
}

} // verus!

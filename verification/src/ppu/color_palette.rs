//! CGB color palette RAM: 8 palettes of 4 colors, 15 bits per color,
//! accessed one byte at a time through an index register.
use vstd::prelude::*;

verus! {

/// Colors in palette RAM: 8 palettes of 4 colors.
pub const PAL_RAM_SIZE: usize = 0x20;
/// Color channels in palette RAM: three per color.
pub const PAL_RAM_SIZE_COLORS: usize = 0x60;

/// Palette RAM with its index register.
pub struct ColorPalette {
    /// Red, green and blue channels of each color, five bits each.
    pub col: [u8; 0x60],
    /// Byte index into palette RAM, between 0 and 0x3F.
    pub idx: u8,
    /// Whether the index moves to the next byte after each data write.
    pub inc: bool,
}

/// Widens a five-bit color channel to eight bits.
pub open spec fn spec_scale_channel(c: u8) -> u8 {
    (c << 3u8) | (c >> 2u8)
}

impl ColorPalette {
    /// The index stays within palette RAM and every channel is five bits wide.
    pub open spec fn wf(&self) -> bool {
        &&& self.idx <= 0x3F
        &&& forall|i: int| 0 <= i < 0x60 ==> #[trigger] self.col[i] <= 0x1F
    }

    /// What the index register reads.
    pub open spec fn spec_spec(&self) -> u8 {
        self.idx | 0x40 | ((if self.inc { 1u8 } else { 0u8 }) << 7u8)
    }

    /// What the data register reads: even bytes hold red and the low bits of
    /// green, odd bytes the high bits of green and blue.
    pub open spec fn spec_data(&self) -> u8 {
        let i = (self.idx as int / 2) * 3;
        if self.idx & 1 == 0 {
            self.col[i] | (self.col[i + 1] << 5u8)
        } else {
            (self.col[i + 1] >> 3u8) | (self.col[i + 2] << 2u8)
        }
    }

    /// What a write of `val` to the data register does: the addressed byte of
    /// the palette RAM changes (its color channels are split across two bytes)
    /// and the index moves on when auto-increment is set.
    pub open spec fn spec_data_written(self, next: ColorPalette, val: u8) -> bool {
        &&& next.inc == self.inc
        &&& next.idx == (if self.inc { ((self.idx + 1) as u8) & 0x3F } else { self.idx })
        &&& ({
            let i = (self.idx as int / 2) * 3;
            let c = self.col@;
            if self.idx & 1 == 0 {
                next.col@ == c.update(i, val & 0x1F).update(i + 1, ((c[i + 1] & 3) << 3u8) | ((val & 0xE0) >> 5u8))
            } else {
                next.col@ == c.update(i + 1, (c[i + 1] & 7) | ((val & 3) << 3u8)).update(i + 2, (val & 0x7C) >> 2u8)
            }
        })
    }

    /// What a write of `val` to the index register does.
    pub open spec fn spec_spec_written(self, next: ColorPalette, val: u8) -> bool {
        &&& next.idx == val & 0x3F
        &&& next.inc == (val & 0x80 != 0)
        &&& next.col == self.col
    }

    /// Black palettes, index 0, no auto-increment.
    pub(crate) fn new() -> (r: Self)
        ensures
            r.wf(),
            r.idx == 0 && !r.inc,
            forall|i: int| 0 <= i < 0x60 ==> #[trigger] r.col[i] == 0,
    {
        ColorPalette { col: [0u8; 0x60], idx: 0, inc: false }
    }

    /// Writes the index register: index in bits 0-5, auto-increment in bit 7.
    pub(crate) fn set_spec(&mut self, val: u8)
        requires
            old(self).wf(),
        ensures
            final(self).wf(),
            old(self).spec_spec_written(*final(self), val),
    {
        self.idx = val & 0x3F;
        self.inc = val & 0x80 != 0;
        proof { crate::bits::lemma_and_u8(val, 0x3F); }
    }

    /// Reads the index register.
    pub(crate) fn spec(&self) -> (r: u8)
        ensures
            r == self.spec_spec(),
    {
        self.idx | 0x40 | ((if self.inc { 1u8 } else { 0u8 }) << 7u8)
    }

    /// Reads the data register.
    pub(crate) fn data(&self) -> (r: u8)
        requires
            self.wf(),
        ensures
            r == self.spec_data(),
    {
        let i = (self.idx as usize / 2) * 3;
        if self.idx & 1 == 0 {
            let r = self.col[i];
            let g = self.col[i + 1] << 5u8;
            r | g
        } else {
            let g = self.col[i + 1] >> 3u8;
            let b = self.col[i + 2] << 2u8;
            g | b
        }
    }

    /// Writes the data register, then moves the index if auto-increment is on.
    pub(crate) fn set_data(&mut self, val: u8)
        requires
            old(self).wf(),
        ensures
            final(self).wf(),
            old(self).spec_data_written(*final(self), val),
    {
        let i = (self.idx as usize / 2) * 3;
        if self.idx & 1 == 0 {
            self.col[i] = val & 0x1F;
            let old_g = self.col[i + 1];
            let tmp = (old_g & 3) << 3u8;
            self.col[i + 1] = tmp | (val & 0xE0) >> 5u8;
            assert(val & 0x1F <= 0x1F && (((old_g & 3) << 3u8) | ((val & 0xE0) >> 5u8)) <= 0x1F) by (bit_vector);
        } else {
            let old_g = self.col[i + 1];
            let tmp = old_g & 7;
            self.col[i + 1] = tmp | (val & 3) << 3u8;
            self.col[i + 2] = (val & 0x7C) >> 2u8;
            assert(((old_g & 7) | ((val & 3) << 3u8)) <= 0x1F && (val & 0x7C) >> 2u8 <= 0x1F) by (bit_vector);
        }
        if self.inc {
            let n = self.idx + 1;
            proof { crate::bits::lemma_and_u8(n, 0x3F); }
            self.idx = n & 0x3F;
        }
    }

    /// The 24-bit color `color` of palette `palette`.
    pub(crate) fn rgb(&self, palette: u8, color: u8) -> (r: (u8, u8, u8))
        requires
            self.wf(),
            palette < 8,
            color < 4,
        ensures
            ({
                let i = (palette * 4 + color) * 3;
                r == (spec_scale_channel(self.col[i]), spec_scale_channel(self.col[i + 1]),
                    spec_scale_channel(self.col[i + 2]))
            }),
    {
        let i = (palette as usize * 4 + color as usize) * 3;
        let r = self.col[i];
        let g = self.col[i + 1];
        let b = self.col[i + 2];
        (scale_channel(r), scale_channel(g), scale_channel(b))
    }
}

/// Widens a five-bit color channel to eight bits.
fn scale_channel(c: u8) -> (r: u8)
    ensures
        r == spec_scale_channel(c),
{
    (c << 3u8) | (c >> 2u8)
}

/// With auto-increment off, reading the data register gives back the byte
/// just written, except bit 7 of odd bytes, which does not exist.
pub proof fn law_palette_read_after_write(p: ColorPalette, q: ColorPalette, val: u8)
    requires
        p.wf(),
        !p.inc,
        p.spec_data_written(q, val),
    ensures
        q.spec_data() == (if p.idx & 1 == 0 { val } else { val & 0x7F }),
        q.spec_spec() == p.spec_spec(),
{
    let i = (p.idx as int / 2) * 3;
    let g = p.col[i + 1];
    if p.idx & 1 == 0 {
        assert(q.col[i] == val & 0x1F);
        assert(q.col[i + 1] == ((g & 3) << 3u8) | ((val & 0xE0) >> 5u8));
        assert((val & 0x1F) | ((((g & 3) << 3u8) | ((val & 0xE0) >> 5u8)) << 5u8) == val) by (bit_vector);
    } else {
        assert(q.col[i + 1] == (g & 7) | ((val & 3) << 3u8));
        assert(q.col[i + 2] == (val & 0x7C) >> 2u8);
        assert((((g & 7) | ((val & 3) << 3u8)) >> 3u8) | (((val & 0x7C) >> 2u8) << 2u8) == val & 0x7F) by (bit_vector)
            requires g <= 0x1F;
    }
}

} // verus!

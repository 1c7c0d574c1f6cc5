//! Pixel processing unit: LCD registers, video RAM, object attribute memory
//! and the scanline state machine.
use vstd::prelude::*;
use color_palette::ColorPalette;
use rgba_buf::RgbaBuf;

pub mod color_palette;
mod draw;
pub mod machine;
pub mod rgba_buf;

verus! {

/// Screen width in pixels.
pub const PX_WIDTH: u8 = 160;
/// Screen height in pixels.
pub const PX_HEIGHT: u8 = 144;

/// Length of mode 2 in t-cycles.
pub const OAM_SCAN_CYCLES: i32 = 80;
/// Minimum length of mode 3 in t-cycles.
pub const DRAWING_CYCLES: i32 = 172;
/// Maximum length of mode 0 in t-cycles.
pub const HBLANK_CYCLES: i32 = 204;
/// Length of one line of mode 1 in t-cycles.
pub const VBLANK_CYCLES: i32 = 456;

/// LCDC: background enable (priority on CGB).
pub const LCDC_BG_B: u8 = 1;
/// LCDC: objects enable.
pub const LCDC_OBJ_B: u8 = 2;
/// LCDC: 8x16 objects.
pub const LCDC_OBJL_B: u8 = 4;
/// LCDC: background tile map area.
pub const LCDC_BG_AREA: u8 = 8;
/// LCDC: tile data addressing (0: signed from 0x9000).
pub const LCDC_BG_SIGNED: u8 = 0x10;
/// LCDC: window enable.
pub const LCDC_WIN_B: u8 = 0x20;
/// LCDC: window tile map area.
pub const LCDC_WIN_AREA: u8 = 0x40;
/// LCDC: display enable.
pub const LCDC_ON_B: u8 = 0x80;

/// STAT: mode bits.
pub const STAT_MODE_B: u8 = 3;
/// STAT: LY == LYC flag.
pub const STAT_LYC_B: u8 = 4;
/// STAT: interrupt on H-blank.
pub const STAT_IF_HBLANK_B: u8 = 8;
/// STAT: interrupt on V-blank.
pub const STAT_IF_VBLANK_B: u8 = 0x10;
/// STAT: interrupt on OAM scan.
pub const STAT_IF_OAM_B: u8 = 0x20;
/// STAT: interrupt on LY == LYC.
pub const STAT_IF_LYC_B: u8 = 0x40;

/// IF: V-blank interrupt bit.
pub const IF_VBLANK_B: u8 = 1;
/// IF: LCD status interrupt bit.
pub const IF_LCD_B: u8 = 2;

/// Bytes of object attribute memory.
pub const OAM_SIZE: u16 = 0x100;
/// Bytes of one video RAM bank.
pub const VRAM_SIZE: u16 = 0x2000;
/// Bytes of video RAM on CGB (two banks).
pub const VRAM_SIZE_CGB: u16 = 0x4000;

/// PPU mode, as held in the low two bits of STAT.
#[derive(PartialEq, Eq, Clone, Copy, Structural, Debug)]
pub enum Mode {
    HBlank,
    VBlank,
    OamScan,
    Drawing,
}

/// The mode that the low two bits of `stat` select.
pub open spec fn spec_mode_of(stat: u8) -> Mode {
    if stat & 3 == 0 {
        Mode::HBlank
    } else if stat & 3 == 1 {
        Mode::VBlank
    } else if stat & 3 == 2 {
        Mode::OamScan
    } else {
        Mode::Drawing
    }
}

/// The number of the mode that `stat` selects is its low two bits.
pub proof fn lemma_mode_bits(stat: u8)
    ensures
        spec_mode_of(stat).spec_bits() == stat & 3,
{
    crate::bits::lemma_and_u8(stat, 3);
}

impl Mode {
    /// The mode's number in STAT.
    pub open spec fn spec_bits(self) -> u8 {
        match self {
            Mode::HBlank => 0u8,
            Mode::VBlank => 1u8,
            Mode::OamScan => 2u8,
            Mode::Drawing => 3u8,
        }
    }

    /// Length of the mode in t-cycles; the fine horizontal scroll
    /// lengthens drawing and shortens H-blank by 4 cycles per pixel.
    pub open spec fn spec_cycles(self, scroll_x: u8) -> i32 {
        let adjust = (scroll_x & 7) * 4;
        match self {
            Mode::OamScan => OAM_SCAN_CYCLES,
            Mode::Drawing => (DRAWING_CYCLES + adjust) as i32,
            Mode::HBlank => (HBLANK_CYCLES - adjust) as i32,
            Mode::VBlank => VBLANK_CYCLES,
        }
    }

    pub(crate) fn to_u8(self) -> (r: u8)
        ensures
            r == self.spec_bits(),
    {
        match self {
            Mode::HBlank => 0,
            Mode::VBlank => 1,
            Mode::OamScan => 2,
            Mode::Drawing => 3,
        }
    }

    /// Length of the mode in t-cycles for horizontal scroll `scroll_x`.
    pub fn cycles(self, scroll_x: u8) -> (r: i32)
        ensures
            r == self.spec_cycles(scroll_x),
            28 <= r <= 456,
    {
        let scroll_adjust = (scroll_x & 7) as i32 * 4;
        proof { crate::bits::lemma_and_u8(scroll_x, 7); }
        match self {
            Self::OamScan => OAM_SCAN_CYCLES,
            Self::Drawing => DRAWING_CYCLES + scroll_adjust,
            Self::HBlank => HBLANK_CYCLES - scroll_adjust,
            Self::VBlank => VBLANK_CYCLES,
        }
    }
}

/// A visible line lasts 456 t-cycles whatever the horizontal scroll: what
/// the scroll adds to drawing it takes from H-blank. A V-blank line lasts as
/// long.
pub proof fn law_line_lasts_456_cycles(scroll_x: u8)
    ensures
        Mode::OamScan.spec_cycles(scroll_x) + Mode::Drawing.spec_cycles(scroll_x) + Mode::HBlank.spec_cycles(
            scroll_x,
        ) == 456,
        Mode::VBlank.spec_cycles(scroll_x) == 456,
{
    crate::bits::lemma_and_u8(scroll_x, 7);
}

/// The pixel processing unit.
pub struct Ppu {
    pub lcdc: u8,
    pub stat: u8,
    pub scy: u8,
    pub scx: u8,
    pub ly: u8,
    pub lyc: u8,
    pub bgp: u8,
    pub obp0: u8,
    pub obp1: u8,
    pub wy: u8,
    pub wx: u8,
    pub opri: u8,
    pub vbk: bool,
    pub bcp: ColorPalette,
    pub ocp: ColorPalette,
    pub vram: [u8; 0x4000],
    pub oam: [u8; 0x100],
    pub rgb_buf: RgbaBuf,
    pub rgba_buf_present: RgbaBuf,
    pub ppu_cycles: i32,
    pub ppu_win_in_frame: bool,
    pub ppu_win_in_ly: bool,
    pub ppu_win_skipped: u8,
}

impl Ppu {
    /// Palettes are sound, and visible lines are only ever below line 144
    /// outside V-blank.
    pub open spec fn wf(&self) -> bool {
        &&& self.wf_regs()
        &&& spec_mode_of(self.stat) != Mode::VBlank ==> self.ly < 144
    }

    /// Palettes are sound and LY is a line number.
    pub open spec fn wf_regs(&self) -> bool {
        &&& self.bcp.wf()
        &&& self.ocp.wf()
        &&& self.ly <= 153
    }

    /// The current mode.
    pub open spec fn mode(&self) -> Mode {
        spec_mode_of(self.stat)
    }

    /// Index into video RAM for address `addr` in the selected bank.
    pub open spec fn vram_index(&self, addr: u16) -> int {
        (addr & 0x1FFF) + (if self.vbk { 0x2000int } else { 0int })
    }

    /// Power-on state: display off, OAM scan pending.
    /// The state at power-on: display off, every register and memory
    /// cleared, OAM scan of line 0 about to begin.
    pub open spec fn spec_power_on(&self) -> bool {
        &&& self.lcdc == 0 && self.stat == STAT_LYC_B | 2 && self.ly == 0
        &&& self.ppu_cycles == OAM_SCAN_CYCLES
        &&& self.scy == 0 && self.scx == 0 && self.lyc == 0
        &&& self.bgp == 0 && self.obp0 == 0 && self.obp1 == 0
        &&& self.wy == 0 && self.wx == 0 && self.opri == 0 && !self.vbk
        &&& self.bcp.idx == 0 && !self.bcp.inc && self.ocp.idx == 0 && !self.ocp.inc
        &&& forall|i: int| 0 <= i < 0x60 ==> #[trigger] self.bcp.col[i] == 0 && self.ocp.col[i] == 0
        &&& forall|i: int| 0 <= i < 0x4000 ==> #[trigger] self.vram[i] == 0
        &&& forall|i: int| 0 <= i < 0x100 ==> #[trigger] self.oam[i] == 0
        &&& self.rgb_buf.filled(0) && self.rgba_buf_present.filled(0)
        &&& !self.ppu_win_in_frame && !self.ppu_win_in_ly && self.ppu_win_skipped == 0
    }

    pub(crate) fn new() -> (r: Self)
        ensures
            r.wf(),
            r.spec_power_on(),
    {
        Ppu {
            vram: [0u8; 0x4000],
            oam: [0u8; 0x100],
            ppu_cycles: Mode::OamScan.cycles(0),
            lcdc: 0,
            stat: STAT_LYC_B | Mode::OamScan.to_u8(),
            scy: 0,
            scx: 0,
            ly: 0,
            lyc: 0,
            bgp: 0,
            obp0: 0,
            obp1: 0,
            wy: 0,
            wx: 0,
            opri: 0,
            vbk: false,
            bcp: ColorPalette::new(),
            ocp: ColorPalette::new(),
            rgb_buf: RgbaBuf::new(),
            rgba_buf_present: RgbaBuf::new(),
            ppu_win_in_frame: false,
            ppu_win_in_ly: false,
            ppu_win_skipped: 0,
        }
    }

    /// Object palette RAM.
    pub(crate) fn ocp_mut(&mut self) -> (r: &mut ColorPalette)
        ensures
            *r == old(self).ocp,
            *final(self) == (Ppu { ocp: *final(r), ..*old(self) }),
    {
        &mut self.ocp
    }

    /// Background palette RAM.
    pub(crate) fn bcp_mut(&mut self) -> (r: &mut ColorPalette)
        ensures
            *r == old(self).bcp,
            *final(self) == (Ppu { bcp: *final(r), ..*old(self) }),
    {
        &mut self.bcp
    }

    pub(crate) fn ocp(&self) -> (r: &ColorPalette)
        ensures
            *r == self.ocp,
    {
        &self.ocp
    }

    pub(crate) fn bcp(&self) -> (r: &ColorPalette)
        ensures
            *r == self.bcp,
    {
        &self.bcp
    }

    /// Reads STAT; bit 7 reads as 1.
    pub(crate) fn read_stat(&self) -> (r: u8)
        ensures
            r == self.stat | 0x80,
    {
        self.stat | 0x80
    }

    pub(crate) fn read_ly(&self) -> (r: u8)
        ensures
            r == self.ly,
    {
        self.ly
    }

    pub(crate) fn write_opri(&mut self, val: u8)
        ensures
            *final(self) == (Ppu { opri: val, ..*old(self) }),
    {
        self.opri = val;
    }

    pub(crate) fn read_opri(&self) -> (r: u8)
        ensures
            r == self.opri,
    {
        self.opri
    }

    /// Writes VBK: bit 0 selects the video RAM bank.
    pub(crate) fn write_vbk(&mut self, val: u8)
        ensures
            *final(self) == (Ppu { vbk: val & 1 != 0, ..*old(self) }),
    {
        self.vbk = val & 1 != 0;
    }

    /// Reads VBK; unused bits read as 1.
    pub(crate) fn read_vbk(&self) -> (r: u8)
        ensures
            r == (if self.vbk { 1u8 } else { 0u8 }) | 0xFE,
    {
        (if self.vbk { 1u8 } else { 0u8 }) | 0xFE
    }

    pub(crate) fn write_scx(&mut self, val: u8)
        ensures
            *final(self) == (Ppu { scx: val, ..*old(self) }),
    {
        self.scx = val;
    }

    pub(crate) fn read_scx(&self) -> (r: u8)
        ensures
            r == self.scx,
    {
        self.scx
    }

    pub(crate) fn write_scy(&mut self, val: u8)
        ensures
            *final(self) == (Ppu { scy: val, ..*old(self) }),
    {
        self.scy = val;
    }

    pub(crate) fn read_scy(&self) -> (r: u8)
        ensures
            r == self.scy,
    {
        self.scy
    }

    pub(crate) fn write_lyc(&mut self, val: u8)
        ensures
            *final(self) == (Ppu { lyc: val, ..*old(self) }),
    {
        self.lyc = val;
    }

    pub(crate) fn read_lyc(&self) -> (r: u8)
        ensures
            r == self.lyc,
    {
        self.lyc
    }

    pub(crate) fn write_bgp(&mut self, val: u8)
        ensures
            *final(self) == (Ppu { bgp: val, ..*old(self) }),
    {
        self.bgp = val;
    }

    pub(crate) fn read_bgp(&self) -> (r: u8)
        ensures
            r == self.bgp,
    {
        self.bgp
    }

    pub(crate) fn write_obp0(&mut self, val: u8)
        ensures
            *final(self) == (Ppu { obp0: val, ..*old(self) }),
    {
        self.obp0 = val;
    }

    pub(crate) fn read_obp0(&self) -> (r: u8)
        ensures
            r == self.obp0,
    {
        self.obp0
    }

    pub(crate) fn write_obp1(&mut self, val: u8)
        ensures
            *final(self) == (Ppu { obp1: val, ..*old(self) }),
    {
        self.obp1 = val;
    }

    pub(crate) fn read_obp1(&self) -> (r: u8)
        ensures
            r == self.obp1,
    {
        self.obp1
    }

    pub(crate) fn write_wy(&mut self, val: u8)
        ensures
            *final(self) == (Ppu { wy: val, ..*old(self) }),
    {
        self.wy = val;
    }

    pub(crate) fn read_wy(&self) -> (r: u8)
        ensures
            r == self.wy,
    {
        self.wy
    }

    pub(crate) fn write_wx(&mut self, val: u8)
        ensures
            *final(self) == (Ppu { wx: val, ..*old(self) }),
    {
        self.wx = val;
    }

    pub(crate) fn read_wx(&self) -> (r: u8)
        ensures
            r == self.wx,
    {
        self.wx
    }

    pub(crate) fn read_lcdc(&self) -> (r: u8)
        ensures
            r == self.lcdc,
    {
        self.lcdc
    }

    /// The current mode.
    pub(crate) fn ppu_mode(&self) -> (r: Mode)
        ensures
            r == self.mode(),
    {
        let m = self.stat & 3;
        if m == 0 {
            Mode::HBlank
        } else if m == 1 {
            Mode::VBlank
        } else if m == 2 {
            Mode::OamScan
        } else {
            Mode::Drawing
        }
    }

    /// Writes STAT: the mode bits and the LY == LYC flag are read-only.
    pub(crate) fn write_stat(&mut self, val: u8)
        requires
            old(self).wf(),
        ensures
            final(self).wf(),
            *final(self) == (Ppu {
                stat: (val & !(STAT_LYC_B | STAT_MODE_B)) | (old(self).stat & STAT_LYC_B) | old(
                    self,
                ).mode().spec_bits(),
                ..*old(self)
            }),
    {
        let ly_equals_lyc = self.stat & STAT_LYC_B;
        let mode: u8 = self.ppu_mode().to_u8();
        let ghost os = self.stat;
        proof {
            lemma_mode_bits(os);
        }
        let ns = (val & !(STAT_LYC_B | STAT_MODE_B)) | ly_equals_lyc | mode;
        assert(ns & 3 == os & 3) by (bit_vector)
            requires ns == (val & !(4u8 | 3u8)) | (os & 4u8) | mode, mode == os & 3;
        self.stat = ns;
    }

    /// Reads video RAM in the selected bank; reads 0xFF while the PPU draws.
    pub(crate) fn read_vram(&self, addr: u16) -> (r: u8)
        ensures
            r == (if self.mode() == Mode::Drawing { 0xFFu8 } else { self.vram[self.vram_index(addr)] }),
    {
        if self.ppu_mode() == Mode::Drawing {
            0xFF
        } else {
            let bank: u16 = if self.vbk { VRAM_SIZE } else { 0 };
            proof { crate::bits::lemma_and_u16(addr, 0x1FFF); }
            let i = (addr & 0x1FFF) + bank;
            self.vram[i as usize]
        }
    }

    /// Writes video RAM in the selected bank; ignored while the PPU draws.
    pub(crate) fn write_vram(&mut self, addr: u16, val: u8)
        ensures
            *final(self) == (Ppu {
                vram: if old(self).mode() == Mode::Drawing {
                    old(self).vram
                } else {
                    final(self).vram
                },
                ..*old(self)
            }),
            old(self).mode() != Mode::Drawing ==> final(self).vram@ == old(self).vram@.update(
                old(self).vram_index(addr),
                val,
            ),
    {
        if self.ppu_mode() != Mode::Drawing {
            let bank: u16 = if self.vbk { VRAM_SIZE } else { 0 };
            proof { crate::bits::lemma_and_u16(addr, 0x1FFF); }
            let i = (addr & 0x1FFF) + bank;
            self.vram[i as usize] = val;
        }
    }

    /// Reads object attribute memory; reads 0xFF outside H-blank and
    /// V-blank, and during OAM DMA.
    pub(crate) fn read_oam(&self, addr: u16, dma_on: bool) -> (r: u8)
        ensures
            r == (if (self.mode() == Mode::HBlank || self.mode() == Mode::VBlank) && !dma_on {
                self.oam[(addr & 0xFF) as int]
            } else {
                0xFFu8
            }),
    {
        let m = self.ppu_mode();
        if (m == Mode::HBlank || m == Mode::VBlank) && !dma_on {
            proof { crate::bits::lemma_and_u16(addr, 0xFF); }
            self.oam[(addr & 0xFF) as usize]
        } else {
            0xFF
        }
    }

    /// Writes object attribute memory; ignored outside H-blank and V-blank
    /// and during OAM DMA.
    pub(crate) fn write_oam(&mut self, addr: u16, val: u8, dma_active: bool)
        ensures
            *final(self) == (Ppu { oam: final(self).oam, ..*old(self) }),
            final(self).oam@ == (if (old(self).mode() == Mode::HBlank || old(self).mode()
                == Mode::VBlank) && !dma_active {
                old(self).oam@.update((addr & 0xFF) as int, val)
            } else {
                old(self).oam@
            }),
    {
        let m = self.ppu_mode();
        if (m == Mode::HBlank || m == Mode::VBlank) && !dma_active {
            proof { crate::bits::lemma_and_u16(addr, 0xFF); }
            self.oam[(addr & 0xFF) as usize] = val;
        }
    }

    /// Writes object attribute memory regardless of mode (OAM DMA).
    pub(crate) fn write_oam_direct(&mut self, addr: u16, val: u8)
        ensures
            *final(self) == (Ppu { oam: final(self).oam, ..*old(self) }),
            final(self).oam@ == old(self).oam@.update((addr & 0xFF) as int, val),
    {
        proof { crate::bits::lemma_and_u16(addr, 0xFF); }
        self.oam[(addr & 0xFF) as usize] = val;
    }

    /// The last complete frame.
    pub(crate) fn pixel_data_rgb(&self) -> (r: &[u8])
        ensures
            r@ == self.rgba_buf_present.data@,
    {
        self.rgba_buf_present.pixel_data()
    }
}

} // verus!

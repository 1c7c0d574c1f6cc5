//! The scanline state machine: OAM scan, drawing, H-blank, V-blank.
use vstd::prelude::*;
use super::{Mode, Ppu, spec_mode_of, IF_LCD_B, IF_VBLANK_B, LCDC_ON_B, OAM_SCAN_CYCLES, STAT_IF_HBLANK_B, STAT_IF_LYC_B, STAT_IF_OAM_B, STAT_IF_VBLANK_B, STAT_LYC_B, STAT_MODE_B, VBLANK_CYCLES};
use crate::CompatMode;
use super::draw::{same_outside, spec_px};

verus! {

/// STAT with the LY == LYC flag recomputed.
pub open spec fn spec_lyc_stat(stat: u8, ly: u8, lyc: u8) -> u8 {
    if ly == lyc { (stat & !STAT_LYC_B) | STAT_LYC_B } else { stat & !STAT_LYC_B }
}

/// IF after the LY == LYC check: the LCD interrupt is requested on a match
/// when STAT enables it.
pub open spec fn spec_lyc_ifr(ifr: u8, stat: u8, ly: u8, lyc: u8) -> u8 {
    if ly == lyc && stat & STAT_IF_LYC_B != 0 { ifr | IF_LCD_B } else { ifr }
}

/// IF after entering `mode` with STAT `stat`.
pub open spec fn spec_mode_ifr(ifr: u8, stat: u8, mode: Mode) -> u8 {
    match mode {
        Mode::OamScan => if stat & STAT_IF_OAM_B != 0 { ifr | IF_LCD_B } else { ifr },
        Mode::VBlank => if stat & STAT_IF_VBLANK_B != 0 {
            ifr | IF_VBLANK_B | IF_LCD_B
        } else {
            ifr | IF_VBLANK_B
        },
        Mode::Drawing => ifr,
        Mode::HBlank => if stat & STAT_IF_HBLANK_B != 0 { ifr | IF_LCD_B } else { ifr },
    }
}

/// STAT with its mode bits set to `mode`.
pub open spec fn spec_stat_with_mode(stat: u8, mode: Mode) -> u8 {
    (stat & !STAT_MODE_B) | mode.spec_bits()
}

proof fn lemma_stat_with_mode(stat: u8, mode: Mode)
    ensures
        spec_mode_of(spec_stat_with_mode(stat, mode)) == mode,
        spec_stat_with_mode(stat, mode) & !STAT_MODE_B == stat & !STAT_MODE_B,
{
    let b = mode.spec_bits();
    let n = (stat & !3u8) | b;
    assert(b <= 3 ==> n & 3 == b && n & !3u8 == stat & !3u8) by (bit_vector)
        requires n == (stat & !3u8) | b;
}

proof fn lemma_lyc_stat_mode(stat: u8, ly: u8, lyc: u8)
    ensures
        spec_lyc_stat(stat, ly, lyc) & 3 == stat & 3,
        spec_lyc_stat(stat, ly, lyc) & STAT_IF_LYC_B == stat & STAT_IF_LYC_B,
{
    assert(((stat & !4u8) | 4u8) & 3 == stat & 3 && (stat & !4u8) & 3 == stat & 3 && ((stat & !4u8) | 4u8) & 0x40
        == stat & 0x40 && (stat & !4u8) & 0x40 == stat & 0x40) by (bit_vector);
}

impl Ppu {
    /// Recomputes the LY == LYC flag and requests the LCD interrupt on a match.
    pub(crate) fn check_lyc(&mut self, ifr: &mut u8)
        requires
            old(self).wf(),
        ensures
            final(self).wf(),
            *final(self) == (Ppu { stat: spec_lyc_stat(old(self).stat, old(self).ly, old(self).lyc), ..*old(self) }),
            *final(ifr) == spec_lyc_ifr(*old(ifr), old(self).stat, old(self).ly, old(self).lyc),
            final(self).mode() == old(self).mode(),
    {
        proof {
            lemma_lyc_stat_mode(self.stat, self.ly, self.lyc);
        }
        self.stat &= !STAT_LYC_B;
        if self.ly == self.lyc {
            self.stat |= STAT_LYC_B;
            if self.stat & STAT_IF_LYC_B != 0 {
                *ifr |= IF_LCD_B;
            }
        }
        proof {
            let s = old(self).stat;
            assert(((s & !4u8) | 4u8) & 0x40 == s & 0x40) by (bit_vector);
        }
    }

    /// Sets the mode bits of STAT.
    pub(crate) fn set_mode_stat(&mut self, mode: Mode)
        ensures
            *final(self) == (Ppu { stat: spec_stat_with_mode(old(self).stat, mode), ..*old(self) }),
            final(self).mode() == mode,
    {
        proof {
            lemma_stat_with_mode(self.stat, mode);
        }
        self.stat = (self.stat & !STAT_MODE_B) | mode.to_u8();
    }

    /// Enters `mode`: the mode's length is added to the cycle counter and
    /// the interrupts that STAT enables for it are requested.
    pub(crate) fn enter_mode(&mut self, mode: Mode, ifr: &mut u8)
        requires
            old(self).wf_regs(),
            mode != Mode::VBlank ==> old(self).ly < 144,
        ensures
            final(self).wf(),
            final(self).mode() == mode,
            final(self).stat == spec_stat_with_mode(old(self).stat, mode),
            final(self).ppu_cycles == old(self).ppu_cycles.wrapping_add(mode.spec_cycles(old(self).scx)),
            *final(ifr) == spec_mode_ifr(*old(ifr), old(self).stat, mode),
            final(self).ppu_win_in_ly == (if mode == Mode::OamScan { false } else { old(self).ppu_win_in_ly }),
            final(self).ppu_win_skipped == (if mode == Mode::VBlank { 0 } else { old(self).ppu_win_skipped }),
            final(self).ppu_win_in_frame == (if mode == Mode::VBlank { false } else { old(self).ppu_win_in_frame }),
            *final(self) == (Ppu {
                stat: final(self).stat,
                ppu_cycles: final(self).ppu_cycles,
                ppu_win_in_ly: final(self).ppu_win_in_ly,
                ppu_win_skipped: final(self).ppu_win_skipped,
                ppu_win_in_frame: final(self).ppu_win_in_frame,
                ..*old(self)
            }),
    {
        let ghost s0 = self.stat;
        proof {
            lemma_stat_with_mode(s0, mode);
            let b = mode.spec_bits();
            assert(b <= 3 ==> ((s0 & !3u8) | b) & 0x20 == s0 & 0x20 && ((s0 & !3u8) | b) & 0x10
                == s0 & 0x10 && ((s0 & !3u8) | b) & 8 == s0 & 8) by (bit_vector);
        }
        self.set_mode_stat(mode);
        self.ppu_cycles = self.ppu_cycles.wrapping_add(mode.cycles(self.scx));
        match mode {
            Mode::OamScan => {
                if self.stat & STAT_IF_OAM_B != 0 {
                    *ifr |= IF_LCD_B;
                }
                self.ppu_win_in_ly = false;
            },
            Mode::VBlank => {
                *ifr |= IF_VBLANK_B;
                if self.stat & STAT_IF_VBLANK_B != 0 {
                    *ifr |= IF_LCD_B;
                }
                self.ppu_win_skipped = 0;
                self.ppu_win_in_frame = false;
            },
            Mode::Drawing => {},
            Mode::HBlank => {
                if self.stat & STAT_IF_HBLANK_B != 0 {
                    *ifr |= IF_LCD_B;
                }
            },
        }
    }

    /// Writes LCDC. Turning the display off resets LY; turning it on
    /// restarts at line 0 in OAM scan.
    pub(crate) fn write_lcdc(&mut self, val: u8, ifr: &mut u8)
        requires
            old(self).wf(),
        ensures
            final(self).wf(),
            final(self).lcdc == val,
            ({
                let turn_off = val & LCDC_ON_B == 0 && old(self).lcdc & LCDC_ON_B != 0;
                let turn_on = val & LCDC_ON_B != 0 && old(self).lcdc & LCDC_ON_B == 0;
                let st = spec_stat_with_mode(old(self).stat, Mode::OamScan);
                &&& turn_on ==> final(self).ly == 0 && final(self).stat == spec_lyc_stat(st, 0, old(self).lyc)
                    && final(self).ppu_cycles == OAM_SCAN_CYCLES
                    && *final(ifr) == spec_lyc_ifr(*old(ifr), st, 0, old(self).lyc)
                &&& turn_off ==> final(self).ly == 0 && final(self).stat == old(self).stat
                    && final(self).ppu_cycles == old(self).ppu_cycles && *final(ifr) == *old(ifr)
                &&& !turn_on && !turn_off ==> final(self).ly == old(self).ly && final(self).stat == old(self).stat
                    && final(self).ppu_cycles == old(self).ppu_cycles && *final(ifr) == *old(ifr)
            }),
            *final(self) == (Ppu {
                lcdc: final(self).lcdc,
                ly: final(self).ly,
                stat: final(self).stat,
                ppu_cycles: final(self).ppu_cycles,
                ..*old(self)
            }),
    {
        if val & LCDC_ON_B == 0 && self.lcdc & LCDC_ON_B != 0 {
            self.ly = 0;
        }
        if val & LCDC_ON_B != 0 && self.lcdc & LCDC_ON_B == 0 {
            self.set_mode_stat(Mode::OamScan);
            self.ppu_cycles = Mode::OamScan.cycles(self.scx);
            self.ly = 0;
            self.check_lyc(ifr);
        }
        self.lcdc = val;
    }

    /// What running the display unit for `cycles` t-cycles does (`self` and
    /// IF before, `next` and `next_ifr` after).
    #[verifier::opaque]
    pub open spec fn spec_ran(self, next: Ppu, cycles: i32, compat_mode: CompatMode, ifr: u8, next_ifr: u8) -> bool {
        &&& self.lcdc & LCDC_ON_B == 0 ==> next == self && next_ifr == ifr
        &&& ({
            let p = self.ppu_cycles.wrapping_sub(cycles);
            let m = self.mode();
            self.lcdc & LCDC_ON_B != 0 ==> {
                &&& p >= 0 ==> next == (Ppu { ppu_cycles: p, ..self }) && next_ifr == ifr
                &&& p < 0 && m == Mode::OamScan ==> next.mode() == Mode::Drawing
                    && next.ly == self.ly
                    && next.ppu_cycles == p.wrapping_add(Mode::Drawing.spec_cycles(self.scx))
                    && next.stat == spec_stat_with_mode(self.stat, Mode::Drawing)
                    && next_ifr == ifr
                    && next.rgb_buf == self.rgb_buf
                &&& p < 0 && m == Mode::Drawing ==> next.mode() == Mode::HBlank
                    && next.ly == self.ly
                    && next.ppu_cycles == p.wrapping_add(Mode::HBlank.spec_cycles(self.scx))
                    && next.stat == spec_stat_with_mode(self.stat, Mode::HBlank)
                    && next_ifr == spec_mode_ifr(ifr, self.stat, Mode::HBlank)
                    && same_outside(next.rgb_buf.data@, self.rgb_buf.data@, 160 * self.ly, 160)
                    && forall|i: int| 0 <= i < 160 ==> #[trigger] spec_px(next.rgb_buf.data@, 160 * self.ly + i)
                        == self.spec_line_px(compat_mode, i, spec_px(self.rgb_buf.data@, 160 * self.ly + i))
                &&& p < 0 && m == Mode::HBlank ==> {
                    let ly1 = (self.ly + 1) as u8;
                    let nm = if self.ly + 1 < 144 { Mode::OamScan } else { Mode::VBlank };
                    let st = spec_stat_with_mode(self.stat, nm);
                    &&& next.ly == self.ly + 1
                    &&& next.mode() == nm
                    &&& next.rgb_buf == self.rgb_buf
                    &&& next.ppu_cycles == p.wrapping_add(nm.spec_cycles(self.scx))
                    &&& next.stat == spec_lyc_stat(st, ly1, self.lyc)
                    &&& next_ifr == spec_lyc_ifr(spec_mode_ifr(ifr, self.stat, nm), st, ly1, self.lyc)
                }
                &&& p < 0 && m == Mode::VBlank && self.ly + 1 > 153 ==> {
                    let st = spec_stat_with_mode(self.stat, Mode::OamScan);
                    &&& next.ly == 0
                    &&& next.mode() == Mode::OamScan
                    &&& next.rgba_buf_present == self.rgb_buf
                    &&& next.ppu_cycles == p.wrapping_add(Mode::OamScan.spec_cycles(self.scx))
                    &&& next.stat == spec_lyc_stat(st, 0, self.lyc)
                    &&& next_ifr == spec_lyc_ifr(spec_mode_ifr(ifr, self.stat, Mode::OamScan), st, 0, self.lyc)
                }
                &&& p < 0 && m == Mode::VBlank && self.ly + 1 <= 153 ==> {
                    let ly1 = (self.ly + 1) as u8;
                    &&& next.ly == self.ly + 1
                    &&& next.mode() == Mode::VBlank
                    &&& next.ppu_cycles == p.wrapping_add(VBLANK_CYCLES)
                    &&& next.stat == spec_lyc_stat(self.stat, ly1, self.lyc)
                    &&& next_ifr == spec_lyc_ifr(ifr, self.stat, ly1, self.lyc)
                }
            }
        })
        &&& next.vram == self.vram
        &&& next.oam == self.oam
        &&& next.lcdc == self.lcdc
        &&& next.scx == self.scx && next.scy == self.scy
        &&& next.lyc == self.lyc
        &&& next.bcp == self.bcp && next.ocp == self.ocp
    }

    /// Advances the state machine by `cycles` t-cycles. When the counter
    /// runs out the next mode begins; a scanline is drawn at the end of
    /// mode 3 and the finished frame is presented when line 153 ends.
    pub(crate) fn run(&mut self, cycles: i32, ifr: &mut u8, compat_mode: CompatMode)
        requires
            old(self).wf(),
        ensures
            final(self).wf(),
            old(self).lcdc & LCDC_ON_B == 0 ==> *final(self) == *old(self) && *final(ifr) == *old(ifr),
            ({
                let p = old(self).ppu_cycles.wrapping_sub(cycles);
                let m = old(self).mode();
                old(self).lcdc & LCDC_ON_B != 0 ==> {
                    &&& p >= 0 ==> *final(self) == (Ppu { ppu_cycles: p, ..*old(self) }) && *final(ifr) == *old(ifr)
                    &&& p < 0 && m == Mode::OamScan ==> final(self).mode() == Mode::Drawing
                        && final(self).ly == old(self).ly
                        && final(self).ppu_cycles == p.wrapping_add(Mode::Drawing.spec_cycles(old(self).scx))
                        && *final(ifr) == *old(ifr)
                        && final(self).rgb_buf == old(self).rgb_buf
                    &&& p < 0 && m == Mode::Drawing ==> final(self).mode() == Mode::HBlank
                        && final(self).ly == old(self).ly
                        && *final(ifr) == spec_mode_ifr(*old(ifr), old(self).stat, Mode::HBlank)
                        && same_outside(final(self).rgb_buf.data@, old(self).rgb_buf.data@, 160 * old(self).ly, 160)
                        && forall|i: int| 0 <= i < 160 ==> #[trigger] spec_px(final(self).rgb_buf.data@, 160 * old(self).ly + i)
                            == old(self).spec_line_px(compat_mode, i, spec_px(old(self).rgb_buf.data@, 160 * old(self).ly + i))
                    &&& p < 0 && m == Mode::HBlank ==> final(self).ly == old(self).ly + 1
                        && final(self).mode() == (if old(self).ly + 1 < 144 { Mode::OamScan } else { Mode::VBlank })
                        && final(self).rgb_buf == old(self).rgb_buf
                    &&& p < 0 && m == Mode::VBlank && old(self).ly + 1 > 153 ==> final(self).ly == 0
                        && final(self).mode() == Mode::OamScan
                        && final(self).rgba_buf_present == old(self).rgb_buf
                    &&& p < 0 && m == Mode::VBlank && old(self).ly + 1 <= 153 ==> final(self).ly == old(self).ly + 1
                        && final(self).mode() == Mode::VBlank
                        && final(self).ppu_cycles == p.wrapping_add(VBLANK_CYCLES)
                }
            }),
            final(self).vram == old(self).vram,
            final(self).oam == old(self).oam,
            final(self).lcdc == old(self).lcdc,
            final(self).scx == old(self).scx && final(self).scy == old(self).scy,
            final(self).lyc == old(self).lyc,
            final(self).bcp == old(self).bcp && final(self).ocp == old(self).ocp,
            old(self).spec_ran(*final(self), cycles, compat_mode, *old(ifr), *final(ifr)),
    {
        proof { reveal(Ppu::spec_ran); }
        if self.lcdc & LCDC_ON_B != 0 {
            self.ppu_cycles = self.ppu_cycles.wrapping_sub(cycles);
            if self.ppu_cycles < 0 {
                match self.ppu_mode() {
                    Mode::OamScan => self.enter_mode(Mode::Drawing, ifr),
                    Mode::Drawing => {
                        let ghost before = *self;
                        self.draw_scanline(compat_mode);
                        proof {
                            assert forall|i: int| 0 <= i < 160 implies #[trigger] before.spec_line_px(compat_mode, i, spec_px(before.rgb_buf.data@, 160 * before.ly + i))
                                == old(self).spec_line_px(compat_mode, i, spec_px(old(self).rgb_buf.data@, 160 * old(self).ly + i)) by {
                                super::draw::lemma_line_px_ignores_cycles(before, *old(self), compat_mode, i, spec_px(old(self).rgb_buf.data@, 160 * old(self).ly + i));
                            }
                        }
                        self.enter_mode(Mode::HBlank, ifr);
                    },
                    Mode::HBlank => {
                        self.ly += 1;
                        if self.ly < 144 {
                            self.enter_mode(Mode::OamScan, ifr);
                        } else {
                            self.enter_mode(Mode::VBlank, ifr);
                        }
                        self.check_lyc(ifr);
                    },
                    Mode::VBlank => {
                        self.ly += 1;
                        if self.ly > 153 {
                            self.ly = 0;
                            self.rgba_buf_present = self.rgb_buf;
                            self.enter_mode(Mode::OamScan, ifr);
                        } else {
                            let c = self.ppu_mode().cycles(self.scx);
                            self.ppu_cycles = self.ppu_cycles.wrapping_add(c);
                        }
                        self.check_lyc(ifr);
                    },
                }
            }
        }
    }
}

} // verus!

//! Writes to the I/O registers at 0xFF00 to 0xFFFF: each register range is
//! handed to the component that owns it.
use vstd::prelude::*;
use crate::{CompatMode, Gb, Model};
use crate::interrupts::Interrupts;
use crate::joypad::Joypad;
use crate::memory::{
    HdmaState, BCPS, BOOT, DIV, DMA, HDMA1, HDMA2, HDMA3, HDMA4, HDMA5, HRAM_BEG, HRAM_END, IE, IF, KEY0,
    KEY1, LCDC, NR10, OPRI, P1, SB, SC, SVBK, TAC, TIMA, TMA, VBK, WAV_END, WX,
};
use crate::serial::Serial;
use crate::ppu::Ppu;

verus! {

impl Gb {
    /// What a write of `val` to HDMA5 does to the VRAM DMA state: it starts
    /// a general purpose or H-blank transfer of `(val & 0x7F) + 1` blocks of
    /// 16 bytes, or stops a running H-blank transfer when bit 7 is clear.
    #[verifier::opaque]
    pub open spec fn spec_hdma5_written(self, next: Gb, val: u8) -> bool {
        &&& next == (Gb { hdma_state: next.hdma_state, hdma_len: next.hdma_len, hdma5: next.hdma5, ..self })
        &&& if self.spec_hdma_on() && val & 0x80 == 0 {
            next.hdma_state == HdmaState::Sleep && next.hdma_len == self.hdma_len && next.hdma5 == self.hdma5
        } else {
            &&& next.hdma5 == val & 0x7F
            &&& next.hdma_len == (((val & 0x7F) as int + 1) * 0x10) as u16
            &&& next.hdma_state == (if val & 0x80 == 0 { HdmaState::General } else { HdmaState::WaitHBlank })
        }
    }

    /// Writes HDMA5.
    fn write_hdma5(&mut self, val: u8)
        requires
            old(self).wf(),
        ensures
            final(self).wf(),
            old(self).spec_hdma5_written(*final(self), val),
            final(self).regs == old(self).regs,
    {
        proof { reveal(Gb::spec_hdma5_written); }
        proof { self.lemma_wf_elim(); }
        if self.hdma_on() && val & 0x80 == 0 {
            self.hdma_state = HdmaState::Sleep;
            proof { Gb::lemma_wf_hdma(*old(self), *self); }
            return;
        }
        let h = val & 0x7F;
        proof { crate::bits::lemma_and_u8(val, 0x7F); }
        self.hdma5 = h;
        self.hdma_len = (h as u16 + 1) * 0x10;
        self.hdma_state = if val & 0x80 == 0 { HdmaState::General } else { HdmaState::WaitHBlank };
        proof { Gb::lemma_wf_hdma(*old(self), *self); }
    }

    /// What a write of `val` to timer register `addr` (DIV, TIMA, TMA, TAC)
    /// does: clearing DIV may step the audio frame sequencer.
    #[verifier::opaque]
    pub open spec fn spec_timer_reg_written(self, next: Gb, addr: u8, val: u8) -> bool {
        let (t, step) = self.timer.spec_set_clk(0, self.double_speed);
        &&& next == (Gb { timer: next.timer, apu: next.apu, ..self })
        &&& addr == DIV ==> next.timer == t && (if step {
            self.apu.spec_seq_stepped(next.apu)
        } else {
            next.apu == self.apu
        })
        &&& addr != DIV ==> next.apu == self.apu
        &&& addr == TIMA ==> next.timer == (crate::timing::Timer { tima: val, ..self.timer })
        &&& addr == TMA ==> next.timer == (crate::timing::Timer { tma: val, ..self.timer })
        &&& addr == TAC ==> next.timer == (crate::timing::Timer { tac: val & 7, tac_enable: val & 4 != 0, ..self.timer })
    }

    /// Writes a timer register.
    fn write_timer_reg(&mut self, addr: u8, val: u8)
        requires
            old(self).wf(),
            DIV <= addr <= TAC,
        ensures
            final(self).wf(),
            old(self).spec_timer_reg_written(*final(self), addr, val),
            final(self).regs == old(self).regs,
    {
        if addr == DIV {
            self.write_div_reg(val)
        } else {
            self.write_timer_counter_reg(addr, val)
        }
    }

    /// Writes DIV: the system counter is cleared, which may step the audio
    /// frame sequencer.
    #[verifier::spinoff_prover]
    #[verifier::rlimit(50)]
    fn write_div_reg(&mut self, val: u8)
        requires
            old(self).wf(),
        ensures
            final(self).wf(),
            old(self).spec_timer_reg_written(*final(self), DIV, val),
            final(self).regs == old(self).regs,
    {
        proof {
            reveal(Gb::spec_timer_reg_written);
            self.lemma_wf_elim();
        }
        let ghost before = *self;
        let step = self.timer.write_div(self.double_speed);
        let ghost mid = *self;
        assert(mid == Gb { timer: mid.timer, ..before });
        if step {
            self.apu.step_seq();
            assert(*self == Gb { apu: self.apu, ..mid });
        }
        proof { Gb::lemma_wf_timer_apu(before, *self); }
    }

    /// Writes TIMA, TMA or TAC.
    #[verifier::spinoff_prover]
    #[verifier::rlimit(50)]
    fn write_timer_counter_reg(&mut self, addr: u8, val: u8)
        requires
            old(self).wf(),
            TIMA <= addr <= TAC,
        ensures
            final(self).wf(),
            old(self).spec_timer_reg_written(*final(self), addr, val),
            final(self).regs == old(self).regs,
    {
        proof {
            reveal(Gb::spec_timer_reg_written);
            self.lemma_wf_elim();
        }
        let ghost before = *self;
        if addr == TIMA {
            self.timer.write_tima(val);
            proof { Gb::lemma_wf_timer_apu(before, *self); }
            return;
        }
        if addr == TMA {
            self.timer.write_tma(val);
            proof { Gb::lemma_wf_timer_apu(before, *self); }
            return;
        }
        self.timer.write_tac(val);
        proof { Gb::lemma_wf_timer_apu(before, *self); }
    }

    /// Writes DMA: starts (or restarts) an OAM DMA transfer from
    /// `val * 0x100` after two m-cycles.
    fn write_dma(&mut self, val: u8)
        requires
            old(self).wf(),
        ensures
            final(self).wf(),
            *final(self) == (Gb {
                dma: val,
                dma_on: true,
                dma_addr: (val as u16) << 8u16,
                dma_cycles: -8i32,
                dma_restarting: old(self).dma_restarting || old(self).dma_on,
                ..*old(self)
            }),
    {
        if self.dma_on {
            self.dma_restarting = true;
        }
        self.dma_cycles = -8;
        self.dma = val;
        self.dma_addr = (val as u16) << 8;
        self.dma_on = true;
        proof { Gb::lemma_wf_frame(*old(self), *self); }
    }

    /// What a write of `val` to `addr` does when `addr` is none of the
    /// registers of the timer, serial port, joypad, interrupts, audio or
    /// display, nor high RAM: KEY0 (while the boot ROM runs), KEY1, the boot
    /// ROM switch, the VRAM DMA registers and SVBK; the color-model registers
    /// ignore writes on monochrome hardware, the others always.
    #[verifier::opaque]
    pub open spec fn spec_cgb_reg_written(self, next: Gb, addr: u8, val: u8) -> bool {
        let cgb = self.compat_mode == CompatMode::Cgb;
        if addr == KEY0 {
            self.spec_key0_written(next, val)
        } else if addr == KEY1 {
            self.spec_key1_written(next, val)
        } else if addr == BOOT {
            self.spec_boot_written(next, val)
        } else if HDMA1 <= addr <= HDMA4 {
            self.spec_hdma_addr_written(next, addr, val)
        } else if addr == HDMA5 {
            if cgb { self.spec_hdma5_written(next, val) } else { next == self }
        } else if addr == SVBK {
            self.spec_svbk_written(next, val)
        } else {
            next == self
        }
    }

    /// KEY0 written with `val`: while the boot ROM of a colour console runs,
    /// 4 switches to the compatibility mode for monochrome programs.
    #[verifier::opaque]
    pub open spec fn spec_key0_written(self, next: Gb, val: u8) -> bool {
        next == (if self.model == Model::Cgb && self.boot_rom is Some && val == 4 {
            Gb { compat_mode: CompatMode::Compat, ..self }
        } else {
            self
        })
    }

    /// KEY1 written with `val`: bit 0 requests a speed switch (colour mode
    /// only).
    #[verifier::opaque]
    pub open spec fn spec_key1_written(self, next: Gb, val: u8) -> bool {
        next == (if self.compat_mode == CompatMode::Cgb {
            Gb { double_speed_request: val & 1 != 0, ..self }
        } else {
            self
        })
    }

    /// The boot ROM switch written with `val`: bit 0 unmaps the boot ROM.
    #[verifier::opaque]
    pub open spec fn spec_boot_written(self, next: Gb, val: u8) -> bool {
        next == (if val & 1 != 0 { Gb { boot_rom: None, ..self } } else { self })
    }

    /// HDMA1 to HDMA4 written with `val`: the high and low bytes of the VRAM
    /// DMA source and destination (colour mode only).
    #[verifier::opaque]
    pub open spec fn spec_hdma_addr_written(self, next: Gb, addr: u8, val: u8) -> bool {
        next == (if self.compat_mode != CompatMode::Cgb {
            self
        } else if addr == HDMA1 {
            Gb { hdma_src: ((val as u16) << 8u16) | (self.hdma_src & 0xF0), ..self }
        } else if addr == HDMA2 {
            Gb { hdma_src: (self.hdma_src & 0xFF00) | ((val & 0xF0) as u16), ..self }
        } else if addr == HDMA3 {
            Gb { hdma_dst: (((val & 0x1F) as u16) << 8u16) | (self.hdma_dst & 0xF0), ..self }
        } else {
            Gb { hdma_dst: (self.hdma_dst & 0x1F00) | ((val & 0xF0) as u16), ..self }
        })
    }

    /// SVBK written with `val`: bits 0 to 2 select the work RAM bank at
    /// 0xD000, 0 selecting bank 1 (colour mode only).
    #[verifier::opaque]
    pub open spec fn spec_svbk_written(self, next: Gb, val: u8) -> bool {
        let bank = val & 7;
        next == (if self.compat_mode == CompatMode::Cgb {
            Gb { svbk: bank, svbk_true: if bank == 0 { 1 } else { bank }, ..self }
        } else {
            self
        })
    }

    /// Writes a color-model register.
    #[verifier::spinoff_prover]
    #[verifier::rlimit(100)]
    fn write_cgb_reg(&mut self, addr: u8, val: u8)
        requires
            old(self).wf(),
        ensures
            final(self).wf(),
            old(self).spec_cgb_reg_written(*final(self), addr, val),
            final(self).regs == old(self).regs,
    {
        proof { reveal(Gb::spec_cgb_reg_written); }
        proof { self.lemma_wf_elim(); }
        let cgb = self.compat_mode == CompatMode::Cgb;
        if addr == HDMA5 && cgb {
            self.write_hdma5(val);
            return;
        }
        if addr == SVBK && cgb {
            let tmp = val & 7;
            proof { crate::bits::lemma_and_u8(val, 7); }
            self.svbk = tmp;
            self.svbk_true = if tmp == 0 { 1 } else { tmp };
            proof {
                Gb::lemma_wf_svbk(*old(self), *self);
                reveal(Gb::spec_svbk_written);
            }
            return;
        }
        if addr == KEY0 && self.model == Model::Cgb && self.boot_rom.is_some() && val == 4 {
            self.compat_mode = CompatMode::Compat;
            proof {
                Gb::lemma_wf_frame(*old(self), *self);
                reveal(Gb::spec_key0_written);
            }
            return;
        }
        if addr == KEY1 && cgb {
            self.double_speed_request = val & 1 != 0;
            proof {
                Gb::lemma_wf_frame(*old(self), *self);
                reveal(Gb::spec_key1_written);
            }
            return;
        }
        if addr == BOOT && val & 1 != 0 {
            self.boot_rom = None;
            proof {
                Gb::lemma_wf_frame(*old(self), *self);
                reveal(Gb::spec_boot_written);
            }
            return;
        }
        if addr == HDMA1 && cgb {
            self.hdma_src = ((val as u16) << 8) | (self.hdma_src & 0xF0);
            proof {
                Gb::lemma_wf_frame(*old(self), *self);
                reveal(Gb::spec_hdma_addr_written);
            }
            return;
        }
        if addr == HDMA2 && cgb {
            self.hdma_src = (self.hdma_src & 0xFF00) | ((val & 0xF0) as u16);
            proof {
                Gb::lemma_wf_frame(*old(self), *self);
                reveal(Gb::spec_hdma_addr_written);
            }
            return;
        }
        if addr == HDMA3 && cgb {
            self.hdma_dst = (((val & 0x1F) as u16) << 8) | (self.hdma_dst & 0xF0);
            proof {
                Gb::lemma_wf_frame(*old(self), *self);
                reveal(Gb::spec_hdma_addr_written);
            }
            return;
        }
        if addr == HDMA4 && cgb {
            self.hdma_dst = (self.hdma_dst & 0x1F00) | ((val & 0xF0) as u16);
            proof {
                Gb::lemma_wf_frame(*old(self), *self);
                reveal(Gb::spec_hdma_addr_written);
            }
            return;
        }
        proof {
            reveal(Gb::spec_key0_written);
            reveal(Gb::spec_key1_written);
            reveal(Gb::spec_boot_written);
            reveal(Gb::spec_hdma_addr_written);
            reveal(Gb::spec_svbk_written);
        }
    }

    /// Writes high RAM.
    fn write_hram(&mut self, addr: u8, val: u8)
        requires
            HRAM_BEG <= addr <= HRAM_END,
        ensures
            *final(self) == (Gb { hram: final(self).hram, ..*old(self) }),
            final(self).hram@ == old(self).hram@.update((addr & 0x7F) as int, val),
    {
        proof { crate::bits::lemma_and_u8(addr, 0x7F); }
        self.hram[(addr & 0x7F) as usize] = val;
    }

    /// Whether `addr` selects a register of the display unit.
    pub open spec fn spec_is_ppu_reg(addr: u8) -> bool {
        (LCDC <= addr <= WX && addr != DMA) || addr == VBK || BCPS <= addr <= OPRI
    }

    /// Only the audio unit differs between `self` and `next`.
    #[verifier::opaque]
    pub open spec fn spec_apu_only(self, next: Gb) -> bool {
        next == (Gb { apu: next.apu, ..self })
    }

    /// Only the display unit and IF differ between `self` and `next`.
    #[verifier::opaque]
    pub open spec fn spec_ppu_ifr_only(self, next: Gb) -> bool {
        next == (Gb { ppu: next.ppu, ints: Interrupts { ifr: next.ints.ifr, ..self.ints }, ..self })
    }

    /// Only the serial port and IF differ between `self` and `next`.
    #[verifier::opaque]
    pub open spec fn spec_serial_ifr_only(self, next: Gb) -> bool {
        next == (Gb { serial: next.serial, ints: Interrupts { ifr: next.ints.ifr, ..self.ints }, ..self })
    }

    /// P1 written with `val`: the row selections change, nothing else.
    #[verifier::opaque]
    pub open spec fn spec_p1_written(self, next: Gb, val: u8) -> bool {
        next == (Gb { joy: Joypad { acts: val & 0x20 == 0, dirs: val & 0x10 == 0, ..self.joy }, ..self })
    }

    /// SB written with `val`: the data byte changes, nothing else.
    #[verifier::opaque]
    pub open spec fn spec_sb_written(self, next: Gb, val: u8) -> bool {
        next == (Gb { serial: Serial { sb: val, ..self.serial }, ..self })
    }

    /// IF written with `val`: its five interrupt bits are kept, nothing else
    /// changes.
    #[verifier::opaque]
    pub open spec fn spec_if_written(self, next: Gb, val: u8) -> bool {
        next == (Gb { ints: Interrupts { ifr: val & 0x1F, ..self.ints }, ..self })
    }

    /// DMA written with `val`: an OAM DMA transfer from `val * 0x100` starts
    /// (or restarts) after two m-cycles, nothing else changes.
    #[verifier::opaque]
    pub open spec fn spec_dma_written(self, next: Gb, val: u8) -> bool {
        next == (Gb {
            dma: val,
            dma_on: true,
            dma_addr: (val as u16) << 8u16,
            dma_cycles: -8i32,
            dma_restarting: self.dma_restarting || self.dma_on,
            ..self
        })
    }

    /// High RAM written at 0xFF00 + `addr`: that byte changes, nothing else.
    #[verifier::opaque]
    pub open spec fn spec_hram_written(self, next: Gb, addr: u8, val: u8) -> bool {
        next == (Gb { hram: next.hram, ..self }) && next.hram@ == self.hram@.update((addr & 0x7F) as int, val)
    }

    /// IE written with `val`: the enables change, nothing else.
    #[verifier::opaque]
    pub open spec fn spec_ie_written(self, next: Gb, val: u8) -> bool {
        next == (Gb { ints: Interrupts { ie: val, ..self.ints }, ..self })
    }

    /// What a write of `val` to I/O register 0xFF00 + `addr` does (`self`
    /// before, `next` after): each register range goes to the component that
    /// owns it; for the joypad, SB, IF, DMA, high RAM and IE nothing else
    /// changes.
    pub open spec fn spec_high_written(self, next: Gb, addr: u8, val: u8) -> bool {
        if addr == P1 {
            self.spec_p1_written(next, val)
        } else if addr == SB {
            self.spec_sb_written(next, val)
        } else if addr == SC {
            self.serial.spec_sc_written(next.serial, val, self.compat_mode, self.ints.ifr, next.ints.ifr)
                && self.spec_serial_ifr_only(next)
        } else if DIV <= addr <= TAC {
            self.spec_timer_reg_written(next, addr, val)
        } else if addr == IF {
            self.spec_if_written(next, val)
        } else if NR10 <= addr <= WAV_END {
            self.apu.spec_reg_written(next.apu, addr, val) && self.spec_apu_only(next)
        } else if addr == DMA {
            self.spec_dma_written(next, val)
        } else if Self::spec_is_ppu_reg(addr) {
            self.ppu.spec_reg_written(next.ppu, addr, val, self.compat_mode == CompatMode::Cgb,
                self.ints.ifr, next.ints.ifr) && self.spec_ppu_ifr_only(next)
        } else if HRAM_BEG <= addr <= HRAM_END {
            self.spec_hram_written(next, addr, val)
        } else if addr == IE {
            self.spec_ie_written(next, val)
        } else {
            self.spec_cgb_reg_written(next, addr, val)
        }
    }

    /// Writes I/O register 0xFF00 + `addr`.
    pub fn write_high(&mut self, addr: u8, val: u8)
        requires
            old(self).wf(),
        ensures
            final(self).wf(),
            old(self).spec_high_written(*final(self), addr, val),
            final(self).regs == old(self).regs,
    {
        if addr < NR10 {
            self.write_io_low(addr, val)
        } else if addr < HRAM_BEG {
            self.write_io_mid(addr, val)
        } else {
            self.write_io_top(addr, val)
        }
    }

    /// Writes a register below the audio registers: joypad, serial port,
    /// timer, IF.
    #[verifier::spinoff_prover]
    #[verifier::rlimit(100)]
    fn write_io_low(&mut self, addr: u8, val: u8)
        requires
            old(self).wf(),
            addr < NR10,
        ensures
            final(self).wf(),
            old(self).spec_high_written(*final(self), addr, val),
            final(self).regs == old(self).regs,
    {
        proof { self.lemma_wf_elim(); }
        if addr == P1 {
            self.joy.write_joy(val);
            proof {
                Gb::lemma_wf_frame(*old(self), *self);
                reveal(Gb::spec_p1_written);
            }
            return;
        }
        if addr == SB {
            self.serial.write_sb(val);
            proof {
                Gb::lemma_wf_serial(*old(self), *self);
                reveal(Gb::spec_sb_written);
            }
            return;
        }
        if addr == SC {
            self.serial.write_sc(val, &mut self.ints, self.compat_mode);
            proof {
                self.lemma_wf_intro();
                reveal(Gb::spec_serial_ifr_only);
            }
            return;
        }
        if DIV <= addr && addr <= TAC {
            self.write_timer_reg(addr, val);
            return;
        }
        if addr == IF {
            self.ints.write_if(val);
            proof {
                Gb::lemma_wf_frame(*old(self), *self);
                reveal(Gb::spec_if_written);
            }
            return;
        }
        self.write_cgb_reg(addr, val);
    }

    /// Writes an audio, display or color-model register.
    fn write_io_mid(&mut self, addr: u8, val: u8)
        requires
            old(self).wf(),
            NR10 <= addr < HRAM_BEG,
        ensures
            final(self).wf(),
            old(self).spec_high_written(*final(self), addr, val),
            final(self).regs == old(self).regs,
    {
        if addr <= WAV_END {
            self.write_io_sound(addr, val)
        } else {
            self.write_io_video(addr, val)
        }
    }

    /// Writes an audio register.
    #[verifier::spinoff_prover]
    #[verifier::rlimit(100)]
    fn write_io_sound(&mut self, addr: u8, val: u8)
        requires
            old(self).wf(),
            NR10 <= addr <= WAV_END,
        ensures
            final(self).wf(),
            old(self).spec_high_written(*final(self), addr, val),
            final(self).regs == old(self).regs,
    {
        proof { self.lemma_wf_elim(); }
        self.apu.write_reg(addr, val);
        proof {
            self.lemma_wf_intro();
            reveal(Gb::spec_apu_only);
        }
    }

    /// Writes DMA, a display register or a color-model register.
    #[verifier::spinoff_prover]
    #[verifier::rlimit(100)]
    fn write_io_video(&mut self, addr: u8, val: u8)
        requires
            old(self).wf(),
            WAV_END < addr < HRAM_BEG,
        ensures
            final(self).wf(),
            old(self).spec_high_written(*final(self), addr, val),
            final(self).regs == old(self).regs,
    {
        proof { self.lemma_wf_elim(); }
        if addr == DMA {
            self.write_dma(val);
            proof { reveal(Gb::spec_dma_written); }
            return;
        }
        if (LCDC <= addr && addr <= WX) || addr == VBK || (BCPS <= addr && addr <= OPRI) {
            let cgb = self.compat_mode == CompatMode::Cgb;
            self.ppu.write_reg(addr, val, cgb, &mut self.ints.ifr);
            proof {
                self.lemma_wf_intro();
                reveal(Gb::spec_ppu_ifr_only);
            }
            return;
        }
        self.write_cgb_reg(addr, val);
    }

    /// Writes high RAM or IE.
    #[verifier::spinoff_prover]
    #[verifier::rlimit(100)]
    fn write_io_top(&mut self, addr: u8, val: u8)
        requires
            old(self).wf(),
            HRAM_BEG <= addr,
        ensures
            final(self).wf(),
            old(self).spec_high_written(*final(self), addr, val),
            final(self).regs == old(self).regs,
    {
        proof { self.lemma_wf_elim(); }
        if addr <= HRAM_END {
            self.write_hram(addr, val);
            proof {
                Gb::lemma_wf_frame(*old(self), *self);
                reveal(Gb::spec_hram_written);
            }
            return;
        }
        self.ints.write_ie(val);
        proof {
            Gb::lemma_wf_frame(*old(self), *self);
            reveal(Gb::spec_ie_written);
        }
    }
}

} // verus!

//! The memory map: what a read of any address gives, writes outside the
//! I/O page, and the register writes of the audio and display units.
use vstd::prelude::*;
use crate::{CompatMode, Gb};
use crate::joypad::spec_p1;
use crate::ppu::{Mode, Ppu};
use crate::apu::Apu;
use crate::apu::wave::Wave;
use crate::apu::sweep::SweepTrait;

verus! {

/// Where a VRAM DMA transfer is.
#[derive(Clone, Copy, PartialEq, Eq, Structural, Debug)]
pub enum HdmaState {
    /// No transfer.
    Sleep,
    /// An H-blank transfer waits for the next H-blank.
    WaitHBlank,
    /// An H-blank transfer copied its block in this H-blank.
    HBlankDone,
    /// A general purpose transfer copies everything at once.
    General,
}

// I/O register addresses (offsets from 0xFF00).
pub const P1: u8 = 0x00;
pub const SB: u8 = 0x01;
pub const SC: u8 = 0x02;
pub const DIV: u8 = 0x04;
pub const TIMA: u8 = 0x05;
pub const TMA: u8 = 0x06;
pub const TAC: u8 = 0x07;
pub const IF: u8 = 0x0F;
pub const NR10: u8 = 0x10;
pub const NR11: u8 = 0x11;
pub const NR12: u8 = 0x12;
pub const NR13: u8 = 0x13;
pub const NR14: u8 = 0x14;
pub const NR21: u8 = 0x16;
pub const NR22: u8 = 0x17;
pub const NR23: u8 = 0x18;
pub const NR24: u8 = 0x19;
pub const NR30: u8 = 0x1A;
pub const NR31: u8 = 0x1B;
pub const NR32: u8 = 0x1C;
pub const NR33: u8 = 0x1D;
pub const NR34: u8 = 0x1E;
pub const NR41: u8 = 0x20;
pub const NR42: u8 = 0x21;
pub const NR43: u8 = 0x22;
pub const NR44: u8 = 0x23;
pub const NR50: u8 = 0x24;
pub const NR51: u8 = 0x25;
pub const NR52: u8 = 0x26;
pub const WAV_BEGIN: u8 = 0x30;
pub const WAV_END: u8 = 0x3F;
pub const LCDC: u8 = 0x40;
pub const STAT: u8 = 0x41;
pub const SCY: u8 = 0x42;
pub const SCX: u8 = 0x43;
pub const LY: u8 = 0x44;
pub const LYC: u8 = 0x45;
pub const DMA: u8 = 0x46;
pub const BGP: u8 = 0x47;
pub const OBP0: u8 = 0x48;
pub const OBP1: u8 = 0x49;
pub const WY: u8 = 0x4A;
pub const WX: u8 = 0x4B;
pub const KEY0: u8 = 0x4C;
pub const KEY1: u8 = 0x4D;
pub const VBK: u8 = 0x4F;
pub const BOOT: u8 = 0x50;
pub const HDMA1: u8 = 0x51;
pub const HDMA2: u8 = 0x52;
pub const HDMA3: u8 = 0x53;
pub const HDMA4: u8 = 0x54;
pub const HDMA5: u8 = 0x55;
pub const BCPS: u8 = 0x68;
pub const BCPD: u8 = 0x69;
pub const OCPS: u8 = 0x6A;
pub const OCPD: u8 = 0x6B;
pub const OPRI: u8 = 0x6C;
pub const SVBK: u8 = 0x70;
pub const PCM12: u8 = 0x76;
pub const PCM34: u8 = 0x77;
pub const HRAM_BEG: u8 = 0x80;
pub const HRAM_END: u8 = 0xFE;
pub const IE: u8 = 0xFF;

/// Index in work RAM of an address of the fixed bank (0xC000 to 0xCFFF and
/// its echo).
pub open spec fn wram_index(addr: u16) -> int {
    (addr & 0xFFF) as int
}

/// Index in work RAM of an address of the switchable bank (0xD000 to
/// 0xDFFF and its echo).
pub open spec fn bank_index(addr: u16, bank: u8) -> int {
    ((addr & 0xFFF) | ((bank as u16) * 0x1000) as u16) as int
}

impl Gb {
    /// Whether OAM DMA is copying (it blocks CPU access to OAM).
    pub open spec fn spec_dma_active(&self) -> bool {
        self.dma_on && (self.dma_cycles > 0 || self.dma_restarting)
    }

    /// Whether a VRAM DMA transfer is under way.
    pub open spec fn spec_hdma_on(&self) -> bool {
        self.hdma_state != HdmaState::Sleep
    }

    /// Whether the color registers are visible.
    pub open spec fn is_cgb(&self) -> bool {
        self.compat_mode == CompatMode::Cgb
    }

    /// What a read of I/O register 0xFF00 + `addr` gives.
    pub open spec fn spec_read_high(&self, addr: u8) -> u8 {
        let cgb = self.is_cgb();
        if addr == P1 { spec_p1(self.joy.btn, self.joy.dirs, self.joy.acts) }
        else if addr == SB { self.serial.sb }
        else if addr == SC { self.serial.sc | 0x7E }
        else if addr == DIV { (self.timer.wide_div_counter >> 8u16) as u8 }
        else if addr == TIMA { self.timer.tima }
        else if addr == TMA { self.timer.tma }
        else if addr == TAC { 0xF8 | self.timer.tac }
        else if addr == IF { self.ints.ifr | 0xE0 }
        else if addr == NR10 { self.apu.ch1.ab.wl.sweep.spec_read() }
        else if addr == NR11 { self.apu.ch1.ab.spec_read_nrx1() }
        else if addr == NR12 { self.apu.ch1.ab.env.spec_read() }
        else if addr == NR14 { self.apu.ch1.ab.spec_read_nrx4() }
        else if addr == NR21 { self.apu.ch2.ab.spec_read_nrx1() }
        else if addr == NR22 { self.apu.ch2.ab.env.spec_read() }
        else if addr == NR24 { self.apu.ch2.ab.spec_read_nrx4() }
        else if addr == NR30 { self.apu.ch3.spec_read_nr30() }
        else if addr == NR32 { self.apu.ch3.spec_read_nr32() }
        else if addr == NR34 { self.apu.ch3.spec_read_nr34() }
        else if addr == NR42 { self.apu.ch4.env.spec_read() }
        else if addr == NR43 { self.apu.ch4.nr43 }
        else if addr == NR44 { self.apu.ch4.spec_read_nr44() }
        else if addr == NR50 { self.apu.spec_read_nr50() }
        else if addr == NR51 { self.apu.nr51 }
        else if addr == NR52 { self.apu.spec_read_nr52() }
        else if WAV_BEGIN <= addr <= WAV_END { self.apu.ch3.ram[addr - WAV_BEGIN] }
        else if addr == LCDC { self.ppu.lcdc }
        else if addr == STAT { self.ppu.stat | 0x80 }
        else if addr == SCY { self.ppu.scy }
        else if addr == SCX { self.ppu.scx }
        else if addr == LY { self.ppu.ly }
        else if addr == LYC { self.ppu.lyc }
        else if addr == DMA { self.dma }
        else if addr == BGP { self.ppu.bgp }
        else if addr == OBP0 { self.ppu.obp0 }
        else if addr == OBP1 { self.ppu.obp1 }
        else if addr == WY { self.ppu.wy }
        else if addr == WX { self.ppu.wx }
        else if addr == KEY1 && cgb {
            0x7E | ((if self.double_speed { 1u8 } else { 0u8 }) << 7u8) | (if self.double_speed_request { 1u8 } else { 0u8 })
        }
        else if addr == VBK && cgb { (if self.ppu.vbk { 1u8 } else { 0u8 }) | 0xFE }
        else if addr == HDMA5 && cgb { ((if self.spec_hdma_on() { 0u8 } else { 1u8 }) << 7u8) | self.hdma5 }
        else if addr == BCPS && cgb { self.ppu.bcp.spec_spec() }
        else if addr == BCPD && cgb { self.ppu.bcp.spec_data() }
        else if addr == OCPS && cgb { self.ppu.ocp.spec_spec() }
        else if addr == OCPD && cgb { self.ppu.ocp.spec_data() }
        else if addr == OPRI && cgb { self.ppu.opri }
        else if addr == SVBK && cgb { self.svbk | 0xF8 }
        else if addr == PCM12 && cgb { (self.apu.ch1.ab.spec_out() as u8) | ((self.apu.ch2.ab.spec_out() as u8) << 4u8) }
        else if addr == PCM34 && cgb { self.apu.ch3.spec_out() | (((self.apu.ch4.out * self.apu.ch4.env.vol) as u8) << 4u8) }
        else if HRAM_BEG <= addr <= HRAM_END { self.hram[(addr & 0x7F) as int] }
        else if addr == IE { self.ints.ie }
        else { 0xFF }
    }

    /// What a read of the boot ROM area gives: the boot ROM while it is
    /// mapped (and covers the address), else the cartridge.
    pub open spec fn spec_read_boot_or_cart(&self, addr: u16) -> u8 {
        match self.boot_rom {
            Some(b) => if (addr as int) < b@.len() { b@[addr as int] } else { self.cart.spec_read_rom(addr) },
            None => self.cart.spec_read_rom(addr),
        }
    }

    /// What a read of `addr` gives.
    pub open spec fn spec_read_mem(&self, addr: u16) -> u8 {
        if addr <= 0x00FF || (0x0200 <= addr <= 0x08FF) {
            self.spec_read_boot_or_cart(addr)
        } else if addr <= 0x7FFF {
            self.cart.spec_read_rom(addr)
        } else if addr <= 0x9FFF {
            if self.ppu.mode() == Mode::Drawing { 0xFF } else { self.ppu.vram[self.ppu.vram_index(addr)] }
        } else if addr <= 0xBFFF {
            self.cart.spec_read_ram(addr)
        } else if addr <= 0xCFFF || (0xE000 <= addr <= 0xEFFF) {
            self.wram[wram_index(addr)]
        } else if addr <= 0xDFFF || (0xF000 <= addr <= 0xFDFF) {
            self.wram[bank_index(addr, self.svbk_true)]
        } else if addr <= 0xFE9F {
            if (self.ppu.mode() == Mode::HBlank || self.ppu.mode() == Mode::VBlank) && !self.dma_on {
                self.ppu.oam[(addr & 0xFF) as int]
            } else {
                0xFF
            }
        } else if addr <= 0xFEFF {
            0xFF
        } else {
            self.spec_read_high((addr & 0xFF) as u8)
        }
    }

    /// Reads the fixed work RAM bank.
    fn read_ram(&self, addr: u16) -> (r: u8)
        ensures
            r == self.wram[wram_index(addr)],
    {
        proof { crate::bits::lemma_and_u16(addr, 0xFFF); }
        self.wram[(addr & 0xFFF) as usize]
    }

    /// Reads the switchable work RAM bank.
    fn read_bank_ram(&self, addr: u16) -> (r: u8)
        requires
            1 <= self.svbk_true <= 7,
        ensures
            r == self.wram[bank_index(addr, self.svbk_true)],
    {
        let s = self.svbk_true as u16;
        let bank = s * 0x1000;
        let i = (addr & 0xFFF) | bank;
        proof { crate::bits::lemma_bank_bits(addr, s); }
        self.wram[i as usize]
    }

    /// Writes the fixed work RAM bank.
    fn write_ram(&mut self, addr: u16, val: u8)
        ensures
            *final(self) == (Gb { wram: final(self).wram, ..*old(self) }),
            final(self).wram@ == old(self).wram@.update(wram_index(addr), val),
    {
        proof { crate::bits::lemma_and_u16(addr, 0xFFF); }
        self.wram[(addr & 0xFFF) as usize] = val;
    }

    /// Writes the switchable work RAM bank.
    fn write_bank_ram(&mut self, addr: u16, val: u8)
        requires
            1 <= old(self).svbk_true <= 7,
        ensures
            *final(self) == (Gb { wram: final(self).wram, ..*old(self) }),
            final(self).wram@ == old(self).wram@.update(bank_index(addr, old(self).svbk_true), val),
    {
        let s = self.svbk_true as u16;
        let bank = s * 0x1000;
        let i = (addr & 0xFFF) | bank;
        proof { crate::bits::lemma_bank_bits(addr, s); }
        self.wram[i as usize] = val;
    }

    /// Whether OAM DMA is copying.
    fn dma_active(&self) -> (r: bool)
        ensures
            r == self.spec_dma_active(),
    {
        self.dma_on && (self.dma_cycles > 0 || self.dma_restarting)
    }

    /// Whether a VRAM DMA transfer is under way.
    pub(crate) fn hdma_on(&self) -> (r: bool)
        ensures
            r == self.spec_hdma_on(),
    {
        !matches!(self.hdma_state, HdmaState::Sleep)
    }

    /// Reads the boot ROM while it is mapped, else the cartridge.
    fn read_boot_or_cart(&self, addr: u16) -> (r: u8)
        requires
            addr <= 0x7FFF,
        ensures
            r == self.spec_read_boot_or_cart(addr),
    {
        match &self.boot_rom {
            Some(b) => {
                if (addr as usize) < b.len() {
                    b[addr as usize]
                } else {
                    self.cart.read_rom(addr)
                }
            },
            None => self.cart.read_rom(addr),
        }
    }

    /// Reads `addr` through the memory map.
    pub fn read_mem(&self, addr: u16) -> (r: u8)
        requires
            self.wf(),
        ensures
            r == self.spec_read_mem(addr),
    {
        proof { self.lemma_wf_elim(); }
        if addr <= 0x00FF || (0x0200 <= addr && addr <= 0x08FF) {
            self.read_boot_or_cart(addr)
        } else if addr <= 0x7FFF {
            self.cart.read_rom(addr)
        } else if addr <= 0x9FFF {
            self.ppu.read_vram(addr)
        } else if addr <= 0xBFFF {
            self.cart.read_ram(addr)
        } else if addr <= 0xCFFF || (0xE000 <= addr && addr <= 0xEFFF) {
            self.read_ram(addr)
        } else if addr <= 0xDFFF || (0xF000 <= addr && addr <= 0xFDFF) {
            self.read_bank_ram(addr)
        } else if addr <= 0xFE9F {
            self.ppu.read_oam(addr, self.dma_on)
        } else if addr <= 0xFEFF {
            0xFF
        } else {
            self.read_high((addr & 0xFF) as u8)
        }
    }

    /// Reads I/O register 0xFF00 + `addr`.
    fn read_high(&self, addr: u8) -> (r: u8)
        requires
            self.wf(),
        ensures
            r == self.spec_read_high(addr),
    {
        proof { self.lemma_wf_elim(); }
        let cgb = self.compat_mode == CompatMode::Cgb;
        if addr == P1 { self.joy.read_p1() }
        else if addr == SB { self.serial.read_sb() }
        else if addr == SC { self.serial.read_sc() }
        else if addr == DIV { self.timer.read_div() }
        else if addr == TIMA { self.timer.tima }
        else if addr == TMA { self.timer.tma }
        else if addr == TAC { self.timer.read_tac() }
        else if addr == IF { self.ints.read_if() }
        else if addr == NR10 { self.apu.read_nr10() }
        else if addr == NR11 { self.apu.read_nr11() }
        else if addr == NR12 { self.apu.read_nr12() }
        else if addr == NR14 { self.apu.read_nr14() }
        else if addr == NR21 { self.apu.read_nr21() }
        else if addr == NR22 { self.apu.read_nr22() }
        else if addr == NR24 { self.apu.read_nr24() }
        else if addr == NR30 { self.apu.read_nr30() }
        else if addr == NR32 { self.apu.read_nr32() }
        else if addr == NR34 { self.apu.read_nr34() }
        else if addr == NR42 { self.apu.read_nr42() }
        else if addr == NR43 { self.apu.read_nr43() }
        else if addr == NR44 { self.apu.read_nr44() }
        else if addr == NR50 { self.apu.read_nr50() }
        else if addr == NR51 { self.apu.read_nr51() }
        else if addr == NR52 { self.apu.read_nr52() }
        else if WAV_BEGIN <= addr && addr <= WAV_END { self.apu.read_wave_ram(addr) }
        else if addr == LCDC { self.ppu.read_lcdc() }
        else if addr == STAT { self.ppu.read_stat() }
        else if addr == SCY { self.ppu.read_scy() }
        else if addr == SCX { self.ppu.read_scx() }
        else if addr == LY { self.ppu.read_ly() }
        else if addr == LYC { self.ppu.read_lyc() }
        else if addr == DMA { self.dma }
        else if addr == BGP { self.ppu.read_bgp() }
        else if addr == OBP0 { self.ppu.read_obp0() }
        else if addr == OBP1 { self.ppu.read_obp1() }
        else if addr == WY { self.ppu.read_wy() }
        else if addr == WX { self.ppu.read_wx() }
        else if addr == KEY1 && cgb {
            0x7E | ((if self.double_speed { 1u8 } else { 0u8 }) << 7) | (if self.double_speed_request { 1u8 } else { 0u8 })
        }
        else if addr == VBK && cgb { self.ppu.read_vbk() }
        else if addr == HDMA5 && cgb { ((if self.hdma_on() { 0u8 } else { 1u8 }) << 7) | self.hdma5 }
        else if addr == BCPS && cgb { self.ppu.bcp().spec() }
        else if addr == BCPD && cgb { self.ppu.bcp().data() }
        else if addr == OCPS && cgb { self.ppu.ocp().spec() }
        else if addr == OCPD && cgb { self.ppu.ocp().data() }
        else if addr == OPRI && cgb { self.ppu.read_opri() }
        else if addr == SVBK && cgb { self.svbk | 0xF8 }
        else if addr == PCM12 && cgb { self.apu.pcm12() }
        else if addr == PCM34 && cgb { self.apu.pcm34() }
        else if HRAM_BEG <= addr && addr <= HRAM_END {
            proof { crate::bits::lemma_and_u8(addr, 0x7F); }
            self.hram[(addr & 0x7F) as usize]
        }
        else if addr == IE { self.ints.read_ie() }
        else { 0xFF }
    }

    /// What a write of `val` to `addr` through the memory map does (`self`
    /// before, `next` after): the region the address falls in decides which
    /// component takes the byte.
    pub open spec fn spec_mem_written(self, next: Gb, addr: u16, val: u8) -> bool {
        &&& next.regs == self.regs
        &&& addr <= 0x7FFF ==> next.cart == self.cart.spec_write_rom(addr, val)
        &&& (0xC000 <= addr <= 0xCFFF || 0xE000 <= addr <= 0xEFFF) ==> next.wram@ == self.wram@.update(wram_index(addr), val)
        &&& (0xD000 <= addr <= 0xDFFF || 0xF000 <= addr <= 0xFDFF) ==> next.wram@ == self.wram@.update(bank_index(addr, self.svbk_true), val)
        &&& 0xC000 <= addr <= 0xFDFF ==> next.svbk_true == self.svbk_true
        &&& 0xFF80 <= addr <= 0xFFFE ==> next.hram@ == self.hram@.update((addr & 0x7F) as int, val)
        &&& 0x8000 <= addr <= 0x9FFF ==> next.ppu.vram@ == (if self.ppu.mode() == Mode::Drawing {
            self.ppu.vram@
        } else {
            self.ppu.vram@.update(self.ppu.vram_index(addr), val)
        })
        &&& 0xA000 <= addr <= 0xBFFF && !self.cart.rtc_takes_write() ==> next.cart.ram@ == (if self.cart.mbc is Mbc0 {
            self.cart.ram@
        } else {
            self.cart.spec_ram_written(addr, val)
        })
        &&& 0xFE00 <= addr <= 0xFE9F ==> next.ppu.oam@ == (if (self.ppu.mode() == Mode::HBlank
            || self.ppu.mode() == Mode::VBlank) && !self.spec_dma_active() {
            self.ppu.oam@.update((addr & 0xFF) as int, val)
        } else {
            self.ppu.oam@
        })
        &&& 0xFEA0 <= addr <= 0xFEFF ==> next == self
        &&& 0xFF00 <= addr ==> self.spec_high_written(next, (addr & 0xFF) as u8, val)
    }

    /// Writes `addr` through the memory map.
    pub fn write_mem(&mut self, addr: u16, val: u8)
        requires
            old(self).wf(),
        ensures
            final(self).wf(),
            final(self).regs == old(self).regs,
            old(self).spec_mem_written(*final(self), addr, val),
    {
        proof { reveal(Gb::spec_hram_written); }
        proof { self.lemma_wf_elim(); }
        if addr <= 0x7FFF {
            self.cart.write_rom(addr, val);
        } else if addr <= 0x9FFF {
            self.ppu.write_vram(addr, val);
        } else if addr <= 0xBFFF {
            self.cart.write_ram(addr, val);
        } else if addr <= 0xCFFF || (0xE000 <= addr && addr <= 0xEFFF) {
            self.write_ram(addr, val);
        } else if addr <= 0xDFFF || (0xF000 <= addr && addr <= 0xFDFF) {
            self.write_bank_ram(addr, val);
        } else if addr <= 0xFE9F {
            let active = self.dma_active();
            self.ppu.write_oam(addr, val, active);
        } else if addr <= 0xFEFF {
        } else {
            proof {
                if 0xFF80 <= addr && addr <= 0xFFFE {
                    crate::bits::lemma_high_ram_addr(addr);
                }
            }
            self.write_high((addr & 0xFF) as u8, val);
            return;
        }
        proof { self.lemma_wf_intro(); }
    }

}


impl Apu {
    /// What a write of `val` to audio register `addr` does (`self` before,
    /// `next` after). While the unit is off the channel registers ignore
    /// writes.
    #[verifier::opaque]
    pub open spec fn spec_reg_written(self, next: Apu, addr: u8, val: u8) -> bool {
        &&& addr == NR50 ==> next == self.spec_write_nr50(val)
        &&& addr == NR51 ==> next == self.spec_write_nr51(val)
        &&& addr == NR10 && self.on ==> next == self.spec_write_nr10(val)
        &&& addr == NR11 && self.on ==> next == self.spec_write_nr11(val)
        &&& addr == NR12 && self.on ==> next == self.spec_write_nr12(val)
        &&& addr == NR13 && self.on ==> next == self.spec_write_nr13(val)
        &&& addr == NR14 && self.on ==> next == self.spec_write_nr14(val)
        &&& addr == NR21 && self.on ==> next == self.spec_write_nr21(val)
        &&& addr == NR22 && self.on ==> next == self.spec_write_nr22(val)
        &&& addr == NR23 && self.on ==> next == self.spec_write_nr23(val)
        &&& addr == NR24 && self.on ==> next == self.spec_write_nr24(val)
        &&& addr == NR30 && self.on ==> next == self.spec_write_nr30(val)
        &&& addr == NR31 && self.on ==> next == self.spec_write_nr31(val)
        &&& addr == NR32 && self.on ==> next == self.spec_write_nr32(val)
        &&& addr == NR33 && self.on ==> next == self.spec_write_nr33(val)
        &&& addr == NR34 && self.on ==> next == self.spec_write_nr34(val)
        &&& addr == NR41 && self.on ==> next == self.spec_write_nr41(val)
        &&& addr == NR42 && self.on ==> next == self.spec_write_nr42(val)
        &&& addr == NR43 && self.on ==> next == self.spec_write_nr43(val)
        &&& addr == NR44 && self.on ==> next == self.spec_write_nr44(val)
        &&& addr == NR52 ==> next.on == (val & 0x80 != 0)
        &&& addr == NR52 && val & 0x80 != 0 ==> next == (Apu { on: true, ..self })
        &&& addr == NR52 && val & 0x80 == 0 ==> next.is_reset(self)
        &&& WAV_BEGIN <= addr <= WAV_END ==> {
            &&& next.ch3.ram@ == self.ch3.ram@.update(addr - WAV_BEGIN, val)
            &&& next.ch3.samples@ == self.ch3.samples@.update(2 * (addr - WAV_BEGIN), val >> 4u8).update(
                2 * (addr - WAV_BEGIN) + 1,
                val & 0xF,
            )
            &&& next == (Apu { ch3: Wave { ram: next.ch3.ram, samples: next.ch3.samples, ..self.ch3 }, ..self })
        }
        &&& addr == 0x15 || addr == 0x1F || (0x27 <= addr && addr < WAV_BEGIN) ==> next == self
        &&& !self.on && addr < NR50 ==> next == self
    }

    /// Writes an audio register (NR10 to NR52, wave RAM). Channel registers
    /// ignore writes while the unit is off.
    #[verifier::rlimit(40)]
    pub fn write_reg(&mut self, addr: u8, val: u8)
        requires
            old(self).wf(),
            NR10 <= addr <= WAV_END,
        ensures
            final(self).wf(),
            old(self).spec_reg_written(*final(self), addr, val),
    {
        proof { reveal(Apu::spec_reg_written); }
        let on = self.on();
        if addr == NR10 {
            if on {
                self.write_nr10(val);
            }
            return;
        }
        if addr == NR11 {
            if on {
                self.write_nr11(val);
            }
            return;
        }
        if addr == NR12 {
            if on {
                self.write_nr12(val);
            }
            return;
        }
        if addr == NR13 {
            if on {
                self.write_nr13(val);
            }
            return;
        }
        if addr == NR14 {
            if on {
                self.write_nr14(val);
            }
            return;
        }
        if addr == NR21 {
            if on {
                self.write_nr21(val);
            }
            return;
        }
        if addr == NR22 {
            if on {
                self.write_nr22(val);
            }
            return;
        }
        if addr == NR23 {
            if on {
                self.write_nr23(val);
            }
            return;
        }
        if addr == NR24 {
            if on {
                self.write_nr24(val);
            }
            return;
        }
        if addr == NR30 {
            if on {
                self.write_nr30(val);
            }
            return;
        }
        if addr == NR31 {
            if on {
                self.write_nr31(val);
            }
            return;
        }
        if addr == NR32 {
            if on {
                self.write_nr32(val);
            }
            return;
        }
        if addr == NR33 {
            if on {
                self.write_nr33(val);
            }
            return;
        }
        if addr == NR34 {
            if on {
                self.write_nr34(val);
            }
            return;
        }
        if addr == NR41 {
            if on {
                self.write_nr41(val);
            }
            return;
        }
        if addr == NR42 {
            if on {
                self.write_nr42(val);
            }
            return;
        }
        if addr == NR43 {
            if on {
                self.write_nr43(val);
            }
            return;
        }
        if addr == NR44 {
            if on {
                self.write_nr44(val);
            }
            return;
        }
        if addr == NR50 {
            self.write_nr50(val);
            return;
        }
        if addr == NR51 {
            self.write_nr51(val);
            return;
        }
        if addr == NR52 {
            self.write_nr52(val);
            return;
        }
        if WAV_BEGIN <= addr {
            self.write_wave_ram(addr, val);
            return;
        }
    }

}

impl Ppu {
    /// What a write of `val` to display register `addr` does to the display
    /// unit (`self` before, `next` after) and to IF (`ifr` before, `next_ifr`
    /// after). The color-model registers are ignored on monochrome hardware,
    /// and LY is read-only.
    #[verifier::opaque]
    pub open spec fn spec_reg_written(self, next: Ppu, addr: u8, val: u8, cgb: bool, ifr: u8, next_ifr: u8) -> bool {
        let turn_off = val & crate::ppu::LCDC_ON_B == 0 && self.lcdc & crate::ppu::LCDC_ON_B != 0;
        let turn_on = val & crate::ppu::LCDC_ON_B != 0 && self.lcdc & crate::ppu::LCDC_ON_B == 0;
        let st = crate::ppu::machine::spec_stat_with_mode(self.stat, Mode::OamScan);
        &&& addr != LCDC ==> next_ifr == ifr
        &&& addr == LCDC ==> {
            &&& next == (Ppu { lcdc: val, ly: next.ly, stat: next.stat, ppu_cycles: next.ppu_cycles, ..self })
            &&& turn_on ==> next.ly == 0 && next.stat == crate::ppu::machine::spec_lyc_stat(st, 0, self.lyc)
                && next.ppu_cycles == crate::ppu::OAM_SCAN_CYCLES
                && next_ifr == crate::ppu::machine::spec_lyc_ifr(ifr, st, 0, self.lyc)
            &&& turn_off ==> next.ly == 0 && next.stat == self.stat && next.ppu_cycles == self.ppu_cycles
                && next_ifr == ifr
            &&& !turn_on && !turn_off ==> next.ly == self.ly && next.stat == self.stat
                && next.ppu_cycles == self.ppu_cycles && next_ifr == ifr
        }
        &&& addr == STAT ==> next == (Ppu {
            stat: (val & !(crate::ppu::STAT_LYC_B | crate::ppu::STAT_MODE_B)) | (self.stat
                & crate::ppu::STAT_LYC_B) | self.mode().spec_bits(),
            ..self
        })
        &&& addr == SCY ==> next == (Ppu { scy: val, ..self })
        &&& addr == SCX ==> next == (Ppu { scx: val, ..self })
        &&& addr == LY ==> next == self
        &&& addr == LYC ==> next == (Ppu { lyc: val, ..self })
        &&& addr == BGP ==> next == (Ppu { bgp: val, ..self })
        &&& addr == OBP0 ==> next == (Ppu { obp0: val, ..self })
        &&& addr == OBP1 ==> next == (Ppu { obp1: val, ..self })
        &&& addr == WY ==> next == (Ppu { wy: val, ..self })
        &&& addr == WX ==> next == (Ppu { wx: val, ..self })
        &&& !cgb && (addr == VBK || BCPS <= addr <= OPRI) ==> next == self
        &&& cgb && addr == VBK ==> next == (Ppu { vbk: val & 1 != 0, ..self })
        &&& cgb && addr == BCPS ==> next == (Ppu { bcp: next.bcp, ..self }) && self.bcp.spec_spec_written(next.bcp, val)
        &&& cgb && addr == BCPD ==> next == (Ppu { bcp: next.bcp, ..self }) && self.bcp.spec_data_written(next.bcp, val)
        &&& cgb && addr == OCPS ==> next == (Ppu { ocp: next.ocp, ..self }) && self.ocp.spec_spec_written(next.ocp, val)
        &&& cgb && addr == OCPD ==> next == (Ppu { ocp: next.ocp, ..self }) && self.ocp.spec_data_written(next.ocp, val)
        &&& cgb && addr == OPRI ==> next == (Ppu { opri: val, ..self })
    }

    /// Writes a display register (LCDC to WX, VBK, palettes, OPRI).
    pub fn write_reg(&mut self, addr: u8, val: u8, cgb: bool, ifr: &mut u8)
        requires
            old(self).wf(),
            (LCDC <= addr <= WX && addr != DMA) || addr == VBK || BCPS <= addr <= OPRI,
        ensures
            final(self).wf(),
            old(self).spec_reg_written(*final(self), addr, val, cgb, *old(ifr), *final(ifr)),
    {
        proof { reveal(Ppu::spec_reg_written); }
        if addr == LCDC {
            self.write_lcdc(val, ifr);
            return;
        }
        if addr == STAT {
            self.write_stat(val);
            return;
        }
        if addr == SCY {
            self.write_scy(val);
            return;
        }
        if addr == SCX {
            self.write_scx(val);
            return;
        }
        if addr == LYC {
            self.write_lyc(val);
            return;
        }
        if addr == BGP {
            self.write_bgp(val);
            return;
        }
        if addr == OBP0 {
            self.write_obp0(val);
            return;
        }
        if addr == OBP1 {
            self.write_obp1(val);
            return;
        }
        if addr == WY {
            self.write_wy(val);
            return;
        }
        if addr == WX {
            self.write_wx(val);
            return;
        }
        if addr == VBK && cgb {
            self.write_vbk(val);
            return;
        }
        if addr == BCPS && cgb {
            self.bcp.set_spec(val);
            return;
        }
        if addr == BCPD && cgb {
            self.bcp.set_data(val);
            return;
        }
        if addr == OCPS && cgb {
            self.ocp.set_spec(val);
            return;
        }
        if addr == OCPD && cgb {
            self.ocp.set_data(val);
            return;
        }
        if addr == OPRI && cgb {
            self.write_opri(val);
            return;
        }
    }

}


/// A byte written to work RAM through the memory map reads back at the same
/// address.
pub proof fn law_wram_read_after_write(g: Gb, g2: Gb, addr: u16, val: u8)
    requires
        g.wf(),
        0xC000 <= addr <= 0xFDFF,
        g2.svbk_true == g.svbk_true,
        (0xC000 <= addr <= 0xCFFF || 0xE000 <= addr <= 0xEFFF) ==> g2.wram@ == g.wram@.update(wram_index(addr), val),
        (0xD000 <= addr <= 0xDFFF || 0xF000 <= addr <= 0xFDFF) ==> g2.wram@ == g.wram@.update(bank_index(addr, g.svbk_true), val),
    ensures
        g2.spec_read_mem(addr) == val,
{
    g.lemma_wf_elim();
    crate::bits::lemma_bank_bits(addr, g.svbk_true as u16);
    crate::bits::lemma_bank_bits(addr, 0);
}

/// A byte written to video RAM through the memory map reads back, unless
/// the display was drawing during the write or the read (then the write is
/// lost and the read gives 0xFF).
pub proof fn law_vram_read_after_write(g: Gb, g2: Gb, addr: u16, val: u8)
    requires
        0x8000 <= addr <= 0x9FFF,
        g.ppu.mode() != Mode::Drawing,
        g2.ppu.mode() != Mode::Drawing,
        g2.ppu.vbk == g.ppu.vbk,
        g2.ppu.vram@ == g.ppu.vram@.update(g.ppu.vram_index(addr), val),
    ensures
        g2.spec_read_mem(addr) == val,
{
    crate::bits::lemma_and_u16(addr, 0x1FFF);
}

/// A byte written to high RAM through the memory map reads back.
pub proof fn law_hram_read_after_write(g: Gb, g2: Gb, addr: u16, val: u8)
    requires
        0xFF80 <= addr <= 0xFFFE,
        g2.hram@ == g.hram@.update((addr & 0x7F) as int, val),
    ensures
        g2.spec_read_mem(addr) == val,
{
    crate::bits::lemma_high_ram_addr(addr);
    assert(g2.hram@[(addr & 0x7F) as int] == val);
}

/// Work RAM from 0xE000 to 0xFDFF echoes the 8 KiB below it.
pub proof fn law_echo_ram_mirrors(g: Gb, addr: u16)
    requires
        g.wf(),
        0xE000 <= addr <= 0xFDFF,
    ensures
        g.spec_read_mem(addr) == g.spec_read_mem((addr - 0x2000) as u16),
{
    g.lemma_wf_elim();
    crate::bits::lemma_bank_bits(addr, 0);
    crate::bits::lemma_bank_bits(addr, g.svbk_true as u16);
    crate::bits::lemma_bank_bits((addr - 0x2000) as u16, g.svbk_true as u16);
}

/// Two different work RAM banks never share a byte: what is written through
/// one bank is not seen through another.
pub proof fn law_wram_banks_disjoint(a1: u16, a2: u16, b1: u8, b2: u8)
    requires
        1 <= b1 <= 7,
        1 <= b2 <= 7,
        b1 != b2,
    ensures
        bank_index(a1, b1) != bank_index(a2, b2),
        0x1000 <= bank_index(a1, b1) < 0x8000,
{
    crate::bits::lemma_bank_bits(a1, b1 as u16);
    crate::bits::lemma_bank_bits(a2, b2 as u16);
}

} // verus!

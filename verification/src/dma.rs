//! The two DMA engines: OAM DMA, which copies 0xA0 bytes from `DMA * 0x100`
//! to OAM one byte per m-cycle, and VRAM DMA (CGB), which copies blocks of
//! 16 bytes to video RAM.
use vstd::prelude::*;
use crate::Gb;
use crate::memory::HdmaState;
use crate::ppu::{Mode, Ppu};

verus! {

impl Gb {
    /// The byte OAM DMA reads from `addr` while OAM holds `oam` and the
    /// transfer flag is `on`, the rest of the console being as in `self`.
    pub open spec fn spec_dma_read(self, addr: u16, oam: Seq<u8>, on: bool) -> u8 {
        if 0xFE00 <= addr <= 0xFE9F {
            if (self.ppu.mode() == Mode::HBlank || self.ppu.mode() == Mode::VBlank) && !on {
                oam[(addr & 0xFF) as int]
            } else {
                0xFF
            }
        } else {
            self.spec_read_mem(addr)
        }
    }

    /// OAM, source address, transfer flag and restart flag after `n` bytes
    /// of OAM DMA starting from `self`. Each byte is read from the source
    /// address and stored at the same offset of OAM; the transfer ends when
    /// the low byte of the source address reaches 0xA0.
    pub open spec fn spec_dma_copy(self, n: nat) -> (Seq<u8>, u16, bool, bool)
        decreases n,
    {
        if n == 0 {
            (self.ppu.oam@, self.dma_addr, self.dma_on, self.dma_restarting)
        } else {
            let (oam, a, on, rs) = self.spec_dma_copy((n - 1) as nat);
            let next: u16 = if a == 0xFFFF { 0 } else { (a + 1) as u16 };
            let done = next & 0xFF >= 0xA0;
            (oam.update((a & 0xFF) as int, self.spec_dma_read(a, oam, on)), next, on && !done, rs && !done)
        }
    }

    /// Whether `g` is `self` with only OAM and the OAM DMA state changed.
    pub open spec fn spec_dma_frame(self, g: Gb) -> bool {
        g == (Gb {
            ppu: Ppu { oam: g.ppu.oam, ..self.ppu },
            dma_addr: g.dma_addr,
            dma_on: g.dma_on,
            dma_restarting: g.dma_restarting,
            dma_cycles: g.dma_cycles,
            ..self
        })
    }

    /// A read through the memory map during OAM DMA gives what the transfer
    /// reads.
    proof fn lemma_dma_read(g0: Gb, g1: Gb, addr: u16)
        requires
            g0.spec_dma_frame(g1),
        ensures
            g1.spec_read_mem(addr) == g0.spec_dma_read(addr, g1.ppu.oam@, g1.dma_on),
    {
    }

    /// OAM DMA: copies one byte to OAM for every four t-cycles it has been
    /// given, until the 0xA0 bytes of OAM are done.
    pub fn run_dma(&mut self)
        requires
            old(self).wf(),
        ensures
            final(self).wf(),
            final(self).regs == old(self).regs,
            final(self).cart == old(self).cart,
            final(self).wram == old(self).wram,
            final(self).hram == old(self).hram,
            final(self).ints == old(self).ints,
            final(self).timer == old(self).timer,
            final(self).hdma_state == old(self).hdma_state,
            final(self).hdma_len == old(self).hdma_len,
            final(self).double_speed == old(self).double_speed,
            final(self).double_speed_request == old(self).double_speed_request,
            !old(self).dma_on ==> *final(self) == *old(self),
            old(self).dma_on ==> {
                let n: nat = if old(self).dma_cycles >= 4 { (old(self).dma_cycles / 4) as nat } else { 0 };
                &&& old(self).spec_dma_frame(*final(self))
                &&& final(self).dma_cycles == old(self).dma_cycles - 4 * n
                &&& (final(self).ppu.oam@, final(self).dma_addr, final(self).dma_on, final(self).dma_restarting)
                    == old(self).spec_dma_copy(n)
            },
    {
        if !self.dma_on {
            return;
        }
        let ghost g0 = *self;
        let ghost mut k: nat = 0;
        while self.dma_cycles >= 4
            invariant
                self.wf(),
                g0 == *old(self),
                g0.spec_dma_frame(*self),
                self.dma_cycles == g0.dma_cycles - 4 * k,
                g0.dma_cycles >= 4 ==> self.dma_cycles >= 0,
                g0.dma_cycles < 4 ==> k == 0,
                (self.ppu.oam@, self.dma_addr, self.dma_on, self.dma_restarting) == g0.spec_dma_copy(k),
            decreases self.dma_cycles,
        {
            proof { Gb::lemma_dma_read(g0, *self, self.dma_addr); }
            let ghost prev = *self;
            self.dma_cycles = self.dma_cycles - 4;
            let a = self.dma_addr;
            let val = self.read_mem(a);
            self.ppu.write_oam_direct(a, val);
            let next = a.wrapping_add(1);
            self.dma_addr = next;
            if next & 0xFF >= 0xA0 {
                self.dma_on = false;
                self.dma_restarting = false;
            }
            proof {
                assert(val == g0.spec_dma_read(a, prev.ppu.oam@, prev.dma_on));
                assert(next == (if a == 0xFFFF { 0 } else { (a + 1) as u16 }));
                assert(g0.spec_dma_frame(*self));
                k = k + 1;
                Gb::lemma_wf_dma(g0, *self);
            }
        }
    }

    /// The byte VRAM DMA reads from `addr` while video RAM holds `vram`, the
    /// rest of the console being as in `self`.
    pub open spec fn spec_hdma_read(self, addr: u16, vram: Seq<u8>) -> u8 {
        if 0x8000 <= addr <= 0x9FFF {
            if self.ppu.mode() == Mode::Drawing { 0xFF } else { vram[self.ppu.vram_index(addr)] }
        } else {
            self.spec_read_mem(addr)
        }
    }

    /// Video RAM after `n` bytes of VRAM DMA from `src` to `dst` starting
    /// from `self`: byte `j` is read at `src + j` and written at `dst + j`
    /// (writes are lost while the display unit draws).
    pub open spec fn spec_hdma_vram(self, src: u16, dst: u16, n: nat) -> Seq<u8>
        decreases n,
    {
        if n == 0 {
            self.ppu.vram@
        } else {
            let v = self.spec_hdma_vram(src, dst, (n - 1) as nat);
            let val = self.spec_hdma_read(Gb::spec_addr_add(src, n - 1), v);
            if self.ppu.mode() == Mode::Drawing {
                v
            } else {
                v.update(self.ppu.vram_index(Gb::spec_addr_add(dst, n - 1)), val)
            }
        }
    }

    /// During VRAM DMA only video RAM and the two addresses change, so a read
    /// through the memory map gives what the transfer reads.
    proof fn lemma_hdma_read(g: Gb, h: Gb, addr: u16)
        requires
            h == (Gb {
                ppu: Ppu { vram: h.ppu.vram, ..g.ppu },
                hdma_src: h.hdma_src,
                hdma_dst: h.hdma_dst,
                ..g
            }),
        ensures
            h.spec_read_mem(addr) == g.spec_hdma_read(addr, h.ppu.vram@),
    {
    }

    /// Takes the next piece of a VRAM DMA transfer: one block of 16 bytes of
    /// an H-blank transfer, or all of a general purpose one. Returns its
    /// length.
    fn hdma_take_block(&mut self) -> (len: u16)
        requires
            old(self).wf(),
            old(self).hdma_state == HdmaState::General || old(self).hdma_state == HdmaState::WaitHBlank,
        ensures
            final(self).wf(),
            *final(self) == (Gb {
                hdma_state: final(self).hdma_state,
                hdma_len: final(self).hdma_len,
                hdma5: final(self).hdma5,
                ..*old(self)
            }),
            len <= 0x800,
            old(self).hdma_state == HdmaState::General ==> len == old(self).hdma_len
                && final(self).hdma_state == HdmaState::Sleep && final(self).hdma_len == 0 && final(self).hdma5 == 0xFF,
            old(self).hdma_state == HdmaState::WaitHBlank ==> len == 0x10 && final(self).hdma_len == old(self).hdma_len - 0x10
                && final(self).hdma_state == (if old(self).hdma_len == 0x10 { HdmaState::Sleep } else { HdmaState::HBlankDone })
                && final(self).hdma5 == (if old(self).hdma_len == 0x10 { 0xFFu8 } else { ((old(self).hdma_len - 0x10) / 0x10 - 1) as u8 }),
    {
        proof { self.lemma_wf_elim(); }
        let ghost g0 = *self;
        let len: u16 = if self.hdma_state == HdmaState::WaitHBlank {
            self.hdma_len = self.hdma_len - 0x10;
            self.hdma_state = if self.hdma_len == 0 { HdmaState::Sleep } else { HdmaState::HBlankDone };
            let blocks = self.hdma_len / 0x10;
            self.hdma5 = if blocks == 0 { 0xFF } else { (blocks - 1) as u8 };
            0x10
        } else {
            self.hdma_state = HdmaState::Sleep;
            self.hdma5 = 0xFF;
            let l = self.hdma_len;
            self.hdma_len = 0;
            l
        };
        proof { Gb::lemma_wf_hdma(g0, *self); }
        len
    }

    /// Copies `len` bytes of VRAM DMA from the source to the destination
    /// address, then lets the time of the transfer pass.
    #[verifier::spinoff_prover]
    #[verifier::rlimit(60)]
    fn hdma_copy(&mut self, len: u16)
        requires
            old(self).wf(),
            len <= 0x800,
        ensures
            final(self).wf(),
            final(self).regs == old(self).regs,
            final(self).double_speed == old(self).double_speed,
            final(self).double_speed_request == old(self).double_speed_request,
            final(self).halt_bug == old(self).halt_bug,
            final(self).hdma_state == old(self).hdma_state,
            final(self).hdma_len == old(self).hdma_len,
            final(self).hdma5 == old(self).hdma5,
            final(self).hdma_src == Gb::spec_addr_add(old(self).hdma_src, len as int),
            final(self).hdma_dst == Gb::spec_addr_add(old(self).hdma_dst, len as int),
            final(self).ppu.vram@ == old(self).spec_hdma_vram(old(self).hdma_src, old(self).hdma_dst, len as nat),
    {
        let ghost g1 = *self;
        let ghost src0 = self.hdma_src;
        let ghost dst0 = self.hdma_dst;
        let ghost st = self.hdma_state;
        let ghost hl = self.hdma_len;
        let ghost h5 = self.hdma5;
        let mut i: u16 = 0;
        while i < len
            invariant
                self.wf(),
                self.regs == old(self).regs,
                g1 == *old(self),
                self.double_speed == old(self).double_speed,
                self.double_speed_request == old(self).double_speed_request,
                self.hdma_state == st,
                self.hdma_len == hl,
                self.hdma5 == h5,
                self.hdma_src == Gb::spec_addr_add(src0, i as int),
                self.hdma_dst == Gb::spec_addr_add(dst0, i as int),
                i <= len,
                len <= 0x800,
                self.halt_bug == old(self).halt_bug,
                *self == (Gb {
                    ppu: Ppu { vram: self.ppu.vram, ..g1.ppu },
                    hdma_src: self.hdma_src,
                    hdma_dst: self.hdma_dst,
                    ..g1
                }),
                self.ppu.vram@ == g1.spec_hdma_vram(src0, dst0, i as nat),
            decreases len - i,
        {
            proof { Gb::lemma_hdma_read(g1, *self, self.hdma_src); }
            let val = self.read_mem(self.hdma_src);
            self.ppu.write_vram(self.hdma_dst, val);
            self.hdma_dst = self.hdma_dst.wrapping_add(1);
            self.hdma_src = self.hdma_src.wrapping_add(1);
            i = i + 1;
            proof {
                Gb::lemma_wf_vram(g1, *self);
                assert(self.ppu.vram@ == g1.spec_hdma_vram(src0, dst0, i as nat));
            }
        }
        let t: i32 = if self.double_speed { len as i32 * 4 } else { len as i32 * 2 };
        self.advance_t_cycles(t);
    }

    /// `a + n` on 16-bit addresses.
    pub open spec fn spec_addr_add(a: u16, n: int) -> u16 {
        ((a as int + n) % 0x10000) as u16
    }

    /// VRAM DMA: a general purpose transfer copies everything at once; an
    /// H-blank transfer copies one block of 16 bytes per H-blank. Source and
    /// destination move on by the bytes copied, and the CPU waits two
    /// t-cycles per byte (four in double speed) while the other components
    /// run.
    #[verifier::rlimit(30)]
    pub fn run_hdma(&mut self)
        requires
            old(self).wf(),
        ensures
            final(self).wf(),
            final(self).regs == old(self).regs,
            final(self).double_speed == old(self).double_speed,
            final(self).double_speed_request == old(self).double_speed_request,
            final(self).halt_bug == old(self).halt_bug,
            ({
                let hblank = old(self).ppu.mode() == Mode::HBlank;
                let st = old(self).hdma_state;
                let len = old(self).hdma_len;
                &&& st == HdmaState::Sleep ==> *final(self) == *old(self)
                &&& st == HdmaState::WaitHBlank && !hblank ==> *final(self) == *old(self)
                &&& st == HdmaState::HBlankDone ==> *final(self) == (if hblank {
                    *old(self)
                } else {
                    Gb { hdma_state: HdmaState::WaitHBlank, ..*old(self) }
                })
                &&& st == HdmaState::General ==> {
                    &&& final(self).hdma_state == HdmaState::Sleep
                    &&& final(self).hdma_len == 0
                    &&& final(self).hdma5 == 0xFF
                    &&& final(self).hdma_src == Gb::spec_addr_add(old(self).hdma_src, len as int)
                    &&& final(self).hdma_dst == Gb::spec_addr_add(old(self).hdma_dst, len as int)
                    &&& final(self).ppu.vram@ == (Gb {
                        hdma_state: final(self).hdma_state,
                        hdma_len: final(self).hdma_len,
                        hdma5: final(self).hdma5,
                        ..*old(self)
                    }).spec_hdma_vram(old(self).hdma_src, old(self).hdma_dst, len as nat)
                }
                &&& st == HdmaState::WaitHBlank && hblank ==> {
                    &&& final(self).hdma_len == len - 0x10
                    &&& final(self).hdma_state == (if len == 0x10 { HdmaState::Sleep } else { HdmaState::HBlankDone })
                    &&& final(self).hdma5 == (if len == 0x10 { 0xFFu8 } else { ((len - 0x10) / 0x10 - 1) as u8 })
                    &&& final(self).hdma_src == Gb::spec_addr_add(old(self).hdma_src, 0x10)
                    &&& final(self).hdma_dst == Gb::spec_addr_add(old(self).hdma_dst, 0x10)
                    &&& final(self).ppu.vram@ == (Gb {
                        hdma_state: final(self).hdma_state,
                        hdma_len: final(self).hdma_len,
                        hdma5: final(self).hdma5,
                        ..*old(self)
                    }).spec_hdma_vram(old(self).hdma_src, old(self).hdma_dst, 0x10)
                }
            }),
    {
        proof { self.lemma_wf_elim(); }
        match self.hdma_state {
            HdmaState::General => {},
            HdmaState::WaitHBlank => {
                if self.ppu.ppu_mode() != Mode::HBlank {
                    return;
                }
            },
            HdmaState::HBlankDone => {
                if self.ppu.ppu_mode() != Mode::HBlank {
                    self.hdma_state = HdmaState::WaitHBlank;
                    proof { self.lemma_wf_intro(); }
                }
                return;
            },
            HdmaState::Sleep => {
                return;
            },
        }
        let ghost g0 = *self;
        let len = self.hdma_take_block();
        let ghost g1 = *self;
        self.hdma_copy(len);
        proof {
            assert(g0 == *old(self));
            assert(g1 == (Gb { hdma_state: self.hdma_state, hdma_len: self.hdma_len, hdma5: self.hdma5, ..g0 }));
        }
    }
}

/// OAM DMA from a page of work RAM copies it byte for byte: after `n` of the
/// 0xA0 bytes, OAM offset `i < n` holds the byte at offset `i` of the page,
/// the source address has moved on by `n`, and the transfer runs until the
/// last byte is copied.
pub proof fn law_oam_dma_copies_page(g: Gb, n: nat, i: int)
    requires
        g.dma_on,
        g.dma_addr & 0xFF == 0,
        0xC000 <= g.dma_addr <= 0xDF00,
        n <= 0xA0,
    ensures
        g.spec_dma_copy(n).1 == g.dma_addr + n,
        g.spec_dma_copy(n).2 == (n < 0xA0),
        0 <= i < n ==> g.spec_dma_copy(n).0[i] == g.spec_read_mem((g.dma_addr + i) as u16),
        g.spec_dma_copy(n).0.len() == g.ppu.oam@.len(),
    decreases n,
{
    if n > 0 {
        let m = (n - 1) as nat;
        law_oam_dma_copies_page(g, m, i);
        let (oam, a, on, rs) = g.spec_dma_copy(m);
        crate::bits::lemma_page_offset(g.dma_addr, m as u16);
        crate::bits::lemma_page_offset(g.dma_addr, n as u16);
        assert(a == g.dma_addr + m);
        assert(a & 0xFF == m);
        if 0 <= i < m {
            assert(g.spec_dma_copy(n).0[i] == oam[i]);
        }
    }
}

} // verus!

//! The serial port. No link partner is ever connected: bits shifted in are 1.
use vstd::prelude::*;
use crate::interrupts::{Interrupts, SERIAL};
use crate::CompatMode;

verus! {

/// Transfer start flag of SC.
pub const START: u8 = 0x80;
/// Clock speed flag of SC (CGB only).
pub const SPEED: u8 = 0x2;
/// Shift clock flag of SC: set when this console drives the clock.
pub const SHIFT: u8 = 0x1;

/// Serial transfer registers SB and SC.
pub struct Serial {
    pub sc: u8,
    pub sb: u8,
    pub count: u8,
    pub div_mask: u8,
    pub master_clock: bool,
}

impl Serial {
    /// Bits shifted so far are always fewer than eight.
    pub open spec fn wf(&self) -> bool {
        self.count <= 7
    }

    /// Idle port.
    pub(crate) fn new() -> (r: Self)
        ensures
            r.wf(),
            r.sc == 0 && r.sb == 0 && r.count == 0 && r.div_mask == 0 && !r.master_clock,
    {
        Serial { sc: 0, sb: 0, count: 0, div_mask: 0, master_clock: false }
    }

    /// One edge of the internal serial clock.
    ///
    /// On every second edge, while a transfer driven by the internal clock
    /// is in progress, one bit is shifted; the eighth bit ends the transfer
    /// and requests the serial interrupt.
    pub(crate) fn run_master(&mut self, ints: &mut Interrupts)
        requires
            old(self).wf(),
        ensures
            final(self).wf(),
            final(self).master_clock == !old(self).master_clock,
            final(self).div_mask == old(self).div_mask,
            final(ints).ie == old(ints).ie,
            final(ints).ime == old(ints).ime,
            ({
                let shifting = old(self).master_clock && old(self).sc & (START | SHIFT) == (
                START | SHIFT);
                let done = shifting && old(self).count == 7;
                &&& shifting ==> final(self).sb == ((old(self).sb << 1u8) | 1)
                &&& !shifting ==> final(self).sb == old(self).sb && final(self).sc == old(self).sc
                    && final(self).count == old(self).count
                &&& shifting && !done ==> final(self).count == old(self).count + 1
                    && final(self).sc == old(self).sc
                &&& done ==> final(self).count == 0 && final(self).sc == old(self).sc & !START
                &&& final(ints).ifr == (if done {
                    old(ints).ifr | SERIAL
                } else {
                    old(ints).ifr
                })
            }),
    {
        self.master_clock = !self.master_clock;

        if !self.master_clock && (self.sc & (START | SHIFT) == (START | SHIFT)) {
            self.count += 1;
            if self.count > 7 {
                self.count = 0;
                ints.req_serial();
                self.sc &= !START;
            }
            self.sb = self.sb << 1u8;
            self.sb |= 1;
        }
    }

    /// The divider bit that clocks the port.
    pub(crate) fn div_mask(&self) -> (r: u8)
        ensures
            r == self.div_mask,
    {
        self.div_mask
    }

    /// Reads SB.
    pub(crate) fn read_sb(&self) -> (r: u8)
        ensures
            r == self.sb,
    {
        self.sb
    }

    /// Reads SC: the six bits between the clock select and the start flag
    /// read as 1.
    pub(crate) fn read_sc(&self) -> (r: u8)
        ensures
            r == self.sc | 0x7E,
    {
        self.sc | 0x7E
    }

    /// Writes SB.
    pub(crate) fn write_sb(&mut self, val: u8)
        ensures
            final(self).sb == val,
            final(self).sc == old(self).sc,
            final(self).count == old(self).count,
            final(self).div_mask == old(self).div_mask,
            final(self).master_clock == old(self).master_clock,
    {
        self.sb = val;
    }

    /// What a write of `val` to SC does (`self` before, `next` after; IF as
    /// `ifr` before and `next_ifr` after). Unused bits read as 1; on CGB the
    /// speed bit selects the fast clock. The bit counter restarts, and a
    /// write on the second half of a clock period shifts a bit at once.
    pub open spec fn spec_sc_written(self, next: Serial, val: u8, mode: CompatMode, ifr: u8, next_ifr: u8) -> bool {
        let v = if mode == CompatMode::Cgb { val | 2 } else { val };
        let sc = v | !(START | SPEED | SHIFT);
        let mask: u8 = if mode == CompatMode::Cgb && v & SPEED != 0 { 4 } else { 0x80 };
        let shifting = self.master_clock && sc & (START | SHIFT) == (START | SHIFT);
        &&& next.sc == sc
        &&& next.div_mask == mask
        &&& !next.master_clock
        &&& next.count == (if shifting { 1u8 } else { 0u8 })
        &&& next.sb == (if shifting { ((self.sb << 1u8) | 1) } else { self.sb })
        &&& next_ifr == ifr
    }

    /// Writes SC.
    pub(crate) fn write_sc(&mut self, val: u8, ints: &mut Interrupts, mode: CompatMode)
        requires
            old(self).wf(),
        ensures
            final(self).wf(),
            old(self).spec_sc_written(*final(self), val, mode, old(ints).ifr, final(ints).ifr),
            final(ints).ie == old(ints).ie,
            final(ints).ime == old(ints).ime,
    {
        self.count = 0;
        let mut val = val;
        if mode == CompatMode::Cgb {
            val |= 2;
        }
        self.sc = val | !(START | SPEED | SHIFT);
        self.div_mask = if mode == CompatMode::Cgb && val & SPEED != 0 {
            4
        } else {
            0x80
        };
        if self.master_clock {
            self.run_master(ints);
        }
    }
}

} // verus!

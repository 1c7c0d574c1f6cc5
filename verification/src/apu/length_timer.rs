//! Length counter: silences a channel after a programmed number of
//! length clocks.
use vstd::prelude::*;
use super::PHalf;

verus! {

/// Length counter with a maximum length of `MAX_LEN` clocks.
pub struct LengthTimer<const MAX_LEN: u16> {
    pub on: bool,
    pub len: u16,
    pub p_half: PHalf,
}

impl<const MAX_LEN: u16> LengthTimer<MAX_LEN> {
    /// The remaining length never exceeds the maximum.
    pub open spec fn wf(&self) -> bool {
        self.len <= MAX_LEN
    }

    /// Counter and enable after one length clock: an enabled counter counts
    /// down and disables the channel when it reaches zero.
    pub open spec fn spec_step(&self, on: bool) -> (Self, bool) {
        if self.on && self.len > 0 {
            let len = (self.len - 1) as u16;
            (LengthTimer { len, ..*self }, if len == 0 { false } else { on })
        } else {
            (*self, on)
        }
    }

    /// Counter and enable after bit 6 of NRx4 is written: enabling the
    /// counter during the first half of a length period clocks it once.
    pub open spec fn spec_write_on(&self, val: u8, on: bool) -> (Self, bool) {
        let en = LengthTimer::<MAX_LEN> { on: val & 0x40 != 0, ..*self };
        if !self.on && self.p_half == PHalf::First {
            en.spec_step(on)
        } else {
            (en, on)
        }
    }

    /// Counter after the length bits of NRx1 are written.
    pub open spec fn spec_write_len(&self, val: u8) -> Self {
        LengthTimer::<MAX_LEN> { len: (MAX_LEN - ((val as u16) & ((MAX_LEN - 1) as u16))) as u16, ..*self }
    }

    /// Counter and enable after a channel trigger: an expired counter is
    /// reloaded with the maximum length, and clocked once during the first
    /// half of a length period.
    pub open spec fn spec_trigger(&self, on: bool) -> (Self, bool) {
        let re = LengthTimer::<MAX_LEN> { len: MAX_LEN, ..*self };
        if self.len != 0 {
            (*self, on)
        } else if self.p_half == PHalf::First {
            re.spec_step(on)
        } else {
            (re, on)
        }
    }

    /// Counter once the frame sequencer enters length-period half `p_half`.
    pub open spec fn spec_set_phalf(self, p_half: PHalf) -> Self {
        LengthTimer::<MAX_LEN> { p_half, ..self }
    }

    /// Disabled counter.
    pub(crate) fn new() -> (r: Self)
        ensures
            r.wf(),
            !r.on && r.len == 0 && r.p_half == PHalf::First,
    {
        LengthTimer { on: false, len: 0, p_half: PHalf::First }
    }

    /// Bit 6 of NRx4: whether the counter is enabled.
    pub(crate) fn read_on(&self) -> (r: u8)
        ensures
            r == (if self.on { 0x40u8 } else { 0u8 }),
    {
        if self.on { 0x40 } else { 0 }
    }

    /// Writes bit 6 of NRx4. Enabling the counter during the first half of
    /// a length period clocks it once.
    pub(crate) fn write_on(&mut self, val: u8, on: &mut bool)
        requires
            old(self).wf(),
        ensures
            final(self).wf(),
            (*final(self), *final(on)) == old(self).spec_write_on(val, *old(on)),
    {
        let was_off = !self.on;
        self.on = val & 0x40 != 0;
        if was_off && self.p_half == PHalf::First {
            self.step(on);
        }
    }

    /// Writes the length bits of NRx1: the counter is loaded with
    /// `MAX_LEN` minus the written length.
    pub(crate) fn write_len(&mut self, val: u8)
        requires
            MAX_LEN > 0,
        ensures
            final(self).wf(),
            *final(self) == old(self).spec_write_len(val),
            final(self).len >= 1,
    {
        let v = val as u16;
        let m: u16 = MAX_LEN - 1;
        proof { crate::bits::lemma_and_u16(v, m); }
        self.len = MAX_LEN - (v & m);
    }

    /// Channel trigger: an expired counter is reloaded with the maximum
    /// length, and clocked once during the first half of a length period.
    pub(crate) fn trigger(&mut self, on: &mut bool)
        requires
            old(self).wf(),
            MAX_LEN > 0,
        ensures
            final(self).wf(),
            (*final(self), *final(on)) == old(self).spec_trigger(*old(on)),
    {
        if self.len == 0 {
            self.len = MAX_LEN;
            if self.p_half == PHalf::First {
                self.step(on);
            }
        }
    }

    /// One length clock.
    pub(crate) fn step(&mut self, on: &mut bool)
        requires
            old(self).wf(),
        ensures
            final(self).wf(),
            (*final(self), *final(on)) == old(self).spec_step(*old(on)),
    {
        if self.on && self.len > 0 {
            self.len -= 1;
            if self.len == 0 {
                *on = false;
            }
        }
    }

    /// Records which half of the length period the frame sequencer is in.
    pub(crate) fn set_phalf(&mut self, p_half: PHalf)
        ensures
            *final(self) == old(self).spec_set_phalf(p_half),
    {
        self.p_half = p_half;
    }
}

} // verus!

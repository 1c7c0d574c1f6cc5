//! Volume envelope shared by the square and noise channels.
use vstd::prelude::*;

verus! {

/// Direction in which the envelope moves the volume.
#[derive(Clone, Copy, PartialEq, Eq, Structural, Debug)]
pub enum EnvelopeDirection {
    /// Volume goes down.
    Dec,
    /// Volume goes up.
    Inc,
}

impl EnvelopeDirection {
    /// Bit 3 of NRx2 selects the direction.
    pub(crate) fn from_u8(val: u8) -> (r: Self)
        ensures
            r == (if val & 8 == 0 { EnvelopeDirection::Dec } else { EnvelopeDirection::Inc }),
    {
        if val & 8 == 0 {
            Self::Dec
        } else {
            Self::Inc
        }
    }

    /// The direction as it reads back in bit 3 of NRx2.
    pub(crate) fn to_u8(self) -> (r: u8)
        ensures
            r == self.spec_bits(),
    {
        match self {
            Self::Dec => 0,
            Self::Inc => 8,
        }
    }

    /// Bit 3 of NRx2 for this direction.
    pub open spec fn spec_bits(self) -> u8 {
        match self {
            EnvelopeDirection::Dec => 0u8,
            EnvelopeDirection::Inc => 8u8,
        }
    }
}

/// Volume envelope.
#[derive(PartialEq, Eq, Structural, Debug)]
pub struct Envelope {
    pub on: bool,
    pub inc: EnvelopeDirection,
    pub vol: u8,
    pub vol_init: u8,
    pub period: u8,
    pub timer: u8,
}

impl Envelope {
    /// Volumes are four bits wide, the period three, and the timer never
    /// passes the period.
    pub open spec fn wf(&self) -> bool {
        &&& self.vol <= 15
        &&& self.vol_init <= 15
        &&& self.period <= 7
        &&& self.timer <= self.period
    }

    /// The envelope after NRx2 is written.
    pub open spec fn spec_write(&self, val: u8) -> Envelope {
        Envelope {
            period: val & 7,
            on: val & 7 != 0,
            timer: 0,
            inc: if val & 8 == 0 { EnvelopeDirection::Dec } else { EnvelopeDirection::Inc },
            vol_init: val >> 4u8,
            vol: val >> 4u8,
        }
    }

    /// The envelope after one envelope clock.
    pub open spec fn spec_step(&self) -> Envelope {
        if !self.on {
            *self
        } else if (self.inc == EnvelopeDirection::Inc && self.vol == 15) || (self.inc
            == EnvelopeDirection::Dec && self.vol == 0) {
            Envelope { on: false, ..*self }
        } else if self.timer + 1 > self.period {
            Envelope {
                timer: 0,
                vol: if self.inc == EnvelopeDirection::Inc {
                    (self.vol + 1) as u8
                } else {
                    (self.vol - 1) as u8
                },
                ..*self
            }
        } else {
            Envelope { timer: (self.timer + 1) as u8, ..*self }
        }
    }

    /// The envelope after a channel trigger: back to its initial volume.
    pub open spec fn spec_trigger(&self) -> Envelope {
        Envelope { timer: 0, vol: self.vol_init, ..*self }
    }

    /// What NRx2 reads.
    pub open spec fn spec_read(&self) -> u8 {
        (self.vol_init << 4u8) | self.inc.spec_bits() | self.period
    }

    /// Silent envelope.
    pub(crate) fn new() -> (r: Self)
        ensures
            r.wf(),
            !r.on && r.inc == EnvelopeDirection::Dec,
            r.vol == 0 && r.vol_init == 0 && r.period == 0 && r.timer == 0,
    {
        Envelope {
            on: false,
            inc: EnvelopeDirection::Dec,
            vol: 0,
            vol_init: 0,
            period: 0,
            timer: 0,
        }
    }

    /// Reads NRx2.
    pub(crate) fn read(&self) -> (r: u8)
        requires
            self.wf(),
        ensures
            r == self.spec_read(),
    {
        (self.vol_init << 4u8) | self.inc.to_u8() | self.period
    }

    /// Writes NRx2: initial volume (bits 4-7), direction (bit 3) and
    /// period (bits 0-2). A zero period stops the envelope.
    pub(crate) fn write(&mut self, val: u8)
        ensures
            *final(self) == old(self).spec_write(val),
            final(self).wf(),
    {
        self.period = val & 7;
        self.on = self.period != 0;
        self.timer = 0;
        self.inc = EnvelopeDirection::from_u8(val);
        self.vol_init = val >> 4u8;
        self.vol = self.vol_init;
        proof { crate::bits::lemma_and_u8(val, 7); crate::bits::lemma_shr_u8(val); }
    }

    /// One envelope clock: the volume moves one step every `period + 1`
    /// clocks and the envelope stops at either end of the range.
    pub(crate) fn step(&mut self)
        requires
            old(self).wf(),
        ensures
            *final(self) == old(self).spec_step(),
            final(self).wf(),
    {
        if !self.on {
            return;
        }
        if self.inc == EnvelopeDirection::Inc && self.vol == 0xF || self.inc
            == EnvelopeDirection::Dec && self.vol == 0 {
            self.on = false;
            return;
        }
        self.timer += 1;
        if self.timer > self.period {
            self.timer = 0;
            match self.inc {
                EnvelopeDirection::Inc => self.vol += 1,
                EnvelopeDirection::Dec => self.vol -= 1,
            }
        }
    }

    /// Restarts the envelope at its initial volume.
    pub(crate) fn trigger(&mut self)
        requires
            old(self).wf(),
        ensures
            *final(self) == old(self).spec_trigger(),
            final(self).wf(),
    {
        self.timer = 0;
        self.vol = self.vol_init;
    }

    /// Current volume, between 0 and 15.
    pub(crate) fn vol(&self) -> (r: u8)
        requires
            self.wf(),
        ensures
            r == self.vol,
            r <= 15,
    {
        self.vol
    }
}

/// Reading NRx2 gives back the byte last written to it.
pub proof fn law_envelope_read_after_write(e: Envelope, val: u8)
    ensures
        e.spec_write(val).spec_read() == val,
{
    assert(val & 8 == 0 || val & 8 == 8) by (bit_vector);
    assert(((val >> 4u8) << 4u8) | (val & 8) | (val & 7) == val) by (bit_vector);
}

} // verus!

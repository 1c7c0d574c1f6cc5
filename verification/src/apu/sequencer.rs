//! The frame sequencer: clocks length counters, sweep and envelopes at 512 Hz.
use vstd::prelude::*;
use super::{Apu, seq_square, seq_wave, seq_noise};

verus! {

impl Apu {
    /// What one frame-sequencer step does (`self` before, `next` after).
    pub open spec fn spec_seq_stepped(self, next: Apu) -> bool {
        &&& !self.on ==> next.same_as(self)
        &&& self.on ==> {
            &&& next.ch1.ab == seq_square(self.ch1.ab, self.seq_step, true)
            &&& next.ch2.ab == seq_square(self.ch2.ab, self.seq_step, false)
            &&& next.ch3 == seq_wave(self.ch3, self.seq_step)
            &&& next.ch4 == seq_noise(self.ch4, self.seq_step)
            &&& next.seq_step == ((self.seq_step + 1) as u8) & 7
            &&& next.same_regs(Apu { seq_step: next.seq_step, ..self })
        }
    }

    /// One frame-sequencer step (512 Hz): while the unit is on, length
    /// counters are clocked on even steps, the sweep on steps 0 and 4 and
    /// the envelopes on step 7.
    pub fn step_seq(&mut self)
        requires
            old(self).wf(),
        ensures
            final(self).wf(),
            old(self).spec_seq_stepped(*final(self)),
    {
        if !self.on() {
            return;
        }
        proof {
            reveal(super::square::Square1::wf);
            reveal(super::square::Square2::wf);
        }
        let step = self.seq_step;
        self.ch1.ab.seq_step(step, true);
        self.ch2.ab.seq_step(step, false);
        self.ch3.seq_step(step);
        self.ch4.seq_step(step);
        let n = step + 1;
        proof { crate::bits::lemma_and_u8(n, 7); }
        self.seq_step = n & 7;
    }
}

} // verus!

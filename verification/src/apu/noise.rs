//! The noise channel: a 15-bit linear feedback shift register.
use vstd::prelude::*;
use super::PHalf;
use super::envelope::Envelope;
use super::length_timer::LengthTimer;

verus! {

/// The noise channel.
pub struct Noise {
    pub ltimer: LengthTimer<64>,
    pub env: Envelope,
    pub on: bool,
    pub dac_on: bool,
    pub timer: i32,
    pub timer_period: u16,
    /// Linear feedback shift register.
    pub lfsr: u16,
    pub wide_step: bool,
    pub out: u8,
    pub nr43: u8,
}

/// Clock divisor selected by bits 0-2 of NR43.
pub open spec fn spec_divisor(code: u8) -> u16 {
    if code == 0 { 8 }
    else if code == 1 { 16 }
    else if code == 2 { 32 }
    else if code == 3 { 48 }
    else if code == 4 { 64 }
    else if code == 5 { 80 }
    else if code == 6 { 96 }
    else { 112 }
}

/// The shift register after one clock: the exclusive or of its two lowest
/// bits is shifted in at bit 14 and, in 7-bit mode, also at bit 6.
pub open spec fn spec_lfsr_next(lfsr: u16, wide_step: bool) -> u16 {
    let x = (lfsr & 1) ^ ((lfsr & 2) >> 1u16);
    let l = (lfsr >> 1u16) | (x << 14u16);
    if wide_step { l | (x << 6u16) } else { l }
}

impl Noise {
    /// Field ranges; the shift register is 15 bits wide.
    #[verifier::opaque]
    pub open spec fn wf(&self) -> bool {
        &&& self.ltimer.wf()
        &&& self.env.wf()
        &&& self.out <= 1
        &&& self.lfsr <= 0x7FFF
    }

    /// What NR44 reads: length enable in bit 6.
    pub open spec fn spec_read_nr44(&self) -> u8 {
        0xBF | (if self.ltimer.on { 0x40u8 } else { 0u8 })
    }

    /// Channel after NR41 is written: length.
    pub open spec fn spec_write_nr41(self, val: u8) -> Self {
        Noise { ltimer: self.ltimer.spec_write_len(val), ..self }
    }

    /// Channel after NR42 is written: envelope and DAC.
    pub open spec fn spec_write_nr42(self, val: u8) -> Self {
        let dac_on = val & 0xF8 != 0;
        Noise { on: if dac_on { self.on } else { false }, dac_on, env: self.env.spec_write(val), ..self }
    }

    /// Channel after NR43 is written: the timer period is the divisor
    /// shifted left by the clock shift (bits 4-7), truncated to 16 bits.
    pub open spec fn spec_write_nr43(self, val: u8) -> Self {
        Noise {
            nr43: val,
            wide_step: val & 8 != 0,
            timer_period: spec_divisor(val & 7) << (val >> 4u8),
            timer: 1,
            ..self
        }
    }

    /// Channel after NR44 is written: length enable and, with bit 7 set, a
    /// trigger that reloads the timer and fills the shift register with ones.
    pub open spec fn spec_write_nr44(self, val: u8) -> Self {
        let (lt1, on1) = self.ltimer.spec_write_on(val, self.on);
        if val & 0x80 != 0 {
            let on2 = if self.dac_on { true } else { on1 };
            let (lt2, on3) = lt1.spec_trigger(on2);
            Noise {
                ltimer: lt2,
                on: on3,
                timer: self.timer_period as i32,
                lfsr: 0x7FFF,
                env: self.env.spec_trigger(),
                ..self
            }
        } else {
            Noise { ltimer: lt1, on: on1, ..self }
        }
    }

    /// Channel after `cycles` t-cycles: each expiry of the timer clocks the
    /// shift register; the output is the inverted lowest bit.
    pub open spec fn spec_step_sample(self, cycles: i32) -> Self {
        if !(self.on && self.dac_on) {
            self
        } else {
            let t = self.timer.wrapping_sub(cycles);
            if t < 0 {
                let l = spec_lfsr_next(self.lfsr, self.wide_step);
                Noise {
                    timer: (t + self.timer_period) as i32,
                    lfsr: l,
                    out: if l & 1 == 0 { 1 } else { 0 },
                    ..self
                }
            } else {
                Noise { timer: t, ..self }
            }
        }
    }

    /// Channel after one envelope clock.
    pub open spec fn spec_step_env(self) -> Self {
        if self.on { Noise { env: self.env.spec_step(), ..self } } else { self }
    }

    /// Channel once the frame sequencer enters length-period half `p_half`.
    pub open spec fn spec_set_period_half(self, p_half: PHalf) -> Self {
        Noise { ltimer: self.ltimer.spec_set_phalf(p_half), ..self }
    }

    /// Channel after one length clock.
    pub open spec fn spec_step_len(self) -> Self {
        let (ltimer, on) = self.ltimer.spec_step(self.on);
        Noise { ltimer, on, ..self }
    }

    /// Silent channel.
    pub(crate) fn new() -> (r: Self)
        ensures
            r.wf(),
            !r.on && !r.dac_on && r.out == 0 && r.lfsr == 0x7FFF,
            r.timer == 1 && r.timer_period == 0 && r.nr43 == 0 && !r.wide_step,
    {
        proof {
            reveal(Noise::wf);
        }
        Noise {
            on: false,
            dac_on: false,
            ltimer: LengthTimer::new(),
            env: Envelope::new(),
            timer: 1,
            timer_period: 0,
            lfsr: 0x7FFF,
            wide_step: false,
            out: 0,
            nr43: 0,
        }
    }

    pub(crate) fn read_nr42(&self) -> (r: u8)
        requires
            self.wf(),
        ensures
            r == self.env.spec_read(),
    {
        proof {
            reveal(Noise::wf);
        }
        self.env.read()
    }

    pub(crate) fn read_nr43(&self) -> (r: u8)
        ensures
            r == self.nr43,
    {
        proof {
            reveal(Noise::wf);
        }
        self.nr43
    }

    pub(crate) fn read_nr44(&self) -> (r: u8)
        ensures
            r == self.spec_read_nr44(),
    {
        proof {
            reveal(Noise::wf);
        }
        0xBF | self.ltimer.read_on()
    }

    pub(crate) fn write_nr41(&mut self, val: u8)
        requires
            old(self).wf(),
        ensures
            final(self).wf(),
            *final(self) == old(self).spec_write_nr41(val),
    {
        proof {
            reveal(Noise::wf);
        }
        self.ltimer.write_len(val);
    }

    pub(crate) fn write_nr42(&mut self, val: u8)
        requires
            old(self).wf(),
        ensures
            final(self).wf(),
            *final(self) == old(self).spec_write_nr42(val),
    {
        proof {
            reveal(Noise::wf);
        }
        if val & 0xF8 == 0 {
            self.on = false;
            self.dac_on = false;
        } else {
            self.dac_on = true;
        }
        self.env.write(val);
    }

    pub(crate) fn write_nr43(&mut self, val: u8)
        requires
            old(self).wf(),
        ensures
            final(self).wf(),
            *final(self) == old(self).spec_write_nr43(val),
    {
        proof {
            reveal(Noise::wf);
        }
        self.nr43 = val;
        self.wide_step = val & 8 != 0;
        let clock_shift = val >> 4u8;
        assert(clock_shift < 16) by (bit_vector)
            requires clock_shift == val >> 4u8;
        let divisor: u16 = match val & 7 {
            0 => 8,
            1 => 16,
            2 => 32,
            3 => 48,
            4 => 64,
            5 => 80,
            6 => 96,
            _ => 112,
        };
        self.timer_period = divisor << clock_shift;
        self.timer = 1;
    }

    pub(crate) fn write_nr44(&mut self, val: u8)
        requires
            old(self).wf(),
        ensures
            final(self).wf(),
            *final(self) == old(self).spec_write_nr44(val),
    {
        proof {
            reveal(Noise::wf);
        }
        self.ltimer.write_on(val, &mut self.on);
        if val & 0x80 != 0 {
            if self.dac_on {
                self.on = true;
            }
            self.ltimer.trigger(&mut self.on);
            self.timer = self.timer_period as i32;
            self.lfsr = 0x7FFF;
            self.env.trigger();
        }
    }

    pub(crate) fn out(&self) -> (r: u8)
        requires
            self.wf(),
        ensures
            r == self.out * self.env.vol,
            r <= 15,
    {
        proof {
            reveal(Noise::wf);
        }
        let o = self.out;
        let v = self.env.vol();
        assert(o * v <= 15) by (nonlinear_arith)
            requires o <= 1, v <= 15;
        o * v
    }

    pub(crate) fn step_env(&mut self)
        requires
            old(self).wf(),
        ensures
            final(self).wf(),
            *final(self) == old(self).spec_step_env(),
    {
        proof {
            reveal(Noise::wf);
        }
        if !self.on {
            return;
        }
        self.env.step();
    }

    pub(crate) fn step_sample(&mut self, cycles: i32)
        requires
            old(self).wf(),
        ensures
            final(self).wf(),
            *final(self) == old(self).spec_step_sample(cycles),
    {
        proof {
            reveal(Noise::wf);
        }
        if !self.true_on() {
            return;
        }
        let t = self.timer.wrapping_sub(cycles);
        self.timer = t;
        if t < 0 {
            self.timer = t + self.timer_period as i32;
            let lfsr = self.lfsr;
            let xor_bit = (lfsr & 1) ^ ((lfsr & 2) >> 1u16);
            let mut l = lfsr >> 1u16;
            l = l | (xor_bit << 14u16);
            if self.wide_step {
                l = l | (xor_bit << 6u16);
            }
            let ws = self.wide_step;
            assert(l == spec_lfsr_next(lfsr, ws));
            proof { lemma_lfsr_stays_15_bits(lfsr, ws); }
            self.lfsr = l;
            self.out = if l & 1 == 0 { 1 } else { 0 };
        }
    }

    pub(crate) fn true_on(&self) -> (r: bool)
        ensures
            r == (self.on && self.dac_on),
    {
        proof {
            reveal(Noise::wf);
        }
        self.on && self.dac_on
    }

    pub(crate) fn step_len(&mut self)
        requires
            old(self).wf(),
        ensures
            final(self).wf(),
            *final(self) == old(self).spec_step_len(),
    {
        proof {
            reveal(Noise::wf);
        }
        self.ltimer.step(&mut self.on);
    }

    pub(crate) fn set_period_half(&mut self, p_half: PHalf)
        requires
            old(self).wf(),
        ensures
            final(self).wf(),
            *final(self) == old(self).spec_set_period_half(p_half),
    {
        proof {
            reveal(Noise::wf);
        }
        self.ltimer.set_phalf(p_half);
    }

    /// The channel's part of frame-sequencer step `step`.
    pub(crate) fn seq_step(&mut self, step: u8)
        requires
            old(self).wf(),
        ensures
            final(self).wf(),
            *final(self) == super::seq_noise(*old(self), step),
    {
        if step & 1 == 0 {
            self.step_len();
        }
        let half = if step & 1 == 0 { PHalf::First } else { PHalf::Second };
        self.set_period_half(half);
        if step == 7 {
            self.step_env();
        }
    }

    pub(crate) fn on(&self) -> (r: bool)
        ensures
            r == self.on,
    {
        proof {
            reveal(Noise::wf);
        }
        self.on
    }
}

/// The shift register stays 15 bits wide.
pub proof fn lemma_lfsr_stays_15_bits(lfsr: u16, wide_step: bool)
    requires
        lfsr <= 0x7FFF,
    ensures
        spec_lfsr_next(lfsr, wide_step) <= 0x7FFF,
{
    let x = (lfsr & 1) ^ ((lfsr & 2) >> 1u16);
    let l = (lfsr >> 1u16) | (x << 14u16);
    assert(x <= 1 && l <= 0x7FFF && (l | (x << 6u16)) <= 0x7FFF) by (bit_vector)
        requires
            lfsr <= 0x7FFF,
            x == (lfsr & 1) ^ ((lfsr & 2) >> 1u16),
            l == (lfsr >> 1u16) | (x << 14u16);
}

/// A full shift register (after a trigger) never becomes all zeros: the
/// register is never stuck at zero.
pub proof fn law_lfsr_never_zero(lfsr: u16, wide_step: bool)
    requires
        lfsr != 0,
        lfsr <= 0x7FFF,
    ensures
        spec_lfsr_next(lfsr, wide_step) != 0,
{
    let x = (lfsr & 1) ^ ((lfsr & 2) >> 1u16);
    let l = (lfsr >> 1u16) | (x << 14u16);
    assert(l != 0 && (l | (x << 6u16)) != 0) by (bit_vector)
        requires
            lfsr != 0,
            lfsr <= 0x7FFF,
            x == (lfsr & 1) ^ ((lfsr & 2) >> 1u16),
            l == (lfsr >> 1u16) | (x << 14u16);
}

} // verus!

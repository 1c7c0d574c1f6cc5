//! The two square-wave channels. The first one has a frequency sweep unit.
use vstd::prelude::*;
use super::PHalf;
use super::envelope::Envelope;
use super::length_timer::LengthTimer;
use super::sweep::{Sweep, SweepTrait};
use super::wave_length::WaveLength;

verus! {

/// Shape of the duty waveform for duty setting `duty` (bit `i` is the
/// output during step `i`): 12.5%, 25%, 50% and 75%.
pub open spec fn spec_duty_wave(duty: u8) -> u8 {
    if duty == 0 {
        0b0000_0001
    } else if duty == 1 {
        0b1000_0001
    } else if duty == 2 {
        0b1000_0111
    } else {
        0b0111_1110
    }
}

/// How many of the low `k` bits of `w` are set.
pub open spec fn high_steps(w: nat, k: nat) -> nat
    decreases k,
{
    if k == 0 {
        0
    } else {
        w % 2 + high_steps(w / 2, (k - 1) as nat)
    }
}

/// The duty settings 0, 1, 2 and 3 keep the output high on 1, 2, 4 and 6 of
/// the 8 steps of the waveform: 12.5%, 25%, 50% and 75%.
pub proof fn law_duty_high_steps(duty: u8)
    requires
        duty < 4,
    ensures
        high_steps(spec_duty_wave(duty) as nat, 8) == (if duty == 0 {
            1nat
        } else if duty == 1 {
            2nat
        } else if duty == 2 {
            4nat
        } else {
            6nat
        }),
{
    reveal_with_fuel(high_steps, 9);
}

fn duty_wave(duty: u8) -> (r: u8)
    ensures
        r == spec_duty_wave(duty),
{
    if duty == 0 {
        0b0000_0001
    } else if duty == 1 {
        0b1000_0001
    } else if duty == 2 {
        0b1000_0111
    } else {
        0b0111_1110
    }
}

/// A square channel, with sweep unit `S`.
pub struct AbstractSquare<S: SweepTrait> {
    pub ltim: LengthTimer<64>,
    pub wl: WaveLength<4, S>,
    pub env: Envelope,
    pub on: bool,
    pub dac_on: bool,
    pub out: u8,
    pub duty: u8,
    pub duty_bit: u8,
}

impl<S: SweepTrait> AbstractSquare<S> {
    /// Field ranges of the channel; an enabled channel can always be swept.
    pub open spec fn wf(&self) -> bool {
        &&& self.ltim.wf()
        &&& self.wl.wf()
        &&& self.env.wf()
        &&& self.out <= 1
        &&& self.duty <= 3
        &&& self.duty_bit <= 7
        &&& self.on ==> self.wl.sweep.ready()
    }

    /// What NRx1 reads: the duty in bits 6-7, other bits set.
    pub open spec fn spec_read_nrx1(&self) -> u8 {
        0x3F | (self.duty << 6u8)
    }

    /// What NRx4 reads: the length enable in bit 6, other bits set.
    pub open spec fn spec_read_nrx4(&self) -> u8 {
        0xBF | (if self.ltim.on { 0x40u8 } else { 0u8 })
    }

    /// Channel after NRx0 is written.
    pub open spec fn spec_write_nrx0(self, val: u8) -> Self {
        AbstractSquare { wl: WaveLength { sweep: self.wl.sweep.spec_write(val), ..self.wl }, ..self }
    }

    /// Channel after NRx1 is written: duty and length.
    pub open spec fn spec_write_nrx1(self, val: u8) -> Self {
        AbstractSquare { duty: (val >> 6u8) & 3, ltim: self.ltim.spec_write_len(val), ..self }
    }

    /// Channel after NRx2 is written: a volume of 0 going down turns the
    /// digital-to-analog converter, and with it the channel, off.
    pub open spec fn spec_write_nrx2(self, val: u8) -> Self {
        let dac_on = val & 0xF8 != 0;
        AbstractSquare {
            on: if dac_on { self.on } else { false },
            dac_on,
            env: self.env.spec_write(val),
            ..self
        }
    }

    /// Channel after NRx3 is written: low frequency bits.
    pub open spec fn spec_write_nrx3(self, val: u8) -> Self {
        AbstractSquare { wl: self.wl.spec_write_low(val), ..self }
    }

    /// Channel after NRx4 is written: high frequency bits, length enable and,
    /// with bit 7 set, a trigger.
    pub open spec fn spec_write_nrx4(self, val: u8) -> Self {
        let wl1 = self.wl.spec_write_high(val);
        let (lt1, on1) = self.ltim.spec_write_on(val, self.on);
        if val & 0x80 != 0 {
            let on2 = if self.dac_on { true } else { on1 };
            let env = self.env.spec_trigger();
            let (wl2, on3) = wl1.spec_trigger(on2);
            let (lt2, on4) = lt1.spec_trigger(on3);
            AbstractSquare { wl: wl2, ltim: lt2, env, on: on4, ..self }
        } else {
            AbstractSquare { wl: wl1, ltim: lt1, on: on1, ..self }
        }
    }

    /// Channel after `cycles` t-cycles: each firing of the frequency timer
    /// moves one step through the duty waveform.
    pub open spec fn spec_step_sample(self, cycles: i32) -> Self {
        if !self.on {
            self
        } else {
            let (wl, fired) = self.wl.spec_step(cycles);
            if fired {
                let bit = ((self.duty_bit + 1) as u8) & 7;
                AbstractSquare {
                    wl,
                    duty_bit: bit,
                    out: if spec_duty_wave(self.duty) & (1u8 << bit) != 0 { 1 } else { 0 },
                    ..self
                }
            } else {
                AbstractSquare { wl, ..self }
            }
        }
    }

    /// Channel after one sweep clock.
    pub open spec fn spec_step_sweep(self) -> Self {
        if self.on {
            let (wl, on) = self.wl.spec_step_sweep(self.on);
            AbstractSquare { wl, on, ..self }
        } else {
            self
        }
    }

    /// Channel after one envelope clock.
    pub open spec fn spec_step_env(self) -> Self {
        if self.on {
            AbstractSquare { env: self.env.spec_step(), ..self }
        } else {
            self
        }
    }

    /// Channel after one length clock.
    pub open spec fn spec_step_len(self) -> Self {
        let (ltim, on) = self.ltim.spec_step(self.on);
        AbstractSquare { ltim, on, ..self }
    }

    /// Channel once the frame sequencer enters length-period half `p_half`.
    pub open spec fn spec_set_period_half(self, p_half: PHalf) -> Self {
        AbstractSquare { ltim: self.ltim.spec_set_phalf(p_half), ..self }
    }

    /// Channel output, between 0 and 15.
    pub open spec fn spec_out(&self) -> int {
        self.out * self.env.vol
    }

    /// Silent channel.
    pub(crate) fn new() -> (r: Self)
        ensures
            r.wf(),
            !r.on && !r.dac_on && r.out == 0 && r.duty == 0 && r.duty_bit == 0,
            r.wl.freq == 0 && r.wl.sweep == S::spec_new(),
    {
        AbstractSquare {
            ltim: LengthTimer::new(),
            wl: WaveLength::new(),
            env: Envelope::new(),
            on: false,
            dac_on: false,
            out: 0,
            duty: 0,
            duty_bit: 0,
        }
    }

    pub(crate) fn read_nrx0(&self) -> (r: u8)
        requires
            self.wf(),
        ensures
            r == self.wl.sweep.spec_read(),
    {
        self.wl.read_sweep()
    }

    pub(crate) fn read_nrx1(&self) -> (r: u8)
        ensures
            r == self.spec_read_nrx1(),
    {
        0x3F | (self.duty << 6u8)
    }

    pub(crate) fn read_nrx2(&self) -> (r: u8)
        requires
            self.wf(),
        ensures
            r == self.env.spec_read(),
    {
        self.env.read()
    }

    pub(crate) fn read_nrx4(&self) -> (r: u8)
        ensures
            r == self.spec_read_nrx4(),
    {
        0xBF | self.ltim.read_on()
    }

    pub(crate) fn write_nrx0(&mut self, val: u8)
        requires
            old(self).wf(),
        ensures
            final(self).wf(),
            *final(self) == old(self).spec_write_nrx0(val),
    {
        self.wl.write_sweep(val);
    }

    pub(crate) fn write_nrx1(&mut self, val: u8)
        requires
            old(self).wf(),
        ensures
            final(self).wf(),
            *final(self) == old(self).spec_write_nrx1(val),
    {
        self.duty = (val >> 6u8) & 3;
        proof { crate::bits::lemma_and_u8(val >> 6u8, 3); }
        self.ltim.write_len(val);
    }

    pub(crate) fn write_nrx2(&mut self, val: u8)
        requires
            old(self).wf(),
        ensures
            final(self).wf(),
            *final(self) == old(self).spec_write_nrx2(val),
    {
        if val & 0xF8 == 0 {
            self.on = false;
            self.dac_on = false;
        } else {
            self.dac_on = true;
        }
        self.env.write(val);
    }

    pub(crate) fn write_nrx3(&mut self, val: u8)
        requires
            old(self).wf(),
        ensures
            final(self).wf(),
            *final(self) == old(self).spec_write_nrx3(val),
    {
        self.wl.write_low(val);
    }

    pub(crate) fn write_nrx4(&mut self, val: u8)
        requires
            old(self).wf(),
        ensures
            final(self).wf(),
            *final(self) == old(self).spec_write_nrx4(val),
    {
        self.wl.write_high(val);
        self.ltim.write_on(val, &mut self.on);
        if val & 0x80 != 0 {
            if self.dac_on {
                self.on = true;
            }
            self.env.trigger();
            self.wl.trigger(&mut self.on);
            self.ltim.trigger(&mut self.on);
        }
    }

    pub(crate) fn step_sample(&mut self, cycles: i32)
        requires
            old(self).wf(),
        ensures
            final(self).wf(),
            *final(self) == old(self).spec_step_sample(cycles),
    {
        if !self.on() {
            return;
        }
        if self.wl.step(cycles) {
            let d = self.duty_bit + 1;
            let bit = d & 7;
            assert(bit <= 7) by (bit_vector)
                requires bit == d & 7;
            self.duty_bit = bit;
            self.out = if duty_wave(self.duty) & (1u8 << bit) != 0 { 1 } else { 0 };
        }
    }

    pub(crate) fn step_sweep(&mut self)
        requires
            old(self).wf(),
        ensures
            final(self).wf(),
            *final(self) == old(self).spec_step_sweep(),
    {
        if self.on {
            self.wl.step_sweep(&mut self.on);
        }
    }

    pub(crate) fn step_env(&mut self)
        requires
            old(self).wf(),
        ensures
            final(self).wf(),
            *final(self) == old(self).spec_step_env(),
    {
        if self.on {
            self.env.step();
        }
    }

    pub(crate) fn out(&self) -> (r: u8)
        requires
            self.wf(),
        ensures
            r == self.spec_out(),
            r <= 15,
    {
        let o = self.out;
        let v = self.env.vol();
        assert(o * v <= 15) by (nonlinear_arith)
            requires o <= 1, v <= 15;
        o * v
    }

    pub(crate) fn true_on(&self) -> (r: bool)
        ensures
            r == (self.on && self.dac_on),
    {
        self.on && self.dac_on
    }

    pub(crate) fn step_len(&mut self)
        requires
            old(self).wf(),
        ensures
            final(self).wf(),
            *final(self) == old(self).spec_step_len(),
    {
        self.ltim.step(&mut self.on);
    }

    pub(crate) fn set_period_half(&mut self, p_half: PHalf)
        requires
            old(self).wf(),
        ensures
            final(self).wf(),
            *final(self) == old(self).spec_set_period_half(p_half),
    {
        self.ltim.set_phalf(p_half);
    }

    pub(crate) fn on(&self) -> (r: bool)
        ensures
            r == self.on,
    {
        self.on
    }

    /// The channel's part of frame-sequencer step `step`; `swept` tells
    /// whether the channel owns the sweep unit.
    pub(crate) fn seq_step(&mut self, step: u8, swept: bool)
        requires
            old(self).wf(),
        ensures
            final(self).wf(),
            *final(self) == super::seq_square(*old(self), step, swept),
    {
        if step & 1 == 0 {
            self.step_len();
        }
        let half = if step & 1 == 0 { PHalf::First } else { PHalf::Second };
        self.set_period_half(half);
        if swept && (step == 0 || step == 4) {
            self.step_sweep();
        } else if step == 7 {
            self.step_env();
        }
    }
}

/// The first square channel, with frequency sweep.
pub struct Square1 {
    pub ab: AbstractSquare<Sweep>,
}

impl Square1 {
    /// Field ranges of the channel.
    #[verifier::opaque]
    pub open spec fn wf(&self) -> bool {
        self.ab.wf()
    }

    /// Silent channel.
    pub(crate) fn new() -> (r: Self)
        ensures
            r.wf(),
            !r.ab.on && !r.ab.dac_on && r.ab.out == 0,
    {
        proof {
            reveal(Square1::wf);
        }
        Square1 { ab: AbstractSquare::new() }
    }

    pub(crate) fn read_nr10(&self) -> (r: u8)
        requires
            self.wf(),
        ensures
            r == self.ab.wl.sweep.spec_read(),
    {
        proof {
            reveal(Square1::wf);
        }
        self.ab.read_nrx0()
    }

    pub(crate) fn read_nr11(&self) -> (r: u8)
        ensures
            r == self.ab.spec_read_nrx1(),
    {
        proof {
            reveal(Square1::wf);
        }
        self.ab.read_nrx1()
    }

    pub(crate) fn read_nr12(&self) -> (r: u8)
        requires
            self.wf(),
        ensures
            r == self.ab.env.spec_read(),
    {
        proof {
            reveal(Square1::wf);
        }
        self.ab.read_nrx2()
    }

    pub(crate) fn read_nr14(&self) -> (r: u8)
        ensures
            r == self.ab.spec_read_nrx4(),
    {
        proof {
            reveal(Square1::wf);
        }
        self.ab.read_nrx4()
    }

    pub(crate) fn write_nr10(&mut self, val: u8)
        requires
            old(self).wf(),
        ensures
            final(self).wf(),
            final(self).ab == old(self).ab.spec_write_nrx0(val),
    {
        proof {
            reveal(Square1::wf);
        }
        self.ab.write_nrx0(val);
    }

    pub(crate) fn write_nr11(&mut self, val: u8)
        requires
            old(self).wf(),
        ensures
            final(self).wf(),
            final(self).ab == old(self).ab.spec_write_nrx1(val),
    {
        proof {
            reveal(Square1::wf);
        }
        self.ab.write_nrx1(val);
    }

    pub(crate) fn write_nr12(&mut self, val: u8)
        requires
            old(self).wf(),
        ensures
            final(self).wf(),
            final(self).ab == old(self).ab.spec_write_nrx2(val),
    {
        proof {
            reveal(Square1::wf);
        }
        self.ab.write_nrx2(val);
    }

    pub(crate) fn write_nr13(&mut self, val: u8)
        requires
            old(self).wf(),
        ensures
            final(self).wf(),
            final(self).ab == old(self).ab.spec_write_nrx3(val),
    {
        proof {
            reveal(Square1::wf);
        }
        self.ab.write_nrx3(val);
    }

    pub(crate) fn write_nr14(&mut self, val: u8)
        requires
            old(self).wf(),
        ensures
            final(self).wf(),
            final(self).ab == old(self).ab.spec_write_nrx4(val),
    {
        proof {
            reveal(Square1::wf);
        }
        self.ab.write_nrx4(val);
    }

    pub(crate) fn out(&self) -> (r: u8)
        requires
            self.wf(),
        ensures
            r == self.ab.spec_out(),
            r <= 15,
    {
        proof {
            reveal(Square1::wf);
        }
        self.ab.out()
    }

    pub(crate) fn step_sample(&mut self, cycles: i32)
        requires
            old(self).wf(),
        ensures
            final(self).wf(),
            final(self).ab == old(self).ab.spec_step_sample(cycles),
    {
        proof {
            reveal(Square1::wf);
        }
        self.ab.step_sample(cycles);
    }

    pub(crate) fn step_sweep(&mut self)
        requires
            old(self).wf(),
        ensures
            final(self).wf(),
            final(self).ab == old(self).ab.spec_step_sweep(),
    {
        proof {
            reveal(Square1::wf);
        }
        self.ab.step_sweep();
    }

    pub(crate) fn step_env(&mut self)
        requires
            old(self).wf(),
        ensures
            final(self).wf(),
            final(self).ab == old(self).ab.spec_step_env(),
    {
        proof {
            reveal(Square1::wf);
        }
        self.ab.step_env();
    }

    pub(crate) fn true_on(&self) -> (r: bool)
        ensures
            r == (self.ab.on && self.ab.dac_on),
    {
        proof {
            reveal(Square1::wf);
        }
        self.ab.true_on()
    }

    pub(crate) fn step_len(&mut self)
        requires
            old(self).wf(),
        ensures
            final(self).wf(),
            final(self).ab == old(self).ab.spec_step_len(),
    {
        proof {
            reveal(Square1::wf);
        }
        self.ab.step_len();
    }

    pub(crate) fn set_period_half(&mut self, p_half: PHalf)
        requires
            old(self).wf(),
        ensures
            final(self).wf(),
            final(self).ab == old(self).ab.spec_set_period_half(p_half),
    {
        proof {
            reveal(Square1::wf);
        }
        self.ab.set_period_half(p_half);
    }

    pub(crate) fn on(&self) -> (r: bool)
        ensures
            r == self.ab.on,
    {
        proof {
            reveal(Square1::wf);
        }
        self.ab.on()
    }
}

/// The second square channel, without frequency sweep.
pub struct Square2 {
    pub ab: AbstractSquare<()>,
}

impl Square2 {
    /// Field ranges of the channel.
    #[verifier::opaque]
    pub open spec fn wf(&self) -> bool {
        self.ab.wf()
    }

    /// Silent channel.
    pub(crate) fn new() -> (r: Self)
        ensures
            r.wf(),
            !r.ab.on && !r.ab.dac_on && r.ab.out == 0,
    {
        proof {
            reveal(Square2::wf);
        }
        Square2 { ab: AbstractSquare::new() }
    }

    pub(crate) fn read_nr21(&self) -> (r: u8)
        ensures
            r == self.ab.spec_read_nrx1(),
    {
        proof {
            reveal(Square2::wf);
        }
        self.ab.read_nrx1()
    }

    pub(crate) fn read_nr22(&self) -> (r: u8)
        requires
            self.wf(),
        ensures
            r == self.ab.env.spec_read(),
    {
        proof {
            reveal(Square2::wf);
        }
        self.ab.read_nrx2()
    }

    pub(crate) fn read_nr24(&self) -> (r: u8)
        ensures
            r == self.ab.spec_read_nrx4(),
    {
        proof {
            reveal(Square2::wf);
        }
        self.ab.read_nrx4()
    }

    pub(crate) fn write_nr21(&mut self, val: u8)
        requires
            old(self).wf(),
        ensures
            final(self).wf(),
            final(self).ab == old(self).ab.spec_write_nrx1(val),
    {
        proof {
            reveal(Square2::wf);
        }
        self.ab.write_nrx1(val);
    }

    pub(crate) fn write_nr22(&mut self, val: u8)
        requires
            old(self).wf(),
        ensures
            final(self).wf(),
            final(self).ab == old(self).ab.spec_write_nrx2(val),
    {
        proof {
            reveal(Square2::wf);
        }
        self.ab.write_nrx2(val);
    }

    pub(crate) fn write_nr23(&mut self, val: u8)
        requires
            old(self).wf(),
        ensures
            final(self).wf(),
            final(self).ab == old(self).ab.spec_write_nrx3(val),
    {
        proof {
            reveal(Square2::wf);
        }
        self.ab.write_nrx3(val);
    }

    pub(crate) fn write_nr24(&mut self, val: u8)
        requires
            old(self).wf(),
        ensures
            final(self).wf(),
            final(self).ab == old(self).ab.spec_write_nrx4(val),
    {
        proof {
            reveal(Square2::wf);
        }
        self.ab.write_nrx4(val);
    }

    pub(crate) fn out(&self) -> (r: u8)
        requires
            self.wf(),
        ensures
            r == self.ab.spec_out(),
            r <= 15,
    {
        proof {
            reveal(Square2::wf);
        }
        self.ab.out()
    }

    pub(crate) fn step_sample(&mut self, cycles: i32)
        requires
            old(self).wf(),
        ensures
            final(self).wf(),
            final(self).ab == old(self).ab.spec_step_sample(cycles),
    {
        proof {
            reveal(Square2::wf);
        }
        self.ab.step_sample(cycles);
    }

    pub(crate) fn step_env(&mut self)
        requires
            old(self).wf(),
        ensures
            final(self).wf(),
            final(self).ab == old(self).ab.spec_step_env(),
    {
        proof {
            reveal(Square2::wf);
        }
        self.ab.step_env();
    }

    pub(crate) fn true_on(&self) -> (r: bool)
        ensures
            r == (self.ab.on && self.ab.dac_on),
    {
        proof {
            reveal(Square2::wf);
        }
        self.ab.true_on()
    }

    pub(crate) fn step_len(&mut self)
        requires
            old(self).wf(),
        ensures
            final(self).wf(),
            final(self).ab == old(self).ab.spec_step_len(),
    {
        proof {
            reveal(Square2::wf);
        }
        self.ab.step_len();
    }

    pub(crate) fn set_period_half(&mut self, p_half: PHalf)
        requires
            old(self).wf(),
        ensures
            final(self).wf(),
            final(self).ab == old(self).ab.spec_set_period_half(p_half),
    {
        proof {
            reveal(Square2::wf);
        }
        self.ab.set_period_half(p_half);
    }

    pub(crate) fn on(&self) -> (r: bool)
        ensures
            r == self.ab.on,
    {
        proof {
            reveal(Square2::wf);
        }
        self.ab.on()
    }
}

} // verus!

//! Audio processing unit: two square channels, a wave channel and a noise
//! channel, mixed into signed 16-bit stereo samples.
use vstd::prelude::*;

pub mod envelope;
pub mod length_timer;
pub mod noise;
pub mod square;
pub mod sweep;
pub mod wave;
pub mod wave_length;
mod sequencer;

use noise::Noise;
use sweep::SweepTrait;
use square::{Square1, Square2};
use wave::Wave;

verus! {

/// An audio sample.
pub type Sample = i16;

/// Which half of a length period the frame sequencer is in.
#[derive(Clone, Copy, PartialEq, Eq, Structural, Debug)]
pub enum PHalf {
    First,
    Second,
}

/// T-cycles per second.
pub const TC_SEC: i32 = 0x40_0000;

/// The audio processing unit.
pub struct Apu {
    pub nr51: u8,
    pub on: bool,
    pub r_vol: u8,
    pub l_vol: u8,
    pub r_vin: bool,
    pub l_vin: bool,
    pub ch1: Square1,
    pub ch2: Square2,
    pub ch3: Wave,
    pub ch4: Noise,
    pub render_timer: i32,
    pub ext_sample_period: i32,
    pub seq_step: u8,
    pub l_out: Sample,
    pub r_out: Sample,
    pub samples_run: usize,
}

/// Output of a channel that is switched off is silence.
pub open spec fn gated(out: int, on: bool) -> int {
    if on { out } else { 0 }
}

/// Whether bit `i` of `v` is set.
pub open spec fn bit_of(v: u8, i: int) -> bool {
    (v >> (i as u8)) & 1 == 1
}

/// Adding two with wraparound keeps a counter equal to an exact count
/// modulo the width of `usize`.
proof fn lemma_wrapping_add_two(x: usize, exact: int)
    requires
        exact >= 0,
        x == exact % (usize::MAX as int + 1),
    ensures
        x.wrapping_add(2) == (exact + 2) % (usize::MAX as int + 1),
{
    let m = usize::MAX as int + 1;
    vstd::arithmetic::div_mod::lemma_add_mod_noop(exact, 2, m);
    vstd::arithmetic::div_mod::lemma_small_mod(2, m as nat);
    if x + 2 < m {
        vstd::arithmetic::div_mod::lemma_small_mod((x + 2) as nat, m as nat);
    } else {
        vstd::arithmetic::div_mod::lemma_mod_add_multiples_vanish(x + 2 - m, m);
        vstd::arithmetic::div_mod::lemma_small_mod((x + 2 - m) as nat, m as nat);
    }
}

/// Sum of the first `n` channel outputs `outs` routed by NR51 to the output
/// selected by bit offset `side` (0: right, 4: left).
pub open spec fn mix_sum(nr51: u8, outs: Seq<int>, side: int, n: int) -> int
    decreases n,
{
    if n <= 0 {
        0
    } else {
        mix_sum(nr51, outs, side, n - 1) + (if bit_of(nr51, n - 1 + side) {
            outs[n - 1]
        } else {
            0
        })
    }
}

/// Length-period half during frame-sequencer step `step`.
pub open spec fn seq_half(step: u8) -> PHalf {
    if step & 1 == 0 { PHalf::First } else { PHalf::Second }
}

/// A square channel after frame-sequencer step `step`: length clock on even
/// steps, sweep clock on steps 0 and 4 (first channel only), envelope clock
/// on step 7.
pub open spec fn seq_square<S: sweep::SweepTrait>(c: square::AbstractSquare<S>, step: u8, swept: bool) -> square::AbstractSquare<S> {
    let c1 = if step & 1 == 0 { c.spec_step_len() } else { c };
    let c2 = c1.spec_set_period_half(seq_half(step));
    if swept && (step == 0 || step == 4) {
        c2.spec_step_sweep()
    } else if step == 7 {
        c2.spec_step_env()
    } else {
        c2
    }
}

/// The wave channel after frame-sequencer step `step`.
pub open spec fn seq_wave(c: Wave, step: u8) -> Wave {
    let c1 = if step & 1 == 0 { c.spec_step_len() } else { c };
    c1.spec_set_period_half(seq_half(step))
}

/// The noise channel after frame-sequencer step `step`.
pub open spec fn seq_noise(c: Noise, step: u8) -> Noise {
    let c1 = if step & 1 == 0 { c.spec_step_len() } else { c };
    let c2 = c1.spec_set_period_half(seq_half(step));
    if step == 7 { c2.spec_step_env() } else { c2 }
}

impl Apu {
    /// Field ranges of all channels and volumes.
    pub open spec fn chans_wf(&self) -> bool {
        &&& self.ch1.wf()
        &&& self.ch2.wf()
        &&& self.ch3.wf()
        &&& self.ch4.wf()
        &&& self.r_vol <= 7
        &&& self.l_vol <= 7
    }

    /// Field ranges of the unit and all its channels.
    pub open spec fn wf(&self) -> bool {
        &&& self.chans_wf()
        &&& self.seq_step <= 7
        &&& 1 <= self.ext_sample_period <= TC_SEC + 1
        &&& 0 <= self.render_timer <= self.ext_sample_period
    }

    /// Output (0 to 15) of channel `i`, silent when the channel is off.
    pub open spec fn ch_out(&self, i: int) -> int {
        if i == 0 {
            gated(self.ch1.ab.spec_out(), self.ch1.ab.on && self.ch1.ab.dac_on)
        } else if i == 1 {
            gated(self.ch2.ab.spec_out(), self.ch2.ab.on && self.ch2.ab.dac_on)
        } else if i == 2 {
            gated(self.ch3.spec_out() as int, self.ch3.on && self.ch3.dac_on)
        } else {
            gated(self.ch4.out * self.ch4.env.vol, self.ch4.on && self.ch4.dac_on)
        }
    }

    /// The four channel outputs.
    pub open spec fn ch_outs(&self) -> Seq<int> {
        seq![self.ch_out(0), self.ch_out(1), self.ch_out(2), self.ch_out(3)]
    }

    /// The stereo sample for the current channel outputs: each side is
    /// `(15 - 2 * sum) * volume * 32`.
    pub open spec fn spec_mix(&self) -> (Sample, Sample) {
        (
            ((15 - 2 * mix_sum(self.nr51, self.ch_outs(), 4, 4)) * self.l_vol * 32) as Sample,
            ((15 - 2 * mix_sum(self.nr51, self.ch_outs(), 0, 4)) * self.r_vol * 32) as Sample,
        )
    }

    /// What NR50 reads.
    pub open spec fn spec_read_nr50(&self) -> u8 {
        self.r_vol | ((if self.r_vin { 1u8 } else { 0u8 }) << 3u8) | (self.l_vol << 4u8) | ((
        if self.l_vin {
            1u8
        } else {
            0u8
        }) << 7u8)
    }

    /// What NR52 reads: master enable in bit 7, channel status in bits 0-3.
    pub open spec fn spec_read_nr52(&self) -> u8 {
        ((if self.on { 1u8 } else { 0u8 }) << 7u8) | 0x70 | ((if self.ch4.on { 1u8 } else { 0u8 })
            << 3u8) | ((if self.ch3.on { 1u8 } else { 0u8 }) << 2u8) | ((if self.ch2.ab.on {
            1u8
        } else {
            0u8
        }) << 1u8) | (if self.ch1.ab.on { 1u8 } else { 0u8 })
    }

    /// Samples per second `sample_rate` gives one sample every this many t-cycles.
    pub open spec fn spec_sample_period(sample_rate: i32) -> i32 {
        (TC_SEC / sample_rate + 1) as i32
    }

    /// Unit at power on, producing one stereo sample every
    /// `TC_SEC / sample_rate + 1` t-cycles.
    pub fn new(sample_rate: i32) -> (r: Self)
        requires
            sample_rate > 0,
        ensures
            r.wf(),
            r.ext_sample_period == Self::spec_sample_period(sample_rate),
            !r.on && r.nr51 == 0 && r.r_vol == 0 && r.l_vol == 0 && !r.r_vin && !r.l_vin,
            r.render_timer == 0 && r.seq_step == 0 && r.l_out == 0 && r.r_out == 0,
            r.samples_run == 0,
    {
        Apu {
            ext_sample_period: Self::sample_period_from_rate(sample_rate),
            nr51: 0,
            on: false,
            r_vol: 0,
            l_vol: 0,
            r_vin: false,
            l_vin: false,
            ch1: Square1::new(),
            ch2: Square2::new(),
            ch3: Wave::new(),
            ch4: Noise::new(),
            render_timer: 0,
            seq_step: 0,
            l_out: 0,
            r_out: 0,
            samples_run: 0,
        }
    }

    /// Number of sample values produced since the last reset.
    pub fn samples_run(&self) -> (r: usize)
        ensures
            r == self.samples_run,
    {
        self.samples_run
    }

    /// Forgets the samples produced so far.
    pub fn reset_samples_run(&mut self)
        ensures
            *final(self) == (Apu { samples_run: 0, ..*old(self) }),
    {
        self.samples_run = 0;
    }

    fn sample_period_from_rate(sample_rate: i32) -> (r: i32)
        requires
            sample_rate > 0,
        ensures
            r == Self::spec_sample_period(sample_rate),
            1 <= r <= TC_SEC + 1,
    {
        TC_SEC / sample_rate + 1
    }

    /// The last stereo sample (left, right).
    pub fn out(&self) -> (r: (Sample, Sample))
        ensures
            r == (self.l_out, self.r_out),
    {
        (self.l_out, self.r_out)
    }

    /// The stereo sample for the current channel outputs.
    fn mix_and_render(&self) -> (r: (Sample, Sample))
        requires
            self.chans_wf(),
        ensures
            r == self.spec_mix(),
    {
        let mut l: u8 = 0;
        let mut r: u8 = 0;
        let mut i: u8 = 0;
        while i < 4
            invariant
                self.chans_wf(),
                i <= 4,
                l == mix_sum(self.nr51, self.ch_outs(), 4, i as int),
                r == mix_sum(self.nr51, self.ch_outs(), 0, i as int),
                l <= 15 * i,
                r <= 15 * i,
            decreases 4 - i,
        {
            let out: u8 = if i == 0 {
                if self.ch1.true_on() { self.ch1.out() } else { 0 }
            } else if i == 1 {
                if self.ch2.true_on() { self.ch2.out() } else { 0 }
            } else if i == 2 {
                if self.ch3.true_on() { self.ch3.out() } else { 0 }
            } else {
                if self.ch4.true_on() { self.ch4.out() } else { 0 }
            };
            assert(out == self.ch_out(i as int));
            let nr51 = self.nr51;
            let right_on = (nr51 >> i) & 1 == 1;
            let left_on = (nr51 >> (i + 4)) & 1 == 1;
            if left_on {
                l += out;
            }
            if right_on {
                r += out;
            }
            i += 1;
        }
        let la: i16 = 0xF - (l as i16) * 2;
        let ra: i16 = 0xF - (r as i16) * 2;
        let lvol = self.l_vol as i16;
        let rvol = self.r_vol as i16;
        assert(-105 * 7 <= la * lvol <= 15 * 7) by (nonlinear_arith)
            requires -105 <= la <= 15, 0 <= lvol <= 7;
        assert(-105 * 7 <= ra * rvol <= 15 * 7) by (nonlinear_arith)
            requires -105 <= ra <= 15, 0 <= rvol <= 7;
        let lv = la * lvol;
        let rv = ra * rvol;
        (lv * 32, rv * 32)
    }

    /// What running the unit for `cycles` t-cycles does (`self` before,
    /// `next` after).
    #[verifier::opaque]
    pub open spec fn spec_ran(self, next: Apu, cycles: i32) -> bool {
        &&& next.on == self.on
        &&& next.nr51 == self.nr51
        &&& next.seq_step == self.seq_step
        &&& next.ext_sample_period == self.ext_sample_period
        &&& self.on ==> next.ch1.ab == self.ch1.ab.spec_step_sample(cycles)
            && next.ch2.ab == self.ch2.ab.spec_step_sample(cycles)
            && next.ch3 == self.ch3.spec_step_sample(cycles)
            && next.ch4 == self.ch4.spec_step_sample(cycles)
        &&& !self.on ==> next.ch1 == self.ch1 && next.ch2 == self.ch2
            && next.ch3 == self.ch3 && next.ch4 == self.ch4
        &&& ({
            let total = self.render_timer + cycles;
            let p = self.ext_sample_period as int;
            let n = if total > p { (total - 1) / (p as int) } else { 0 };
            &&& next.render_timer == total - n * p
            &&& next.samples_run == (self.samples_run + 2 * n) % (usize::MAX as int + 1)
            &&& n > 0 && self.on ==> (next.l_out, next.r_out) == next.spec_mix()
            &&& (n == 0 || !self.on) ==> next.l_out == self.l_out && next.r_out == self.r_out
        })
    }

    /// Advances the unit by `cycles` t-cycles: every enabled channel runs its
    /// timers, and a stereo sample is rendered every sample period.
    pub fn run(&mut self, cycles: i32)
        requires
            old(self).wf(),
            0 <= cycles,
            old(self).render_timer + cycles <= i32::MAX,
        ensures
            final(self).wf(),
            final(self).on == old(self).on,
            final(self).nr51 == old(self).nr51,
            final(self).seq_step == old(self).seq_step,
            final(self).ext_sample_period == old(self).ext_sample_period,
            old(self).on ==> final(self).ch1.ab == old(self).ch1.ab.spec_step_sample(cycles)
                && final(self).ch2.ab == old(self).ch2.ab.spec_step_sample(cycles) && final(
                self).ch3 == old(self).ch3.spec_step_sample(cycles) && final(self).ch4 == old(
                self).ch4.spec_step_sample(cycles),
            !old(self).on ==> final(self).ch1 == old(self).ch1 && final(self).ch2 == old(self).ch2
                && final(self).ch3 == old(self).ch3 && final(self).ch4 == old(self).ch4,
            ({
                let total = old(self).render_timer + cycles;
                let p = old(self).ext_sample_period as int;
                let n = if total > p { (total - 1) / (p as int) } else { 0 };
                &&& final(self).render_timer == total - n * p
                &&& final(self).samples_run == (old(self).samples_run + 2 * n) % (usize::MAX as int + 1)
                &&& n > 0 && old(self).on ==> (final(self).l_out, final(self).r_out) == final(self).spec_mix()
                &&& (n == 0 || !old(self).on) ==> final(self).l_out == old(self).l_out
                    && final(self).r_out == old(self).r_out
            }),
            old(self).spec_ran(*final(self), cycles),
    {
        proof { reveal(Apu::spec_ran); }
        if self.on {
            self.ch1.step_sample(cycles);
            self.ch2.step_sample(cycles);
            self.ch3.step_sample(cycles);
            self.ch4.step_sample(cycles);
        }
        let ghost total = old(self).render_timer + cycles;
        let ghost p = self.ext_sample_period as int;
        let ghost m = usize::MAX as int + 1;
        let ghost s0 = self.samples_run as int;
        let ghost lo = self.l_out;
        let ghost ro = self.r_out;
        let ghost pre = *self;
        self.render_timer += cycles;
        let ghost mut k: int = 0;
        proof {
            vstd::arithmetic::div_mod::lemma_small_mod(s0 as nat, m as nat);
        }
        while self.render_timer > self.ext_sample_period
            invariant
                *self == (Apu {
                    render_timer: self.render_timer,
                    samples_run: self.samples_run,
                    l_out: self.l_out,
                    r_out: self.r_out,
                    ..pre
                }),
                pre.chans_wf(),
                pre.ext_sample_period == p,
                1 <= p <= TC_SEC + 1,
                0 <= k,
                0 <= s0 < m,
                m == usize::MAX as int + 1,
                self.render_timer == total - k * p,
                0 <= self.render_timer,
                k > 0 ==> self.render_timer >= 1,
                self.samples_run == (s0 + 2 * k) % m,
                k > 0 && self.on ==> (self.l_out, self.r_out) == self.spec_mix(),
                (k == 0 || !self.on) ==> self.l_out == lo && self.r_out == ro,
            decreases self.render_timer,
        {
            self.render_timer -= self.ext_sample_period;
            assert(total - k * p - p == total - (k + 1) * p) by (nonlinear_arith);
            if self.on {
                let (l, r) = self.mix_and_render();
                self.l_out = l;
                self.r_out = r;
            }
            let ghost x = self.samples_run;
            self.samples_run = self.samples_run.wrapping_add(2);
            proof {
                lemma_wrapping_add_two(x, s0 + 2 * k);
                k = k + 1;
            }
        }
        proof {
            assert(k == if total > p { (total - 1) / p } else { 0 }) by (nonlinear_arith)
                requires self.render_timer == total - k * p, 0 <= self.render_timer <= p, k >= 0, p >= 1,
                    k > 0 ==> self.render_timer >= 1;
        }
    }

    /// Unit after NR10 is written.
    pub open spec fn spec_write_nr10(self, val: u8) -> Apu {
        Apu { ch1: Square1 { ab: self.ch1.ab.spec_write_nrx0(val) }, ..self }
    }

    /// Unit after NR11 is written.
    pub open spec fn spec_write_nr11(self, val: u8) -> Apu {
        Apu { ch1: Square1 { ab: self.ch1.ab.spec_write_nrx1(val) }, ..self }
    }

    /// Unit after NR12 is written.
    pub open spec fn spec_write_nr12(self, val: u8) -> Apu {
        Apu { ch1: Square1 { ab: self.ch1.ab.spec_write_nrx2(val) }, ..self }
    }

    /// Unit after NR13 is written.
    pub open spec fn spec_write_nr13(self, val: u8) -> Apu {
        Apu { ch1: Square1 { ab: self.ch1.ab.spec_write_nrx3(val) }, ..self }
    }

    /// Unit after NR14 is written.
    pub open spec fn spec_write_nr14(self, val: u8) -> Apu {
        Apu { ch1: Square1 { ab: self.ch1.ab.spec_write_nrx4(val) }, ..self }
    }

    /// Unit after NR21 is written.
    pub open spec fn spec_write_nr21(self, val: u8) -> Apu {
        Apu { ch2: Square2 { ab: self.ch2.ab.spec_write_nrx1(val) }, ..self }
    }

    /// Unit after NR22 is written.
    pub open spec fn spec_write_nr22(self, val: u8) -> Apu {
        Apu { ch2: Square2 { ab: self.ch2.ab.spec_write_nrx2(val) }, ..self }
    }

    /// Unit after NR23 is written.
    pub open spec fn spec_write_nr23(self, val: u8) -> Apu {
        Apu { ch2: Square2 { ab: self.ch2.ab.spec_write_nrx3(val) }, ..self }
    }

    /// Unit after NR24 is written.
    pub open spec fn spec_write_nr24(self, val: u8) -> Apu {
        Apu { ch2: Square2 { ab: self.ch2.ab.spec_write_nrx4(val) }, ..self }
    }

    /// Unit after NR30 is written.
    pub open spec fn spec_write_nr30(self, val: u8) -> Apu {
        Apu { ch3: self.ch3.spec_write_nr30(val), ..self }
    }

    /// Unit after NR31 is written.
    pub open spec fn spec_write_nr31(self, val: u8) -> Apu {
        Apu { ch3: self.ch3.spec_write_nr31(val), ..self }
    }

    /// Unit after NR32 is written.
    pub open spec fn spec_write_nr32(self, val: u8) -> Apu {
        Apu { ch3: self.ch3.spec_write_nr32(val), ..self }
    }

    /// Unit after NR33 is written.
    pub open spec fn spec_write_nr33(self, val: u8) -> Apu {
        Apu { ch3: self.ch3.spec_write_nr33(val), ..self }
    }

    /// Unit after NR34 is written.
    pub open spec fn spec_write_nr34(self, val: u8) -> Apu {
        Apu { ch3: self.ch3.spec_write_nr34(val), ..self }
    }

    /// Unit after NR41 is written.
    pub open spec fn spec_write_nr41(self, val: u8) -> Apu {
        Apu { ch4: self.ch4.spec_write_nr41(val), ..self }
    }

    /// Unit after NR42 is written.
    pub open spec fn spec_write_nr42(self, val: u8) -> Apu {
        Apu { ch4: self.ch4.spec_write_nr42(val), ..self }
    }

    /// Unit after NR43 is written.
    pub open spec fn spec_write_nr43(self, val: u8) -> Apu {
        Apu { ch4: self.ch4.spec_write_nr43(val), ..self }
    }

    /// Unit after NR44 is written.
    pub open spec fn spec_write_nr44(self, val: u8) -> Apu {
        Apu { ch4: self.ch4.spec_write_nr44(val), ..self }
    }

    /// Unit after NR50 is written; ignored while the unit is off.
    pub open spec fn spec_write_nr50(self, val: u8) -> Apu {
        if self.on {
            Apu { r_vol: val & 7, r_vin: val & 8 != 0, l_vol: (val >> 4u8) & 7, l_vin: val & 0x80 != 0, ..self }
        } else {
            self
        }
    }

    /// Unit after NR51 is written; ignored while the unit is off.
    pub open spec fn spec_write_nr51(self, val: u8) -> Apu {
        if self.on { Apu { nr51: val, ..self } } else { self }
    }

    /// Whether the unit is in the state that switching it off leaves: every
    /// register cleared, except wave RAM.
    pub open spec fn is_reset(&self, prior: Apu) -> bool {
        &&& !self.on
        &&& self.render_timer == 0
        &&& !self.ch1.ab.on && !self.ch1.ab.dac_on && self.ch1.ab.out == 0
        &&& !self.ch2.ab.on && !self.ch2.ab.dac_on && self.ch2.ab.out == 0
        &&& !self.ch3.on && !self.ch3.dac_on && self.ch3.ram == prior.ch3.ram
        &&& !self.ch4.on && !self.ch4.dac_on && self.ch4.out == 0
        &&& self.l_vol == 0 && !self.l_vin && self.r_vol == 0 && !self.r_vin
        &&& self.nr51 == 0 && self.l_out == 0 && self.r_out == 0 && self.seq_step == 0
        &&& self.ext_sample_period == prior.ext_sample_period
        &&& self.samples_run == prior.samples_run
    }

    /// Whether every field outside the four channels equals the one of `o`.
    pub open spec fn same_regs(&self, o: Apu) -> bool {
        &&& self.nr51 == o.nr51
        &&& self.on == o.on
        &&& self.r_vol == o.r_vol
        &&& self.l_vol == o.l_vol
        &&& self.r_vin == o.r_vin
        &&& self.l_vin == o.l_vin
        &&& self.render_timer == o.render_timer
        &&& self.ext_sample_period == o.ext_sample_period
        &&& self.seq_step == o.seq_step
        &&& self.l_out == o.l_out
        &&& self.r_out == o.r_out
        &&& self.samples_run == o.samples_run
    }

    /// Field-by-field equality with `o`.
    pub open spec fn same_as(&self, o: Apu) -> bool {
        &&& self.ch1 == o.ch1
        &&& self.ch2 == o.ch2
        &&& self.ch3 == o.ch3
        &&& self.ch4 == o.ch4
        &&& self.same_regs(o)
    }

    /// Reads NR50: volumes and VIN routing.
    pub fn read_nr50(&self) -> (r: u8)
        ensures
            r == self.spec_read_nr50(),
    {
        self.r_vol | ((if self.r_vin { 1u8 } else { 0u8 }) << 3u8) | (self.l_vol << 4u8) | ((
        if self.l_vin {
            1u8
        } else {
            0u8
        }) << 7u8)
    }

    /// Reads NR51: channel routing.
    pub fn read_nr51(&self) -> (r: u8)
        ensures
            r == self.nr51,
    {
        self.nr51
    }

    /// Reads NR52: master enable and channel status.
    pub fn read_nr52(&self) -> (r: u8)
        ensures
            r == self.spec_read_nr52(),
    {
        ((if self.on { 1u8 } else { 0u8 }) << 7u8) | 0x70 | ((if self.ch4.on() { 1u8 } else { 0u8 })
            << 3u8) | ((if self.ch3.on() { 1u8 } else { 0u8 }) << 2u8) | ((if self.ch2.on() {
            1u8
        } else {
            0u8
        }) << 1u8) | (if self.ch1.on() { 1u8 } else { 0u8 })
    }

    /// Writes NR50.
    pub fn write_nr50(&mut self, val: u8)
        requires
            old(self).wf(),
        ensures
            final(self).wf(),
            *final(self) == old(self).spec_write_nr50(val),
    {
        if self.on {
            self.r_vol = val & 7;
            self.r_vin = val & 8 != 0;
            self.l_vol = (val >> 4u8) & 7;
            self.l_vin = val & 0x80 != 0;
            proof { crate::bits::lemma_and_u8(val, 7); crate::bits::lemma_and_u8(val >> 4u8, 7); }
        }
    }

    /// Writes NR51.
    pub fn write_nr51(&mut self, val: u8)
        requires
            old(self).wf(),
        ensures
            final(self).wf(),
            *final(self) == old(self).spec_write_nr51(val),
    {
        if self.on {
            self.nr51 = val;
        }
    }

    /// Writes NR52: bit 7 switches the unit; switching it off clears every
    /// register except wave RAM.
    pub fn write_nr52(&mut self, val: u8)
        requires
            old(self).wf(),
        ensures
            final(self).wf(),
            final(self).on == (val & 0x80 != 0),
            val & 0x80 != 0 ==> *final(self) == (Apu { on: true, ..*old(self) }),
            val & 0x80 == 0 ==> final(self).is_reset(*old(self)),
    {
        self.on = val & 0x80 != 0;
        if !self.on {
            self.render_timer = 0;
            self.ch1 = Square1::new();
            self.ch2 = Square2::new();
            self.ch3.reset();
            self.ch4 = Noise::new();
            self.l_vol = 0;
            self.l_vin = false;
            self.r_vol = 0;
            self.r_vin = false;
            self.nr51 = 0;
            self.l_out = 0;
            self.r_out = 0;
            self.seq_step = 0;
        }
    }

    /// Master enable.
    pub fn on(&self) -> (r: bool)
        ensures
            r == self.on,
    {
        self.on
    }

    /// Reads PCM12: outputs of the two square channels.
    pub fn pcm12(&self) -> (r: u8)
        requires
            self.wf(),
        ensures
            r == (self.ch1.ab.spec_out() as u8) | ((self.ch2.ab.spec_out() as u8) << 4u8),
    {
        self.ch1.out() | (self.ch2.out() << 4u8)
    }

    /// Reads PCM34: outputs of the wave and noise channels.
    pub fn pcm34(&self) -> (r: u8)
        requires
            self.wf(),
        ensures
            r == self.ch3.spec_out() | (((self.ch4.out * self.ch4.env.vol) as u8) << 4u8),
    {
        self.ch3.out() | (self.ch4.out() << 4u8)
    }

    pub fn read_nr10(&self) -> (r: u8)
        requires
            self.wf(),
        ensures
            r == self.ch1.ab.wl.sweep.spec_read(),
    {
        self.ch1.read_nr10()
    }

    pub fn read_nr11(&self) -> (r: u8)
        ensures
            r == self.ch1.ab.spec_read_nrx1(),
    {
        self.ch1.read_nr11()
    }

    pub fn read_nr12(&self) -> (r: u8)
        requires
            self.wf(),
        ensures
            r == self.ch1.ab.env.spec_read(),
    {
        self.ch1.read_nr12()
    }

    pub fn read_nr14(&self) -> (r: u8)
        ensures
            r == self.ch1.ab.spec_read_nrx4(),
    {
        self.ch1.read_nr14()
    }

    pub fn read_nr21(&self) -> (r: u8)
        ensures
            r == self.ch2.ab.spec_read_nrx1(),
    {
        self.ch2.read_nr21()
    }

    pub fn read_nr22(&self) -> (r: u8)
        requires
            self.wf(),
        ensures
            r == self.ch2.ab.env.spec_read(),
    {
        self.ch2.read_nr22()
    }

    pub fn read_nr24(&self) -> (r: u8)
        ensures
            r == self.ch2.ab.spec_read_nrx4(),
    {
        self.ch2.read_nr24()
    }

    pub fn read_nr30(&self) -> (r: u8)
        ensures
            r == self.ch3.spec_read_nr30(),
    {
        self.ch3.read_nr30()
    }

    pub fn read_nr32(&self) -> (r: u8)
        ensures
            r == self.ch3.spec_read_nr32(),
    {
        self.ch3.read_nr32()
    }

    pub fn read_nr34(&self) -> (r: u8)
        ensures
            r == self.ch3.spec_read_nr34(),
    {
        self.ch3.read_nr34()
    }

    pub fn read_nr42(&self) -> (r: u8)
        requires
            self.wf(),
        ensures
            r == self.ch4.env.spec_read(),
    {
        self.ch4.read_nr42()
    }

    pub fn read_nr43(&self) -> (r: u8)
        ensures
            r == self.ch4.nr43,
    {
        self.ch4.read_nr43()
    }

    pub fn read_nr44(&self) -> (r: u8)
        ensures
            r == self.ch4.spec_read_nr44(),
    {
        self.ch4.read_nr44()
    }

    pub fn write_nr10(&mut self, val: u8)
        requires
            old(self).wf(),
        ensures
            final(self).wf(),
            *final(self) == old(self).spec_write_nr10(val),
    {
        self.ch1.write_nr10(val);
    }

    pub fn write_nr11(&mut self, val: u8)
        requires
            old(self).wf(),
        ensures
            final(self).wf(),
            *final(self) == old(self).spec_write_nr11(val),
    {
        self.ch1.write_nr11(val);
    }

    pub fn write_nr12(&mut self, val: u8)
        requires
            old(self).wf(),
        ensures
            final(self).wf(),
            *final(self) == old(self).spec_write_nr12(val),
    {
        self.ch1.write_nr12(val);
    }

    pub fn write_nr13(&mut self, val: u8)
        requires
            old(self).wf(),
        ensures
            final(self).wf(),
            *final(self) == old(self).spec_write_nr13(val),
    {
        self.ch1.write_nr13(val);
    }

    pub fn write_nr14(&mut self, val: u8)
        requires
            old(self).wf(),
        ensures
            final(self).wf(),
            *final(self) == old(self).spec_write_nr14(val),
    {
        self.ch1.write_nr14(val);
    }

    pub fn write_nr21(&mut self, val: u8)
        requires
            old(self).wf(),
        ensures
            final(self).wf(),
            *final(self) == old(self).spec_write_nr21(val),
    {
        self.ch2.write_nr21(val);
    }

    pub fn write_nr22(&mut self, val: u8)
        requires
            old(self).wf(),
        ensures
            final(self).wf(),
            *final(self) == old(self).spec_write_nr22(val),
    {
        self.ch2.write_nr22(val);
    }

    pub fn write_nr23(&mut self, val: u8)
        requires
            old(self).wf(),
        ensures
            final(self).wf(),
            *final(self) == old(self).spec_write_nr23(val),
    {
        self.ch2.write_nr23(val);
    }

    pub fn write_nr24(&mut self, val: u8)
        requires
            old(self).wf(),
        ensures
            final(self).wf(),
            *final(self) == old(self).spec_write_nr24(val),
    {
        self.ch2.write_nr24(val);
    }

    pub fn write_nr30(&mut self, val: u8)
        requires
            old(self).wf(),
        ensures
            final(self).wf(),
            *final(self) == old(self).spec_write_nr30(val),
    {
        self.ch3.write_nr30(val);
    }

    pub fn write_nr31(&mut self, val: u8)
        requires
            old(self).wf(),
        ensures
            final(self).wf(),
            *final(self) == old(self).spec_write_nr31(val),
    {
        self.ch3.write_nr31(val);
    }

    pub fn write_nr32(&mut self, val: u8)
        requires
            old(self).wf(),
        ensures
            final(self).wf(),
            *final(self) == old(self).spec_write_nr32(val),
    {
        self.ch3.write_nr32(val);
    }

    pub fn write_nr33(&mut self, val: u8)
        requires
            old(self).wf(),
        ensures
            final(self).wf(),
            *final(self) == old(self).spec_write_nr33(val),
    {
        self.ch3.write_nr33(val);
    }

    pub fn write_nr34(&mut self, val: u8)
        requires
            old(self).wf(),
        ensures
            final(self).wf(),
            *final(self) == old(self).spec_write_nr34(val),
    {
        self.ch3.write_nr34(val);
    }

    pub fn write_nr41(&mut self, val: u8)
        requires
            old(self).wf(),
        ensures
            final(self).wf(),
            *final(self) == old(self).spec_write_nr41(val),
    {
        self.ch4.write_nr41(val);
    }

    pub fn write_nr42(&mut self, val: u8)
        requires
            old(self).wf(),
        ensures
            final(self).wf(),
            *final(self) == old(self).spec_write_nr42(val),
    {
        self.ch4.write_nr42(val);
    }

    pub fn write_nr43(&mut self, val: u8)
        requires
            old(self).wf(),
        ensures
            final(self).wf(),
            *final(self) == old(self).spec_write_nr43(val),
    {
        self.ch4.write_nr43(val);
    }

    pub fn write_nr44(&mut self, val: u8)
        requires
            old(self).wf(),
        ensures
            final(self).wf(),
            *final(self) == old(self).spec_write_nr44(val),
    {
        self.ch4.write_nr44(val);
    }

    /// Reads wave RAM at I/O address `addr` (0x30 to 0x3F).
    pub fn read_wave_ram(&self, addr: u8) -> (r: u8)
        requires
            0x30 <= addr <= 0x3F,
        ensures
            r == self.ch3.ram[addr - 0x30],
    {
        self.ch3.read_wave_ram(addr)
    }

    /// Writes wave RAM at I/O address `addr` (0x30 to 0x3F).
    pub fn write_wave_ram(&mut self, addr: u8, val: u8)
        requires
            old(self).wf(),
            0x30 <= addr <= 0x3F,
        ensures
            final(self).wf(),
            final(self).ch3.ram@ == old(self).ch3.ram@.update(addr - 0x30, val),
            final(self).ch3.samples@ == old(self).ch3.samples@.update(2 * (addr - 0x30), val >> 4u8).update(
                2 * (addr - 0x30) + 1,
                val & 0xF,
            ),
            *final(self) == (Apu { ch3: final(self).ch3, ..*old(self) }),
            final(self).ch3 == (Wave { ram: final(self).ch3.ram, samples: final(self).ch3.samples, ..old(self).ch3 }),
    {
        self.ch3.write_wave_ram(addr, val);
    }
}

} // verus!

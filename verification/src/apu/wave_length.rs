//! Frequency timer of the square and wave channels, with the channel's
//! optional sweep unit.
use vstd::prelude::*;
use super::sweep::SweepTrait;

verus! {

/// Highest frequency value plus one (frequencies are 11 bits wide).
pub const MAX_FREQ: u16 = 0x800;

/// Frequency timer: fires every `PERIOD_MUL * (2048 - freq)` t-cycles.
pub struct WaveLength<const PERIOD_MUL: u16, S: SweepTrait> {
    pub period: i32,
    /// 11-bit frequency.
    pub freq: u16,
    pub sweep: S,
}

/// Number of t-cycles between two firings of the timer.
pub open spec fn spec_period(mul: u16, freq: u16) -> int {
    mul * (MAX_FREQ - freq)
}

impl<const PERIOD_MUL: u16, S: SweepTrait> WaveLength<PERIOD_MUL, S> {
    /// The frequency is 11 bits wide and the sweep unit is sound.
    pub open spec fn wf(&self) -> bool {
        &&& self.freq < MAX_FREQ
        &&& self.sweep.inv()
    }

    /// Timer after the low frequency bits (NRx3) are written.
    pub open spec fn spec_write_low(self, val: u8) -> Self {
        WaveLength { freq: (self.freq & 0x700) | (val as u16), ..self }
    }

    /// Timer after the high frequency bits (bits 0-2 of NRx4) are written.
    pub open spec fn spec_write_high(self, val: u8) -> Self {
        WaveLength { freq: (((val as u16) & 7) << 8u16) | (self.freq & 0xFF), ..self }
    }

    /// Timer and channel-enable after a channel trigger.
    pub open spec fn spec_trigger(self, on: bool) -> (Self, bool) {
        let (s, f, o) = self.sweep.spec_trigger(self.freq, on);
        (WaveLength { period: spec_period(PERIOD_MUL, self.freq) as i32, freq: f, sweep: s }, o)
    }

    /// Timer after `t_cycles`, and whether it fired. The period counter
    /// wraps around on overflow.
    pub open spec fn spec_step(self, t_cycles: i32) -> (Self, bool) {
        let p = self.period.wrapping_sub(t_cycles);
        if p < 0 {
            (WaveLength { period: (p + spec_period(PERIOD_MUL, self.freq)) as i32, ..self }, true)
        } else {
            (WaveLength { period: p, ..self }, false)
        }
    }

    /// Timer and channel-enable after one sweep clock.
    pub open spec fn spec_step_sweep(self, on: bool) -> (Self, bool) {
        let (s, f, o) = self.sweep.spec_step(self.freq, on);
        (WaveLength { freq: f, sweep: s, ..self }, o)
    }

    /// Timer at power on.
    pub(crate) fn new() -> (r: Self)
        requires
            1 <= PERIOD_MUL <= 4,
        ensures
            r.wf(),
            r.sweep.ready(),
            r.freq == 0,
            r.period == spec_period(PERIOD_MUL, 0),
            r.sweep == S::spec_new(),
    {
        WaveLength { period: Self::calc_period(0), freq: 0, sweep: S::new() }
    }

    /// Reads NRx0 (the sweep register).
    pub(crate) fn read_sweep(&self) -> (r: u8)
        requires
            self.wf(),
        ensures
            r == self.sweep.spec_read(),
    {
        self.sweep.read()
    }

    /// Writes NRx0 (the sweep register).
    pub(crate) fn write_sweep(&mut self, val: u8)
        requires
            old(self).wf(),
        ensures
            final(self).wf(),
            final(self).sweep == old(self).sweep.spec_write(val),
            old(self).sweep.ready() ==> final(self).sweep.ready(),
            final(self).freq == old(self).freq,
            final(self).period == old(self).period,
    {
        self.sweep.write(val);
    }

    /// Writes the low eight frequency bits (NRx3).
    pub(crate) fn write_low(&mut self, val: u8)
        requires
            old(self).wf(),
        ensures
            final(self).wf(),
            *final(self) == old(self).spec_write_low(val),
    {
        let f = self.freq;
        let nf = (f & 0x700) | (val as u16);
        assert(nf < 0x800) by (bit_vector)
            requires nf == (f & 0x700) | (val as u16), val <= 0xFF;
        self.freq = nf;
    }

    /// Writes the high three frequency bits (bits 0-2 of NRx4).
    pub(crate) fn write_high(&mut self, val: u8)
        requires
            old(self).wf(),
        ensures
            final(self).wf(),
            *final(self) == old(self).spec_write_high(val),
    {
        let f = self.freq;
        let v = val as u16;
        let nf = ((v & 7) << 8u16) | (f & 0xFF);
        assert(nf < 0x800) by (bit_vector)
            requires nf == ((v & 7) << 8u16) | (f & 0xFF);
        self.freq = nf;
    }

    /// Channel trigger: reloads the period and the sweep unit.
    pub(crate) fn trigger(&mut self, on: &mut bool)
        requires
            old(self).wf(),
            1 <= PERIOD_MUL <= 4,
        ensures
            final(self).wf(),
            (*final(self), *final(on)) == old(self).spec_trigger(*old(on)),
            *final(on) ==> final(self).sweep.ready(),
            *final(on) ==> *old(on),
    {
        self.period = Self::calc_period(self.freq);
        self.sweep.trigger(&mut self.freq, on);
    }

    /// Advances the timer by `t_cycles`; returns whether it fired.
    pub(crate) fn step(&mut self, t_cycles: i32) -> (fired: bool)
        requires
            old(self).wf(),
            1 <= PERIOD_MUL <= 4,
        ensures
            final(self).wf(),
            (*final(self), fired) == old(self).spec_step(t_cycles),
    {
        let p = self.period.wrapping_sub(t_cycles);
        self.period = p;
        if p < 0 {
            self.period = p + Self::calc_period(self.freq);
            return true;
        }
        false
    }

    /// One sweep clock.
    pub(crate) fn step_sweep(&mut self, on: &mut bool)
        requires
            old(self).wf(),
            old(self).sweep.ready(),
        ensures
            final(self).wf(),
            (*final(self), *final(on)) == old(self).spec_step_sweep(*old(on)),
            *final(on) ==> final(self).sweep.ready(),
            *final(on) ==> *old(on),
    {
        self.sweep.step(&mut self.freq, on);
    }

    /// Number of t-cycles between two firings at frequency `freq`.
    pub(crate) fn calc_period(freq: u16) -> (r: i32)
        requires
            freq < MAX_FREQ,
            1 <= PERIOD_MUL <= 4,
        ensures
            r == spec_period(PERIOD_MUL, freq),
            1 <= r <= 8192,
    {
        assert(PERIOD_MUL * (MAX_FREQ - freq) <= 4 * 2048) by (nonlinear_arith)
            requires 1 <= PERIOD_MUL <= 4, freq < MAX_FREQ;
        assert(PERIOD_MUL * (MAX_FREQ - freq) >= 1) by (nonlinear_arith)
            requires 1 <= PERIOD_MUL <= 4, freq < MAX_FREQ;
        (PERIOD_MUL * (MAX_FREQ - freq)) as i32
    }
}

} // verus!

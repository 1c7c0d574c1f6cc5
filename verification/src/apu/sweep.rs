//! Frequency sweep of the first square channel, behind a trait so that the
//! second square channel and the wave channel can go without one.
use vstd::prelude::*;

verus! {

/// A frequency sweep unit, or the absence of one.
pub trait SweepTrait: Sized {
    /// The unit's own invariant.
    spec fn inv(&self) -> bool;

    /// Whether the unit may be stepped: its shadow frequency is in range.
    spec fn ready(&self) -> bool;

    /// What NRx0 reads.
    spec fn spec_read(&self) -> u8;

    /// The unit after NRx0 is written.
    spec fn spec_write(&self, val: u8) -> Self;

    /// The unit, frequency and channel-enable after one sweep clock.
    spec fn spec_step(&self, freq: u16, on: bool) -> (Self, u16, bool);

    /// The unit, frequency and channel-enable after a trigger.
    spec fn spec_trigger(&self, freq: u16, on: bool) -> (Self, u16, bool);

    /// The unit at power on.
    spec fn spec_new() -> Self;

    /// Power-on state.
    fn new() -> (r: Self)
        ensures
            r == Self::spec_new(),
            r.inv(),
            r.ready(),
    ;

    /// Reads NRx0.
    fn read(&self) -> (r: u8)
        requires
            self.inv(),
        ensures
            r == self.spec_read(),
    ;

    /// Writes NRx0.
    fn write(&mut self, val: u8)
        requires
            old(self).inv(),
        ensures
            *final(self) == old(self).spec_write(val),
            final(self).inv(),
            old(self).ready() ==> final(self).ready(),
    ;

    /// One sweep clock.
    fn step(&mut self, freq: &mut u16, on: &mut bool)
        requires
            old(self).inv(),
            old(self).ready(),
            *old(freq) <= 0x7FF,
        ensures
            (*final(self), *final(freq), *final(on)) == old(self).spec_step(*old(freq), *old(on)),
            final(self).inv(),
            *final(freq) <= 0x7FF,
            *final(on) ==> final(self).ready(),
            *final(on) ==> *old(on),
    ;

    /// Channel trigger: reloads the unit from the current frequency.
    fn trigger(&mut self, freq: &mut u16, on: &mut bool)
        requires
            old(self).inv(),
            *old(freq) <= 0x7FF,
        ensures
            (*final(self), *final(freq), *final(on)) == old(self).spec_trigger(
                *old(freq),
                *old(on),
            ),
            final(self).inv(),
            *final(freq) <= 0x7FF,
            *final(on) ==> final(self).ready(),
            *final(on) ==> *old(on),
    ;
}

/// Direction of the frequency sweep.
#[derive(Clone, Copy, PartialEq, Eq, Structural, Debug)]
pub enum SweepDirection {
    /// Frequency goes up.
    Add,
    /// Frequency goes down.
    Sub,
}

impl SweepDirection {
    /// Bit 3 of NR10 selects the direction.
    pub(crate) fn from_u8(val: u8) -> (r: Self)
        ensures
            r == (if val & 8 == 0 { SweepDirection::Add } else { SweepDirection::Sub }),
    {
        if val & 8 == 0 {
            Self::Add
        } else {
            Self::Sub
        }
    }

    /// The direction as it reads back in bit 3 of NR10.
    pub(crate) fn to_u8(self) -> (r: u8)
        ensures
            r == self.spec_bits(),
    {
        match self {
            Self::Add => 0,
            Self::Sub => 8,
        }
    }

    /// Bit 3 of NR10 for this direction.
    pub open spec fn spec_bits(self) -> u8 {
        match self {
            SweepDirection::Add => 0u8,
            SweepDirection::Sub => 8u8,
        }
    }
}

/// The sweep unit of the first square channel.
#[derive(PartialEq, Eq, Structural, Debug)]
pub struct Sweep {
    pub on: bool,
    pub dir: SweepDirection,
    /// Sweep pace, between 0 and 7.
    pub pace: u8,
    /// Current sweep period, between 1 and 8 (a pace of 0 counts as 8).
    pub shpc: u8,
    /// Shift, between 0 and 7.
    pub shift: u8,
    pub timer: u8,
    /// Shadow frequency.
    pub shwf: u16,
}

/// The next shadow frequency: the current one plus or minus itself shifted right.
pub open spec fn next_shadow(shwf: u16, shift: u8, dir: SweepDirection) -> int {
    let t = shwf >> shift;
    match dir {
        SweepDirection::Sub => shwf - t,
        SweepDirection::Add => shwf + t,
    }
}

impl Sweep {
    /// The sweep period that a pace selects.
    pub open spec fn period_of(pace: u8) -> u8 {
        if pace == 0 { 8 } else { pace }
    }

    /// The unit, frequency and channel-enable after one frequency calculation:
    /// a result above 0x7FF disables the channel, otherwise a non-zero shift
    /// makes it the new frequency.
    pub open spec fn spec_calculate(&self, freq: u16, on: bool) -> (Sweep, u16, bool) {
        let n = next_shadow(self.shwf, self.shift, self.dir);
        let s = Sweep { shwf: n as u16, ..*self };
        if n > 0x7FF {
            (s, freq, false)
        } else if self.shift != 0 {
            (s, (n as u16) & 0x7FF, on)
        } else {
            (s, freq, on)
        }
    }

    fn calculate_sweep(&mut self, freq: &mut u16, on: &mut bool)
        requires
            old(self).shwf <= 0x7FF,
            old(self).shift <= 7,
        ensures
            (*final(self), *final(freq), *final(on)) == old(self).spec_calculate(*old(freq), *old(on)),
            *old(freq) <= 0x7FF ==> *final(freq) <= 0x7FF,
            *final(on) ==> final(self).shwf <= 0x7FF,
            *final(on) ==> *old(on),
    {
        let w = self.shwf;
        let sh = self.shift;
        let t = w >> sh;
        assert(t <= w) by (bit_vector)
            requires t == w >> sh;
        self.shwf = match self.dir {
            SweepDirection::Sub => self.shwf - t,
            SweepDirection::Add => self.shwf + t,
        };
        if self.shwf > 0x7FF {
            *on = false;
            return;
        }
        if self.shift != 0 {
            let n = self.shwf;
            proof { crate::bits::lemma_and_u16(n, 0x7FF); }
            *freq = n & 0x7FF;
        }
    }
}

impl SweepTrait for Sweep {
    open spec fn inv(&self) -> bool {
        &&& self.pace <= 7
        &&& 1 <= self.shpc <= 8
        &&& self.shift <= 7
        &&& self.timer <= 8
    }

    open spec fn ready(&self) -> bool {
        self.shwf <= 0x7FF
    }

    open spec fn spec_read(&self) -> u8 {
        0x80 | (self.pace << 4u8) | self.dir.spec_bits() | self.shift
    }

    open spec fn spec_write(&self, val: u8) -> Sweep {
        let pace = (val >> 4u8) & 7;
        Sweep {
            pace,
            on: if pace == 0 { false } else { self.on },
            shpc: if pace != 0 && self.shpc == 8 { pace } else { self.shpc },
            dir: if val & 8 == 0 { SweepDirection::Add } else { SweepDirection::Sub },
            shift: val & 7,
            ..*self
        }
    }

    open spec fn spec_step(&self, freq: u16, on: bool) -> (Sweep, u16, bool) {
        if !self.on {
            (*self, freq, on)
        } else if self.timer + 1 > self.shpc {
            let s0 = Sweep { timer: 0, ..*self };
            let (s1, f1, o1) = s0.spec_calculate(freq, on);
            (Sweep { shpc: Sweep::period_of(self.pace), ..s1 }, f1, o1)
        } else {
            (Sweep { timer: (self.timer + 1) as u8, ..*self }, freq, on)
        }
    }

    open spec fn spec_trigger(&self, freq: u16, on: bool) -> (Sweep, u16, bool) {
        let s0 = Sweep {
            shwf: freq,
            timer: 0,
            on: self.pace > 0 && self.shift != 0,
            shpc: Sweep::period_of(self.pace),
            ..*self
        };
        if self.shift != 0 {
            s0.spec_calculate(freq, on)
        } else {
            (s0, freq, on)
        }
    }

    open spec fn spec_new() -> Sweep {
        Sweep { shpc: 8, pace: 0, dir: SweepDirection::Add, shift: 0, timer: 0, shwf: 0, on: false }
    }

    fn new() -> (r: Sweep) {
        Sweep { shpc: 8, pace: 0, dir: SweepDirection::Add, shift: 0, timer: 0, shwf: 0, on: false }
    }

    fn read(&self) -> (r: u8) {
        0x80 | (self.pace << 4u8) | self.dir.to_u8() | self.shift
    }

    fn write(&mut self, val: u8) {
        self.pace = (val >> 4u8) & 7;
        if self.pace == 0 {
            self.on = false;
        }
        if self.pace != 0 && self.shpc == 8 {
            self.shpc = self.pace;
        }
        self.dir = SweepDirection::from_u8(val);
        self.shift = val & 7;
        proof {
            crate::bits::lemma_and_u8(val >> 4u8, 7);
            crate::bits::lemma_and_u8(val, 7);
        }
    }

    fn step(&mut self, freq: &mut u16, on: &mut bool) {
        if !self.on {
            return;
        }
        self.timer += 1;
        if self.timer > self.shpc {
            self.timer = 0;
            self.calculate_sweep(freq, on);
            self.shpc = if self.pace == 0 { 8 } else { self.pace };
        }
    }

    fn trigger(&mut self, freq: &mut u16, on: &mut bool) {
        self.shwf = *freq;
        self.timer = 0;
        self.on = self.pace > 0 && self.shift != 0;
        self.shpc = if self.pace == 0 { 8 } else { self.pace };
        if self.shift != 0 {
            self.calculate_sweep(freq, on);
        }
    }
}

/// The absence of a sweep unit: NRx0 reads as 0xFF and nothing ever changes.
impl SweepTrait for () {
    open spec fn inv(&self) -> bool {
        true
    }

    open spec fn ready(&self) -> bool {
        true
    }

    open spec fn spec_read(&self) -> u8 {
        0xFF
    }

    open spec fn spec_write(&self, val: u8) -> () {
        ()
    }

    open spec fn spec_step(&self, freq: u16, on: bool) -> ((), u16, bool) {
        ((), freq, on)
    }

    open spec fn spec_trigger(&self, freq: u16, on: bool) -> ((), u16, bool) {
        ((), freq, on)
    }

    open spec fn spec_new() -> () {
        ()
    }

    fn new() -> (r: ()) {
    }

    fn read(&self) -> (r: u8) {
        0xFF
    }

    fn write(&mut self, val: u8) {
    }

    fn step(&mut self, freq: &mut u16, on: &mut bool) {
    }

    fn trigger(&mut self, freq: &mut u16, on: &mut bool) {
    }
}

} // verus!

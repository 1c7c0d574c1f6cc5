//! The wave channel: plays 32 four-bit samples from wave RAM.
use vstd::prelude::*;
use super::PHalf;
use super::length_timer::LengthTimer;
use super::wave_length::WaveLength;

verus! {

/// Bytes of wave RAM.
pub const RAM_LEN: u8 = 0x10;
/// Four-bit samples in wave RAM.
pub const SAMPLE_LEN: u8 = 0x20;

/// The wave channel.
pub struct Wave {
    pub ltim: LengthTimer<0x100>,
    pub wl: WaveLength<2, ()>,
    pub on: bool,
    pub dac_on: bool,
    pub sample_buf: u8,
    pub ram: [u8; 16],
    pub samples: [u8; 32],
    pub sample_idx: u8,
    pub vol: u8,
    pub nr30: u8,
}

/// The `i`-th four-bit sample held in wave RAM `ram`: upper nibble first.
pub open spec fn ram_sample(ram: Seq<u8>, i: int) -> u8 {
    if i % 2 == 0 {
        ram[i / 2] >> 4u8
    } else {
        ram[i / 2] & 0xF
    }
}

impl Wave {
    /// Field ranges: samples and the sample buffer are four bits wide.
    #[verifier::opaque]
    pub open spec fn wf(&self) -> bool {
        &&& self.ltim.wf()
        &&& self.wl.wf()
        &&& self.sample_buf <= 15
        &&& self.sample_idx < 32
        &&& self.vol <= 3
        &&& forall|i: int| 0 <= i < 32 ==> #[trigger] self.samples[i] <= 15
    }

    /// What NR30 reads.
    pub open spec fn spec_read_nr30(&self) -> u8 {
        self.nr30 | 0x7F
    }

    /// What NR32 reads: volume code in bits 5-6.
    pub open spec fn spec_read_nr32(&self) -> u8 {
        0x9F | (self.vol << 5u8)
    }

    /// What NR34 reads: length enable in bit 6.
    pub open spec fn spec_read_nr34(&self) -> u8 {
        0xBF | (if self.ltim.on { 0x40u8 } else { 0u8 })
    }

    /// Channel after NR30 is written: bit 7 switches the DAC.
    pub open spec fn spec_write_nr30(self, val: u8) -> Self {
        let dac_on = val & 0x80 != 0;
        Wave { nr30: val, on: if dac_on { self.on } else { false }, dac_on, ..self }
    }

    /// Channel after NR31 is written: length.
    pub open spec fn spec_write_nr31(self, val: u8) -> Self {
        Wave { ltim: self.ltim.spec_write_len(val), ..self }
    }

    /// Channel after NR32 is written: volume code.
    pub open spec fn spec_write_nr32(self, val: u8) -> Self {
        Wave { vol: (val >> 5u8) & 3, ..self }
    }

    /// Channel after NR33 is written: low frequency bits.
    pub open spec fn spec_write_nr33(self, val: u8) -> Self {
        Wave { wl: self.wl.spec_write_low(val), ..self }
    }

    /// Channel after NR34 is written: high frequency bits, length enable and,
    /// with bit 7 set, a trigger that restarts from the first sample.
    pub open spec fn spec_write_nr34(self, val: u8) -> Self {
        let wl1 = self.wl.spec_write_high(val);
        let (lt1, on1) = self.ltim.spec_write_on(val, self.on);
        if val & 0x80 != 0 {
            let on2 = if self.dac_on { true } else { on1 };
            let (lt2, on3) = lt1.spec_trigger(on2);
            let (wl2, on4) = wl1.spec_trigger(on3);
            Wave { wl: wl2, ltim: lt2, on: on4, sample_idx: 0, ..self }
        } else {
            Wave { wl: wl1, ltim: lt1, on: on1, ..self }
        }
    }

    /// Channel after `cycles` t-cycles: each firing of the frequency timer
    /// loads the next sample.
    pub open spec fn spec_step_sample(self, cycles: i32) -> Self {
        if !self.on {
            self
        } else {
            let (wl, fired) = self.wl.spec_step(cycles);
            if fired {
                let idx = ((self.sample_idx + 1) as u8) & (SAMPLE_LEN - 1) as u8;
                Wave { wl, sample_idx: idx, sample_buf: self.samples[idx as int], ..self }
            } else {
                Wave { wl, ..self }
            }
        }
    }

    /// Channel once the frame sequencer enters length-period half `p_half`.
    pub open spec fn spec_set_period_half(self, p_half: PHalf) -> Self {
        Wave { ltim: self.ltim.spec_set_phalf(p_half), ..self }
    }

    /// Channel after one length clock.
    pub open spec fn spec_step_len(self) -> Self {
        let (ltim, on) = self.ltim.spec_step(self.on);
        Wave { ltim, on, ..self }
    }

    /// Channel output: the current sample shifted right by the volume code
    /// minus one (code 0 mutes).
    pub open spec fn spec_out(&self) -> u8 {
        self.sample_buf.wrapping_shr(self.vol.wrapping_sub(1) as u32)
    }

    /// Silent channel with cleared wave RAM.
    pub(crate) fn new() -> (r: Self)
        ensures
            r.wf(),
            !r.on && !r.dac_on && r.vol == 0 && r.sample_buf == 0 && r.nr30 == 0,
            r.ram@ == Seq::new(16, |i: int| 0u8),
    {
        proof {
            reveal(Wave::wf);
        }
        let r = Wave {
            ltim: LengthTimer::new(),
            wl: WaveLength::new(),
            on: false,
            dac_on: false,
            sample_buf: 0,
            ram: [0u8; 16],
            samples: [0u8; 32],
            sample_idx: 0,
            vol: 0,
            nr30: 0,
        };
        assert(r.ram@ =~= Seq::new(16, |i: int| 0u8));
        r
    }

    /// Reads wave RAM at I/O address `addr` (0x30 to 0x3F).
    pub(crate) fn read_wave_ram(&self, addr: u8) -> (r: u8)
        requires
            0x30 <= addr <= 0x3F,
        ensures
            r == self.ram[addr - 0x30],
    {
        proof {
            reveal(Wave::wf);
        }
        let index = addr - 0x30;
        self.ram[index as usize]
    }

    /// Writes wave RAM at I/O address `addr` (0x30 to 0x3F), and the two
    /// samples that byte holds.
    pub(crate) fn write_wave_ram(&mut self, addr: u8, val: u8)
        requires
            old(self).wf(),
            0x30 <= addr <= 0x3F,
        ensures
            final(self).wf(),
            final(self).ram@ == old(self).ram@.update(addr - 0x30, val),
            final(self).samples@ == old(self).samples@.update(2 * (addr - 0x30), val >> 4u8).update(
                2 * (addr - 0x30) + 1,
                val & 0xF,
            ),
            final(self).on == old(self).on && final(self).dac_on == old(self).dac_on,
            final(self).ltim == old(self).ltim && final(self).wl == old(self).wl,
            final(self).sample_buf == old(self).sample_buf,
            final(self).sample_idx == old(self).sample_idx,
            final(self).vol == old(self).vol && final(self).nr30 == old(self).nr30,
    {
        proof {
            reveal(Wave::wf);
        }
        let index = addr - 0x30;
        self.ram[index as usize] = val;
        proof { crate::bits::lemma_shr_u8(val); crate::bits::lemma_and_u8(val, 0xF); }
        self.samples[index as usize * 2] = val >> 4u8;
        self.samples[index as usize * 2 + 1] = val & 0xF;
    }

    pub(crate) fn read_nr30(&self) -> (r: u8)
        ensures
            r == self.spec_read_nr30(),
    {
        proof {
            reveal(Wave::wf);
        }
        self.nr30 | 0x7F
    }

    pub(crate) fn read_nr32(&self) -> (r: u8)
        ensures
            r == self.spec_read_nr32(),
    {
        proof {
            reveal(Wave::wf);
        }
        0x9F | (self.vol << 5u8)
    }

    pub(crate) fn read_nr34(&self) -> (r: u8)
        ensures
            r == self.spec_read_nr34(),
    {
        proof {
            reveal(Wave::wf);
        }
        0xBF | self.ltim.read_on()
    }

    pub(crate) fn write_nr30(&mut self, val: u8)
        requires
            old(self).wf(),
        ensures
            final(self).wf(),
            *final(self) == old(self).spec_write_nr30(val),
    {
        proof {
            reveal(Wave::wf);
        }
        self.nr30 = val;
        if val & 0x80 == 0 {
            self.on = false;
            self.dac_on = false;
        } else {
            self.dac_on = true;
        }
    }

    pub(crate) fn write_nr31(&mut self, val: u8)
        requires
            old(self).wf(),
        ensures
            final(self).wf(),
            *final(self) == old(self).spec_write_nr31(val),
    {
        proof {
            reveal(Wave::wf);
        }
        self.ltim.write_len(val);
    }

    pub(crate) fn write_nr32(&mut self, val: u8)
        requires
            old(self).wf(),
        ensures
            final(self).wf(),
            *final(self) == old(self).spec_write_nr32(val),
    {
        proof {
            reveal(Wave::wf);
        }
        assert((val >> 5u8) & 3 <= 3) by (bit_vector);
        self.vol = (val >> 5u8) & 3;
    }

    pub(crate) fn write_nr33(&mut self, val: u8)
        requires
            old(self).wf(),
        ensures
            final(self).wf(),
            *final(self) == old(self).spec_write_nr33(val),
    {
        proof {
            reveal(Wave::wf);
        }
        self.wl.write_low(val);
    }

    pub(crate) fn write_nr34(&mut self, val: u8)
        requires
            old(self).wf(),
        ensures
            final(self).wf(),
            *final(self) == old(self).spec_write_nr34(val),
    {
        proof {
            reveal(Wave::wf);
        }
        self.wl.write_high(val);
        self.ltim.write_on(val, &mut self.on);
        if val & 0x80 != 0 {
            if self.dac_on {
                self.on = true;
            }
            self.ltim.trigger(&mut self.on);
            self.wl.trigger(&mut self.on);
            self.sample_idx = 0;
        }
    }

    pub(crate) fn out(&self) -> (r: u8)
        requires
            self.wf(),
        ensures
            r == self.spec_out(),
            r <= 15,
    {
        proof {
            reveal(Wave::wf);
        }
        let r = self.sample_buf.wrapping_shr(self.vol.wrapping_sub(1) as u32);
        let b = self.sample_buf;
        let s = self.vol.wrapping_sub(1) as u32;
        assert(r <= 15) by (bit_vector)
            requires b <= 15, r == b.wrapping_shr(s);
        r
    }

    pub(crate) fn step_sample(&mut self, cycles: i32)
        requires
            old(self).wf(),
        ensures
            final(self).wf(),
            *final(self) == old(self).spec_step_sample(cycles),
    {
        proof {
            reveal(Wave::wf);
        }
        if !self.on() {
            return;
        }
        if self.wl.step(cycles) {
            let n = self.sample_idx + 1;
            let idx = n & (SAMPLE_LEN - 1);
            assert(idx < 32) by (bit_vector)
                requires idx == n & 31u8;
            self.sample_idx = idx;
            self.sample_buf = self.samples[idx as usize];
        }
    }

    pub(crate) fn true_on(&self) -> (r: bool)
        ensures
            r == (self.on && self.dac_on),
    {
        proof {
            reveal(Wave::wf);
        }
        self.on && self.dac_on
    }

    pub(crate) fn step_len(&mut self)
        requires
            old(self).wf(),
        ensures
            final(self).wf(),
            *final(self) == old(self).spec_step_len(),
    {
        proof {
            reveal(Wave::wf);
        }
        self.ltim.step(&mut self.on);
    }

    pub(crate) fn set_period_half(&mut self, p_half: PHalf)
        requires
            old(self).wf(),
        ensures
            final(self).wf(),
            *final(self) == old(self).spec_set_period_half(p_half),
    {
        proof {
            reveal(Wave::wf);
        }
        self.ltim.set_phalf(p_half);
    }

    /// Silences the channel when the APU is switched off. Wave RAM keeps
    /// its contents.
    pub(crate) fn reset(&mut self)
        requires
            old(self).wf(),
        ensures
            final(self).wf(),
            final(self).ram == old(self).ram,
            !final(self).on && !final(self).dac_on,
            final(self).vol == 0 && final(self).sample_buf == 0 && final(self).sample_idx == 0,
            final(self).nr30 == 0,
            forall|i: int| 0 <= i < 32 ==> #[trigger] final(self).samples[i] == 0,
            final(self).wl.freq == 0,
            final(self).ltim.len == 0 && !final(self).ltim.on,
    {
        proof {
            reveal(Wave::wf);
        }
        self.vol = 0;
        self.on = false;
        self.dac_on = false;
        self.ltim = LengthTimer::new();
        self.sample_buf = 0;
        self.samples = [0u8; 32];
        self.sample_idx = 0;
        self.nr30 = 0;
        self.wl = WaveLength::new();
    }

    /// The channel's part of frame-sequencer step `step`.
    pub(crate) fn seq_step(&mut self, step: u8)
        requires
            old(self).wf(),
        ensures
            final(self).wf(),
            *final(self) == super::seq_wave(*old(self), step),
    {
        if step & 1 == 0 {
            self.step_len();
        }
        let half = if step & 1 == 0 { PHalf::First } else { PHalf::Second };
        self.set_period_half(half);
    }

    pub(crate) fn on(&self) -> (r: bool)
        ensures
            r == self.on,
    {
        proof {
            reveal(Wave::wf);
        }
        self.on
    }
}

/// Reading wave RAM gives back the byte last written at that address.
pub proof fn law_wave_ram_read_after_write(w: Wave, addr: u8, val: u8, w2: Wave)
    requires
        0x30 <= addr <= 0x3F,
        w2.ram@ == w.ram@.update(addr - 0x30, val),
    ensures
        w2.ram[addr - 0x30] == val,
{
}

} // verus!

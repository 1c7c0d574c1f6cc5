//! The timer: a 16-bit system counter (DIV is its high byte) and TIMA,
//! which counts falling edges of the counter bit that TAC selects.
use vstd::prelude::*;
use crate::Gb;
use crate::ppu::Ppu;

verus! {

/// Where TIMA is in its overflow sequence: after an overflow it is
/// reloading for one m-cycle (the interrupt is requested at its end), then
/// reloaded for one more.
#[derive(Clone, Copy, PartialEq, Eq, Structural, Debug)]
pub enum TIMAState {
    Reloading,
    Reloaded,
    Running,
}

/// The timer registers.
#[derive(Clone, Copy, PartialEq, Eq, Structural, Debug)]
pub struct Timer {
    pub tima: u8,
    pub tma: u8,
    /// The low three bits of TAC.
    pub tac: u8,
    pub tac_enable: bool,
    pub tima_state: TIMAState,
    pub wide_div_counter: u16,
}

/// The system counter bit whose falling edge clocks TIMA, for TAC's clock
/// select bits.
pub open spec fn spec_tac_mux(tac: u8) -> u16 {
    let s = tac & 3;
    if s == 0 { 0x200 } else if s == 1 { 0x8 } else if s == 2 { 0x20 } else { 0x80 }
}

/// TIMA counts on each falling edge of the counter bit that TAC selects, and
/// a counter bit of value b falls once every 2 * b t-cycles: with clock
/// select 0, 1, 2 and 3 TIMA counts every 1024, 16, 64 and 256 t-cycles
/// (bits 9, 3, 5 and 7).
pub proof fn law_tac_clock_period(tac: u8)
    ensures
        tac & 3 == 0 ==> 2 * spec_tac_mux(tac) == 1024,
        tac & 3 == 1 ==> 2 * spec_tac_mux(tac) == 16,
        tac & 3 == 2 ==> 2 * spec_tac_mux(tac) == 64,
        tac & 3 == 3 ==> 2 * spec_tac_mux(tac) == 256,
{
}

/// The system counter bit whose falling edge steps the audio frame
/// sequencer: bit 12, or bit 13 in double speed.
pub open spec fn spec_apu_bit(double_speed: bool) -> u16 {
    if double_speed { 0x2000 } else { 0x1000 }
}

impl Timer {
    pub open spec fn wf(&self) -> bool {
        &&& self.tac <= 7
        &&& self.tac_enable == (self.tac & 4 != 0)
    }

    /// The timer after one step of the overflow sequence, and whether the
    /// timer interrupt is requested.
    pub open spec fn spec_advance_state(self) -> (Timer, bool) {
        match self.tima_state {
            TIMAState::Reloading => (Timer { tima_state: TIMAState::Reloaded, ..self }, true),
            TIMAState::Reloaded => (Timer { tima_state: TIMAState::Running, ..self }, false),
            TIMAState::Running => (self, false),
        }
    }

    /// The timer after TIMA counts once: on overflow it takes TMA's value
    /// and the reload sequence begins.
    pub open spec fn spec_inc_tima(self) -> Timer {
        let t = self.tima.wrapping_add(1);
        if t == 0 {
            Timer { tima: self.tma, tima_state: TIMAState::Reloading, ..self }
        } else {
            Timer { tima: t, ..self }
        }
    }

    /// The timer after the system counter is set to `val`, and whether the
    /// audio frame sequencer steps: TIMA counts on a falling edge of the
    /// selected bit while enabled; the sequencer on a falling edge of its
    /// bit.
    pub open spec fn spec_set_clk(self, val: u16, double_speed: bool) -> (Timer, bool) {
        let triggers = self.wide_div_counter & !val;
        let t = if self.tac_enable && (triggers & spec_tac_mux(self.tac) != 0) {
            self.spec_inc_tima()
        } else {
            self
        };
        (Timer { wide_div_counter: val, ..t }, triggers & spec_apu_bit(double_speed) != 0)
    }

    /// One m-cycle: the overflow sequence advances and the system counter
    /// goes up by four. Returns the timer, whether the timer interrupt is
    /// requested, and whether the audio frame sequencer steps.
    pub open spec fn spec_step(self, double_speed: bool) -> (Timer, bool, bool) {
        let (a, irq) = self.spec_advance_state();
        let (b, apu) = a.spec_set_clk(a.wide_div_counter.wrapping_add(4), double_speed);
        (b, irq, apu)
    }

    /// The timer after `n` m-cycles.
    pub open spec fn spec_run(self, n: nat, double_speed: bool) -> Timer
        decreases n,
    {
        if n == 0 {
            self
        } else {
            self.spec_run((n - 1) as nat, double_speed).spec_step(double_speed).0
        }
    }

    /// Power-on state: everything zero, TIMA running.
    pub fn new() -> (r: Self)
        ensures
            r.wf(),
            r == (Timer { tima: 0, tma: 0, tac: 0, tac_enable: false, tima_state: TIMAState::Running, wide_div_counter: 0 }),
    {
        proof { crate::bits::lemma_and_u8(0, 4); }
        Timer { tima: 0, tma: 0, tac: 0, tac_enable: false, tima_state: TIMAState::Running, wide_div_counter: 0 }
    }

    /// The system counter bit selected by TAC.
    fn sys_clk_tac_mux(&self) -> (r: u16)
        ensures
            r == spec_tac_mux(self.tac),
    {
        let s = self.tac & 3;
        if s == 0 {
            0x200
        } else if s == 1 {
            0x8
        } else if s == 2 {
            0x20
        } else {
            0x80
        }
    }

    /// Advances the overflow sequence; returns whether the timer interrupt
    /// is requested.
    fn advance_tima_state(&mut self) -> (irq: bool)
        ensures
            (*final(self), irq) == old(self).spec_advance_state(),
    {
        match self.tima_state {
            TIMAState::Reloading => {
                self.tima_state = TIMAState::Reloaded;
                true
            },
            TIMAState::Reloaded => {
                self.tima_state = TIMAState::Running;
                false
            },
            TIMAState::Running => false,
        }
    }

    /// TIMA counts once.
    fn inc_tima(&mut self)
        ensures
            *final(self) == old(self).spec_inc_tima(),
    {
        self.tima = self.tima.wrapping_add(1);
        if self.tima == 0 {
            self.tima = self.tma;
            self.tima_state = TIMAState::Reloading;
        }
    }

    /// Sets the system counter (the only way it changes); returns whether
    /// the audio frame sequencer steps.
    pub fn set_system_clk(&mut self, val: u16, double_speed: bool) -> (apu_step: bool)
        requires
            old(self).wf(),
        ensures
            final(self).wf(),
            (*final(self), apu_step) == old(self).spec_set_clk(val, double_speed),
    {
        let triggers = self.wide_div_counter & !val;
        let apu_bit: u16 = if double_speed { 0x2000 } else { 0x1000 };
        if self.tac_enable && (triggers & self.sys_clk_tac_mux() != 0) {
            self.inc_tima();
        }
        self.wide_div_counter = val;
        triggers & apu_bit != 0
    }

    /// One m-cycle; returns whether the timer interrupt is requested and
    /// whether the audio frame sequencer steps.
    pub fn step(&mut self, double_speed: bool) -> (r: (bool, bool))
        requires
            old(self).wf(),
        ensures
            final(self).wf(),
            (*final(self), r.0, r.1) == old(self).spec_step(double_speed),
    {
        let irq = self.advance_tima_state();
        let next = self.wide_div_counter.wrapping_add(4);
        let apu = self.set_system_clk(next, double_speed);
        (irq, apu)
    }

    /// A write to DIV clears the system counter; returns whether the audio
    /// frame sequencer steps.
    pub fn write_div(&mut self, double_speed: bool) -> (apu_step: bool)
        requires
            old(self).wf(),
        ensures
            final(self).wf(),
            (*final(self), apu_step) == old(self).spec_set_clk(0, double_speed),
    {
        self.set_system_clk(0, double_speed)
    }

    /// DIV: the high byte of the system counter.
    pub fn read_div(&self) -> (r: u8)
        ensures
            r == (self.wide_div_counter >> 8u16) as u8,
    {
        (self.wide_div_counter >> 8) as u8
    }

    pub fn write_tima(&mut self, val: u8)
        ensures
            *final(self) == (Timer { tima: val, ..*old(self) }),
    {
        self.tima = val;
    }

    pub fn write_tma(&mut self, val: u8)
        ensures
            *final(self) == (Timer { tma: val, ..*old(self) }),
    {
        self.tma = val;
    }

    /// TAC: bit 2 enables TIMA, bits 0 and 1 select its clock.
    pub fn write_tac(&mut self, val: u8)
        ensures
            final(self).wf(),
            *final(self) == (Timer { tac: val & 7, tac_enable: val & 4 != 0, ..*old(self) }),
    {
        let t = val & 7;
        proof {
            crate::bits::lemma_and_u8(val, 7);
            crate::bits::lemma_mask_steps(0, 0, 0, val);
        }
        self.tac = t;
        self.tac_enable = val & 4 != 0;
    }

    /// TAC reads its unused bits high.
    pub fn read_tac(&self) -> (r: u8)
        ensures
            r == 0xF8 | self.tac,
    {
        0xF8 | self.tac
    }
}

/// When TIMA overflows it takes TMA's value, and the timer interrupt is
/// requested at the end of the next m-cycle.
pub proof fn law_tima_overflow_requests_interrupt(t: Timer, double_speed: bool)
    requires
        t.wf(),
        t.tima == 0xFF,
        t.tima_state == TIMAState::Running,
    ensures
        ({
            let o = t.spec_inc_tima();
            &&& o.tima == t.tma
            &&& o.tima_state == TIMAState::Reloading
            &&& o.spec_step(double_speed).1
        }),
{
    let o = t.spec_inc_tima();
    assert(t.tima.wrapping_add(1) == 0);
    assert(o.tima_state == TIMAState::Reloading);
    let (a, irq) = o.spec_advance_state();
    assert(irq && a.tima_state == TIMAState::Reloaded);
}

/// Writing DIV never lets TIMA count unless the selected bit was set, and
/// leaves the counter at zero.
pub proof fn law_write_div_clears_counter(t: Timer, double_speed: bool)
    requires
        t.wf(),
    ensures
        t.spec_set_clk(0, double_speed).0.wide_div_counter == 0,
        (t.wide_div_counter & spec_tac_mux(t.tac) == 0) ==> t.spec_set_clk(0, double_speed).0.tima == t.tima,
{
    let w = t.wide_div_counter;
    let m = spec_tac_mux(t.tac);
    assert(w & m == 0 ==> (w & !0u16) & m == 0) by (bit_vector);
}


/// IF after a timer step from `t`: the timer interrupt is requested when
/// the step says so.
pub open spec fn spec_timer_ifr(t: Timer, double_speed: bool, ifr: u8) -> u8 {
    if t.spec_step(double_speed).1 { ifr | crate::interrupts::TIMER } else { ifr }
}

/// The audio unit `a` after a timer step from `a0`: the frame sequencer
/// steps when the timer says so (`seq`).
#[verifier::opaque]
pub open spec fn spec_timer_apu(a0: crate::apu::Apu, a: crate::apu::Apu, seq: bool) -> bool {
    if seq { a0.spec_seq_stepped(a) } else { a == a0 }
}

/// The cycles the display, audio unit and cartridge clock see when the CPU
/// runs `cycles` t-cycles: half as many in double speed.
pub open spec fn spec_base_cycles(double_speed: bool, cycles: i32) -> i32 {
    if double_speed { (cycles / 2) as i32 } else { cycles }
}

impl Gb {
    /// What `cycles` t-cycles (one m-cycle's worth, the timer stepping once)
    /// do to the display, the audio unit and IF, from `self` to `next`: the
    /// timer step requests the timer interrupt and clocks the frame
    /// sequencer as it says (`spec_timer_apu`), then the display runs on
    /// that IF (its OAM aside, which OAM DMA writes) and the audio unit runs.
    #[verifier::opaque]
    pub open spec fn spec_units_ran(self, next: Gb, cycles: i32) -> bool {
        let c = spec_base_cycles(self.double_speed, cycles);
        let i1 = spec_timer_ifr(self.timer, self.double_speed, self.ints.ifr);
        &&& exists|p: Ppu| #![trigger self.ppu.spec_ran(p, c, self.compat_mode, i1, next.ints.ifr)]
            self.ppu.spec_ran(p, c, self.compat_mode, i1, next.ints.ifr) && next.ppu == (Ppu { oam: next.ppu.oam, ..p })
        &&& exists|a: crate::apu::Apu| #![trigger a.spec_ran(next.apu, c)]
            spec_timer_apu(self.apu, a, self.timer.spec_step(self.double_speed).2) && a.spec_ran(next.apu, c)
    }

    /// A change of the CPU registers alone after an m-cycle keeps what the
    /// units did.
    pub proof fn lemma_units_ran_target_regs(g: Gb, m: Gb, n: Gb, cycles: i32)
        requires
            g.spec_units_ran(m, cycles),
            n == (Gb { regs: n.regs, ..m }),
        ensures
            g.spec_units_ran(n, cycles),
    {
        reveal(Gb::spec_units_ran);
        let c = spec_base_cycles(g.double_speed, cycles);
        let i1 = spec_timer_ifr(g.timer, g.double_speed, g.ints.ifr);
        let p = choose|p: Ppu| #![trigger g.ppu.spec_ran(p, c, g.compat_mode, i1, m.ints.ifr)]
            g.ppu.spec_ran(p, c, g.compat_mode, i1, m.ints.ifr) && m.ppu == (Ppu { oam: m.ppu.oam, ..p });
        assert(g.ppu.spec_ran(p, c, g.compat_mode, i1, n.ints.ifr));
        let a = choose|a: crate::apu::Apu| #![trigger a.spec_ran(m.apu, c)]
            spec_timer_apu(g.apu, a, g.timer.spec_step(g.double_speed).2) && a.spec_ran(m.apu, c);
        assert(a.spec_ran(n.apu, c));
    }

    /// The display, audio unit and IF over an m-cycle do not depend on the
    /// CPU registers of the state it starts from.
    pub proof fn lemma_units_ran_regs(g: Gb, h: Gb, m: Gb, cycles: i32)
        requires
            h == (Gb { regs: h.regs, ..g }),
            h.spec_units_ran(m, cycles),
        ensures
            g.spec_units_ran(m, cycles),
    {
        reveal(Gb::spec_units_ran);
        let c = spec_base_cycles(g.double_speed, cycles);
        let i1 = spec_timer_ifr(g.timer, g.double_speed, g.ints.ifr);
        let p = choose|p: Ppu| #![trigger h.ppu.spec_ran(p, c, h.compat_mode, i1, m.ints.ifr)]
            h.ppu.spec_ran(p, c, h.compat_mode, i1, m.ints.ifr) && m.ppu == (Ppu { oam: m.ppu.oam, ..p });
        assert(g.ppu.spec_ran(p, c, g.compat_mode, i1, m.ints.ifr));
    }

    /// Runs the timer for `cycles` t-cycles, one m-cycle at a time,
    /// requesting the timer interrupt and stepping the audio frame
    /// sequencer as it says.
    #[verifier::rlimit(40)]
    pub fn run_timers(&mut self, cycles: i32)
        requires
            old(self).wf(),
        ensures
            final(self).wf(),
            final(self).regs == old(self).regs,
            final(self).cart == old(self).cart,
            final(self).wram == old(self).wram,
            final(self).hram == old(self).hram,
            final(self).ppu == old(self).ppu,
            final(self).ints.ie == old(self).ints.ie,
            final(self).ints.ime == old(self).ints.ime,
            final(self).dma_on == old(self).dma_on,
            final(self).dma_cycles == old(self).dma_cycles,
            final(self).dma_addr == old(self).dma_addr && final(self).dma_restarting == old(self).dma_restarting,
            final(self).double_speed == old(self).double_speed,
            final(self).double_speed_request == old(self).double_speed_request,
            final(self).compat_mode == old(self).compat_mode,
            final(self).hdma_state == old(self).hdma_state,
            final(self).hdma_len == old(self).hdma_len,
            final(self).hdma5 == old(self).hdma5,
            final(self).hdma_src == old(self).hdma_src,
            final(self).hdma_dst == old(self).hdma_dst,
            final(self).apu.render_timer == old(self).apu.render_timer,
            final(self).apu.samples_run == old(self).apu.samples_run,
            final(self).apu.l_out == old(self).apu.l_out && final(self).apu.r_out == old(self).apu.r_out,
            final(self).apu.ext_sample_period == old(self).apu.ext_sample_period,
            final(self).apu.on == old(self).apu.on,
            final(self).boot_rom == old(self).boot_rom,
            final(self).model == old(self).model,
            final(self).svbk == old(self).svbk && final(self).svbk_true == old(self).svbk_true,
            final(self).cpu_halted == old(self).cpu_halted,
            final(self).ei_delay == old(self).ei_delay,
            final(self).halt_bug == old(self).halt_bug,
            final(self).timer == old(self).timer.spec_run(
                if cycles >= 4 { (cycles / 4) as nat } else { 0 },
                old(self).double_speed,
            ),
            4 <= cycles < 8 ==> final(self).ints.ifr == spec_timer_ifr(old(self).timer, old(self).double_speed, old(self).ints.ifr)
                && spec_timer_apu(old(self).apu, final(self).apu, old(self).timer.spec_step(old(self).double_speed).2),
    {
        let n = cycles / 4;
        let mut i: i32 = 0;
        while i < n
            invariant
                self.wf(),
                self.regs == old(self).regs,
                self.cart == old(self).cart,
                self.wram == old(self).wram,
                self.hram == old(self).hram,
                self.ppu == old(self).ppu,
                self.ints.ie == old(self).ints.ie,
                self.ints.ime == old(self).ints.ime,
                self.dma_on == old(self).dma_on,
                self.dma_cycles == old(self).dma_cycles,
                self.dma_addr == old(self).dma_addr && self.dma_restarting == old(self).dma_restarting,
                self.double_speed == old(self).double_speed,
                self.double_speed_request == old(self).double_speed_request,
                self.compat_mode == old(self).compat_mode,
                self.hdma_state == old(self).hdma_state,
                self.hdma_len == old(self).hdma_len,
                self.hdma5 == old(self).hdma5,
                self.hdma_src == old(self).hdma_src,
                self.hdma_dst == old(self).hdma_dst,
                self.apu.render_timer == old(self).apu.render_timer,
                self.apu.samples_run == old(self).apu.samples_run,
                self.apu.l_out == old(self).apu.l_out && self.apu.r_out == old(self).apu.r_out,
                self.apu.ext_sample_period == old(self).apu.ext_sample_period,
                self.apu.on == old(self).apu.on,
                self.boot_rom == old(self).boot_rom,
                self.model == old(self).model,
                self.svbk == old(self).svbk && self.svbk_true == old(self).svbk_true,
                self.cpu_halted == old(self).cpu_halted,
                self.ei_delay == old(self).ei_delay,
                self.halt_bug == old(self).halt_bug,
                0 <= i,
                i <= (if n > 0 { n } else { 0 }),
                self.timer == old(self).timer.spec_run(i as nat, old(self).double_speed),
                i == 0 ==> self.ints.ifr == old(self).ints.ifr && self.apu == old(self).apu,
                i == 1 ==> self.ints.ifr == spec_timer_ifr(old(self).timer, old(self).double_speed, old(self).ints.ifr)
                    && spec_timer_apu(old(self).apu, self.apu, old(self).timer.spec_step(old(self).double_speed).2),
            decreases n - i,
        {
            proof { self.lemma_wf_elim(); }
            let (irq, apu_step) = self.timer.step(self.double_speed);
            if irq {
                self.ints.req_timer();
            }
            if apu_step {
                self.apu.step_seq();
            }
            i = i + 1;
            proof {
                self.lemma_wf_intro();
                reveal(spec_timer_apu);
            }
        }
        proof {
            if cycles >= 4 {
                assert(i == n);
            } else {
                assert(i == 0);
            }
        }
    }

    /// What `advance_t_cycles` ensures over one m-cycle makes up
    /// `spec_units_ran`.
    pub proof fn lemma_units_ran(o: Gb, f: Gb, cycles: i32)
        requires
            4 <= cycles < 8,
            exists|a: crate::apu::Apu| #![trigger a.spec_ran(f.apu, spec_base_cycles(o.double_speed, cycles))]
                a.spec_ran(f.apu, spec_base_cycles(o.double_speed, cycles))
                    && spec_timer_apu(o.apu, a, o.timer.spec_step(o.double_speed).2),
            exists|p: Ppu| #![trigger o.ppu.spec_ran(p, spec_base_cycles(o.double_speed, cycles), o.compat_mode, spec_timer_ifr(o.timer, o.double_speed, o.ints.ifr), f.ints.ifr)]
                o.ppu.spec_ran(p, spec_base_cycles(o.double_speed, cycles), o.compat_mode, spec_timer_ifr(o.timer, o.double_speed, o.ints.ifr), f.ints.ifr)
                    && f.ppu == (Ppu { oam: f.ppu.oam, ..p }),
        ensures
            o.spec_units_ran(f, cycles),
    {
        reveal(Gb::spec_units_ran);
    }

    /// Advances every component by `cycles` t-cycles: the timers and OAM DMA
    /// at the CPU's speed, the display, audio and cartridge clock at the
    /// base speed (half as many cycles in double speed).
    #[verifier::spinoff_prover]
    #[verifier::rlimit(100)]
    pub fn advance_t_cycles(&mut self, cycles: i32)
        requires
            old(self).wf(),
            0 <= cycles <= i32::MAX - crate::apu::TC_SEC - 1,
        ensures
            final(self).wf(),
            final(self).timer == old(self).timer.spec_run((cycles / 4) as nat, old(self).double_speed),
            final(self).regs == old(self).regs,
            final(self).double_speed == old(self).double_speed,
            final(self).double_speed_request == old(self).double_speed_request,
            final(self).wram == old(self).wram,
            final(self).hram == old(self).hram,
            final(self).ints.ie == old(self).ints.ie,
            final(self).ints.ime == old(self).ints.ime,
            final(self).hdma_state == old(self).hdma_state,
            final(self).hdma_len == old(self).hdma_len,
            final(self).hdma5 == old(self).hdma5,
            final(self).hdma_src == old(self).hdma_src,
            final(self).hdma_dst == old(self).hdma_dst,
            final(self).cpu_halted == old(self).cpu_halted,
            final(self).ei_delay == old(self).ei_delay,
            final(self).halt_bug == old(self).halt_bug,
            final(self).ppu.vram == old(self).ppu.vram,
            final(self).cart.rom == old(self).cart.rom && final(self).cart.ram == old(self).cart.ram,
            final(self).cart.rom_offsets == old(self).cart.rom_offsets,
            final(self).cart.ram_offset == old(self).cart.ram_offset,
            final(self).cart.ram_enabled == old(self).cart.ram_enabled,
            final(self).boot_rom == old(self).boot_rom && final(self).model == old(self).model,
            final(self).compat_mode == old(self).compat_mode,
            final(self).svbk == old(self).svbk && final(self).svbk_true == old(self).svbk_true,
            old(self).cart.spec_ran(final(self).cart, spec_base_cycles(old(self).double_speed, cycles)),
            exists|a: crate::apu::Apu| #![trigger a.spec_ran(final(self).apu, spec_base_cycles(old(self).double_speed, cycles))]
                a.spec_ran(final(self).apu, spec_base_cycles(old(self).double_speed, cycles))
                    && a.render_timer == old(self).apu.render_timer
                    && a.samples_run == old(self).apu.samples_run && a.l_out == old(self).apu.l_out
                    && a.r_out == old(self).apu.r_out && a.ext_sample_period == old(self).apu.ext_sample_period
                    && a.on == old(self).apu.on
                    && (4 <= cycles < 8 ==> spec_timer_apu(old(self).apu, a, old(self).timer.spec_step(old(self).double_speed).2)),
            exists|p: crate::ppu::Ppu, i: u8| #![trigger old(self).ppu.spec_ran(p, spec_base_cycles(old(self).double_speed, cycles), old(self).compat_mode, i, final(self).ints.ifr)]
                old(self).ppu.spec_ran(p, spec_base_cycles(old(self).double_speed, cycles), old(self).compat_mode, i, final(self).ints.ifr)
                    && final(self).ppu == (crate::ppu::Ppu { oam: final(self).ppu.oam, ..p })
                    && (4 <= cycles < 8 ==> i == spec_timer_ifr(old(self).timer, old(self).double_speed, old(self).ints.ifr)),
    {
        self.run_timers(cycles);
        self.dma_cycles = self.dma_cycles.wrapping_add(cycles);
        let c = if self.double_speed { cycles / 2 } else { cycles };
        let ghost t = *self;
        proof { self.lemma_wf_elim(); }
        let mode = self.compat_mode;
        self.ppu.run(c, &mut self.ints.ifr, mode);
        proof { self.lemma_wf_intro(); }
        let ghost u = *self;
        self.run_dma();
        let ghost v = *self;
        proof { self.lemma_wf_elim(); }
        self.apu.run(c);
        self.cart.run(c);
        proof {
            self.lemma_wf_intro();
            assert(c == spec_base_cycles(old(self).double_speed, cycles));
            assert(v.apu == t.apu && v.cart == t.cart && v.ints == u.ints);
            assert(self.ppu == (crate::ppu::Ppu { oam: self.ppu.oam, ..u.ppu }));
            assert(v.apu.spec_ran(self.apu, c));
            assert(t.ppu.spec_ran(u.ppu, c, t.compat_mode, t.ints.ifr, self.ints.ifr));
        }
    }
}

} // verus!

//! A Game Boy / Game Boy Color emulation core.
//!
//! The library models the console as a single [`Gb`] value that owns every
//! hardware component: CPU registers, memory, cartridge, pixel processing
//! unit, audio processing unit, timers, serial port and joypad.
use vstd::prelude::*;
use crate::apu::{Apu, Sample};
use crate::cartridge::Cartridge;
use crate::cpu::Regs;
use crate::interrupts::Interrupts;
use crate::joypad::{Button, Joypad};
use crate::memory::HdmaState;
use crate::ppu::Ppu;
use crate::serial::Serial;
use crate::timing::Timer;

pub mod apu;
pub mod bits;
pub mod cartridge;
pub mod cpu;
pub mod dma;
pub mod input;
pub mod interrupts;
pub mod io;
pub mod joypad;
pub mod memory;
pub mod ppu;
pub mod serial;
pub mod timing;

pub use crate::cartridge::Error;
pub use crate::ppu::{PX_HEIGHT, PX_WIDTH};

verus! {

/// Game Boy model to emulate.
#[derive(Clone, Copy, PartialEq, Eq, Structural, Debug)]
pub enum Model {
    /// The first Game Boy (DMG).
    Dmg,
    /// The Game Boy Pocket.
    Mgb,
    /// The Game Boy Color.
    Cgb,
}

/// Which hardware generation the running program sees.
#[derive(Clone, Copy, PartialEq, Eq, Structural, Debug)]
pub enum CompatMode {
    /// Monochrome hardware.
    Dmg,
    /// Color hardware running a monochrome program.
    Compat,
    /// Color hardware running a color program.
    Cgb,
}


/// Bytes of work RAM: eight 4 KiB banks.
pub const WRAM_SIZE: usize = 0x8000;
/// Bytes of high RAM.
pub const HRAM_SIZE: usize = 0x80;

/// The whole console.
pub struct Gb {
    pub model: Model,
    pub compat_mode: CompatMode,
    pub cart: Cartridge,
    /// The boot ROM while it is mapped over the cartridge.
    pub boot_rom: Option<Vec<u8>>,
    pub regs: Regs,
    pub ei_delay: bool,
    pub cpu_halted: bool,
    pub halt_bug: bool,
    pub wram: [u8; 0x8000],
    pub hram: [u8; 0x80],
    /// SVBK as written.
    pub svbk: u8,
    /// The work RAM bank mapped at 0xD000 (bank 0 selects bank 1).
    pub svbk_true: u8,
    pub double_speed: bool,
    pub double_speed_request: bool,
    pub dma: u8,
    pub dma_on: bool,
    pub dma_addr: u16,
    pub dma_restarting: bool,
    pub dma_cycles: i32,
    pub hdma5: u8,
    pub hdma_src: u16,
    pub hdma_dst: u16,
    pub hdma_len: u16,
    pub hdma_state: HdmaState,
    pub timer: Timer,
    pub ppu: Ppu,
    pub apu: Apu,
    pub serial: Serial,
    pub ints: Interrupts,
    pub joy: Joypad,
}

impl Gb {
    /// Every component is well formed; the work RAM bank is 1 to 7 and
    /// follows SVBK; a running HDMA transfer has whole blocks left.
    pub closed spec fn wf(&self) -> bool {
        &&& self.cart.wf()
        &&& self.ppu.wf()
        &&& self.apu.wf()
        &&& self.serial.wf()
        &&& self.timer.wf()
        &&& self.regs.wf()
        &&& self.svbk <= 7
        &&& self.svbk_true == (if self.svbk == 0 { 1 } else { self.svbk })
        &&& self.hdma_len <= 0x800
        &&& self.hdma_len % 0x10 == 0
        &&& self.hdma_state != HdmaState::Sleep ==> self.hdma_len >= 0x10
    }

    /// What well-formedness gives.
    pub proof fn lemma_wf_elim(&self)
        requires
            self.wf(),
        ensures
            self.cart.wf(),
            self.ppu.wf(),
            self.apu.wf(),
            self.serial.wf(),
            self.timer.wf(),
            self.regs.wf(),
            self.svbk <= 7,
            self.svbk_true == (if self.svbk == 0 { 1u8 } else { self.svbk }),
            self.hdma_len <= 0x800,
            self.hdma_len % 0x10 == 0,
            self.hdma_state != HdmaState::Sleep ==> self.hdma_len >= 0x10,
    {
    }

    /// Well-formedness from its parts.
    pub proof fn lemma_wf_intro(&self)
        requires
            self.cart.wf(),
            self.ppu.wf(),
            self.apu.wf(),
            self.serial.wf(),
            self.timer.wf(),
            self.regs.wf(),
            self.svbk <= 7,
            self.svbk_true == (if self.svbk == 0 { 1u8 } else { self.svbk }),
            self.hdma_len <= 0x800,
            self.hdma_len % 0x10 == 0,
            self.hdma_state != HdmaState::Sleep ==> self.hdma_len >= 0x10,
        ensures
            self.wf(),
    {
    }

    /// Well-formedness survives a change of the timer and the audio unit that
    /// keeps both well formed.
    pub proof fn lemma_wf_timer_apu(g0: Gb, g1: Gb)
        requires
            g0.wf(),
            g1 == (Gb { timer: g1.timer, apu: g1.apu, ..g0 }),
            g1.timer.wf(),
            g1.apu.wf(),
        ensures
            g1.wf(),
    {
    }

    /// Well-formedness only rests on the components, the work RAM bank and
    /// the VRAM DMA length: a change that keeps them keeps it.
    pub proof fn lemma_wf_frame(g0: Gb, g1: Gb)
        requires
            g0.wf(),
            g1.cart == g0.cart,
            g1.ppu == g0.ppu,
            g1.apu == g0.apu,
            g1.serial == g0.serial,
            g1.timer == g0.timer,
            g1.regs == g0.regs,
            g1.svbk == g0.svbk,
            g1.svbk_true == g0.svbk_true,
            g1.hdma_len == g0.hdma_len,
            g1.hdma_state == g0.hdma_state,
        ensures
            g1.wf(),
    {
    }

    /// Well-formedness survives a change of the serial port that keeps it
    /// well formed.
    pub proof fn lemma_wf_serial(g0: Gb, g1: Gb)
        requires
            g0.wf(),
            g1 == (Gb { serial: g1.serial, ..g0 }),
            g1.serial.wf(),
        ensures
            g1.wf(),
    {
    }

    /// Well-formedness survives a change of SVBK that maps the bank it
    /// selects.
    pub proof fn lemma_wf_svbk(g0: Gb, g1: Gb)
        requires
            g0.wf(),
            g1 == (Gb { svbk: g1.svbk, svbk_true: g1.svbk_true, ..g0 }),
            g1.svbk <= 7,
            g1.svbk_true == (if g1.svbk == 0 { 1u8 } else { g1.svbk }),
        ensures
            g1.wf(),
    {
    }

    /// Well-formedness survives a change of the VRAM DMA state that keeps its
    /// length whole blocks.
    pub proof fn lemma_wf_hdma(g0: Gb, g1: Gb)
        requires
            g0.wf(),
            g1 == (Gb { hdma_state: g1.hdma_state, hdma_len: g1.hdma_len, hdma5: g1.hdma5, ..g0 }),
            g1.hdma_len <= 0x800,
            g1.hdma_len % 0x10 == 0,
            g1.hdma_state != HdmaState::Sleep ==> g1.hdma_len >= 0x10,
        ensures
            g1.wf(),
    {
    }

    /// Well-formedness does not rest on video RAM nor on the VRAM DMA
    /// addresses.
    pub proof fn lemma_wf_vram(g0: Gb, g1: Gb)
        requires
            g0.wf(),
            g1 == (Gb {
                ppu: crate::ppu::Ppu { vram: g1.ppu.vram, ..g0.ppu },
                hdma_src: g1.hdma_src,
                hdma_dst: g1.hdma_dst,
                ..g0
            }),
        ensures
            g1.wf(),
    {
    }

    /// Well-formedness does not rest on OAM nor on the OAM DMA state.
    pub proof fn lemma_wf_dma(g0: Gb, g1: Gb)
        requires
            g0.wf(),
            g0.spec_dma_frame(g1),
        ensures
            g1.wf(),
    {
    }

    /// A console of `model` with the cartridge inserted and, when given, the
    /// boot ROM mapped; audio is produced at `sample_rate` samples a second.
    /// Without a boot ROM execution starts at 0x0000 of the cartridge.
    pub fn new(model: Model, sample_rate: i32, cart: Cartridge, boot_rom: Option<Vec<u8>>) -> (r: Self)
        requires
            sample_rate > 0,
            cart.wf(),
        ensures
            r.wf(),
            r.model == model,
            r.compat_mode == (if model == Model::Cgb { CompatMode::Cgb } else { CompatMode::Dmg }),
            r.cart == cart,
            r.boot_rom == boot_rom,
            r.regs == (Regs { af: 0, bc: 0, de: 0, hl: 0, sp: 0, pc: 0 }),
            !r.cpu_halted && !r.ei_delay && !r.halt_bug,
            r.apu.ext_sample_period == Apu::spec_sample_period(sample_rate),
            !r.apu.on && r.apu.nr51 == 0 && r.apu.r_vol == 0 && r.apu.l_vol == 0 && !r.apu.r_vin && !r.apu.l_vin,
            r.apu.render_timer == 0 && r.apu.seq_step == 0 && r.apu.l_out == 0 && r.apu.r_out == 0,
            r.apu.samples_run == 0,
            r.ppu.spec_power_on(),
            r.serial == (Serial { sc: 0, sb: 0, count: 0, div_mask: 0, master_clock: false }),
            r.dma == 0 && r.dma_addr == 0 && !r.dma_restarting && r.dma_cycles == 0,
            r.hdma5 == 0 && r.hdma_src == 0 && r.hdma_dst == 0 && r.hdma_len == 0,
            r.timer == (Timer { tima: 0, tma: 0, tac: 0, tac_enable: false, tima_state: crate::timing::TIMAState::Running, wide_div_counter: 0 }),
            r.ints == (Interrupts { ime: false, ifr: 0, ie: 0 }),
            r.joy == (Joypad { btn: 0, dirs: false, acts: false }),
            r.svbk == 0 && r.svbk_true == 1,
            !r.double_speed && !r.double_speed_request,
            !r.dma_on && r.hdma_state == HdmaState::Sleep,
            forall|i: int| 0 <= i < 0x8000 ==> r.wram[i] == 0,
            forall|i: int| 0 <= i < 0x80 ==> r.hram[i] == 0,
    {
        let compat_mode = match model {
            Model::Dmg | Model::Mgb => CompatMode::Dmg,
            Model::Cgb => CompatMode::Cgb,
        };
        Gb {
            model,
            compat_mode,
            cart,
            boot_rom,
            regs: Regs::new(),
            ei_delay: false,
            cpu_halted: false,
            halt_bug: false,
            wram: [0u8; 0x8000],
            hram: [0u8; 0x80],
            svbk: 0,
            svbk_true: 1,
            double_speed: false,
            double_speed_request: false,
            dma: 0,
            dma_on: false,
            dma_addr: 0,
            dma_restarting: false,
            dma_cycles: 0,
            hdma5: 0,
            hdma_src: 0,
            hdma_dst: 0,
            hdma_len: 0,
            hdma_state: HdmaState::Sleep,
            timer: Timer::new(),
            ppu: Ppu::new(),
            apu: Apu::new(sample_rate),
            serial: Serial::new(),
            ints: Interrupts::new(),
            joy: Joypad::new(),
        }
    }

    /// `h` is reached from `g` by `n` calls of `run_cpu`, each begun while
    /// the audio unit had produced no sample.
    pub open spec fn spec_runs_until_sample(g: Gb, h: Gb, n: nat) -> bool
        decreases n,
    {
        if n == 0 {
            h == g
        } else {
            exists|p: Gb| #![trigger crate::cpu::exec::spec_run_cpu(p, h)]
                Gb::spec_runs_until_sample(g, p, (n - 1) as nat) && p.apu.samples_run == 0
                    && crate::cpu::exec::spec_run_cpu(p, h)
        }
    }

    /// One more call of `run_cpu`, begun with no sample produced, extends a
    /// run.
    proof fn lemma_runs_step(g: Gb, p: Gb, h: Gb, k: nat)
        requires
            Gb::spec_runs_until_sample(g, p, k),
            p.apu.samples_run == 0,
            crate::cpu::exec::spec_run_cpu(p, h),
        ensures
            Gb::spec_runs_until_sample(g, h, k + 1),
    {
        let n: nat = k + 1;
        assert((n - 1) as nat == k);
    }

    /// Runs the console until the audio unit has produced a sample, and
    /// returns that stereo sample (left, right). The sample counter is then
    /// cleared. The number of CPU steps is bounded by `u64::MAX`.
    pub fn run_samples(&mut self) -> (r: (Sample, Sample))
        requires
            old(self).wf(),
        ensures
            final(self).wf(),
            exists|h: Gb, n: nat| #![trigger Gb::spec_runs_until_sample(*old(self), h, n)]
                Gb::spec_runs_until_sample(*old(self), h, n) && (h.apu.samples_run != 0 || n == u64::MAX)
                    && *final(self) == (Gb { apu: Apu { samples_run: 0, ..h.apu }, ..h }),
            final(self).apu.samples_run == 0,
            r == (final(self).apu.l_out, final(self).apu.r_out),
    {
        let ghost g0 = *self;
        let mut steps: u64 = 0;
        while self.apu.samples_run() == 0 && steps < u64::MAX
            invariant
                self.wf(),
                Gb::spec_runs_until_sample(g0, *self, steps as nat),
            decreases u64::MAX - steps,
        {
            let ghost p = *self;
            self.run_cpu();
            steps = steps + 1;
            proof { Gb::lemma_runs_step(g0, p, *self, (steps - 1) as nat); }
        }
        let ghost h = *self;
        proof { self.lemma_wf_elim(); }
        self.apu.reset_samples_run();
        proof {
            self.lemma_wf_intro();
            assert(Gb::spec_runs_until_sample(g0, h, steps as nat));
        }
        self.apu.out()
    }

    /// Whether the cartridge has battery-backed RAM.
    pub fn cartridge_has_battery(&self) -> (r: bool)
        ensures
            r == self.cart.has_battery,
    {
        self.cart.has_battery()
    }

    /// The cartridge RAM.
    pub fn cartridge_ram(&self) -> (r: &[u8])
        ensures
            r@ == self.cart.ram@,
    {
        self.cart.ram.as_slice()
    }

    /// Whether a test ROM is still running: test ROMs signal the end by
    /// loading B = 3, C = 5, D = 8, E = 13 and H = 21.
    pub fn test_running(&self) -> (r: bool)
        ensures
            r == !(self.regs.bc == 0x0305 && self.regs.de == 0x080D && self.regs.hl & 0xFF00 == 0x1500),
    {
        self.regs.bc != 773 || self.regs.de != 2061 || (self.regs.hl & 0xFF00) != 5376
    }

    /// The result of a finished test ROM: L, which is zero when the test
    /// passed.
    pub fn get_test_result(&self) -> (r: u16)
        ensures
            r == self.regs.hl & 0xFF,
    {
        self.regs.hl & 255
    }

    /// The cartridge, to save its RAM or read its clock.
    pub fn cartridge(&mut self) -> (r: &mut Cartridge)
        ensures
            *r == old(self).cart,
            *final(self) == (Gb { cart: *final(r), ..*old(self) }),
    {
        &mut self.cart
    }

    /// The last complete frame as RGBA bytes.
    pub fn pixel_data_rgba(&self) -> (r: &[u8])
        ensures
            r@ == self.ppu.rgba_buf_present.data@,
    {
        self.ppu.pixel_data_rgb()
    }

    /// Presses `button`.
    pub fn press(&mut self, button: Button)
        requires
            old(self).wf(),
        ensures
            final(self).wf(),
            *final(self) == (Gb { joy: final(self).joy, ints: final(self).ints, ..*old(self) }),
            final(self).joy == (Joypad { btn: old(self).joy.btn | button.spec_bit(), ..old(self).joy }),
            final(self).ints == (Interrupts {
                ifr: if crate::joypad::press_requests(button.spec_bit(), old(self).joy.dirs, old(self).joy.acts) {
                    old(self).ints.ifr | crate::interrupts::P1
                } else {
                    old(self).ints.ifr
                },
                ..old(self).ints
            }),
    {
        self.joy.press(button, &mut self.ints);
    }

    /// Releases `button`.
    pub fn release(&mut self, button: Button)
        requires
            old(self).wf(),
        ensures
            final(self).wf(),
            *final(self) == (Gb { joy: final(self).joy, ..*old(self) }),
            final(self).joy == (Joypad { btn: old(self).joy.btn & !button.spec_bit(), ..old(self).joy }),
    {
        self.joy.release(button);
    }
}

/// The low four bits of F always read as zero: they are zero in every
/// well-formed console, and every operation on the console keeps it well
/// formed.
pub proof fn law_flags_low_nibble_zero(g: Gb)
    requires
        g.wf(),
    ensures
        g.regs.af % 16 == 0,
{
    g.lemma_wf_elim();
}

} // verus!

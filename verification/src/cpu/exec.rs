//! Instruction execution: fetching, operands through the memory map (each
//! access takes one m-cycle), and every opcode of the SM83.
use vstd::prelude::*;
use crate::Gb;
use crate::cpu::Regs;
use crate::interrupts::Interrupts;
use crate::cpu::alu;
use crate::cpu::alu::{
    af_wf, spec_add, spec_adc, spec_sub, spec_sbc, spec_and, spec_or, spec_xor, spec_cp, spec_inc8,
    spec_dec8, spec_cb_shift, spec_bit, spec_condition, spec_add_hl, spec_add_sp, sext,
};

verus! {

/// Whether an opcode's register field (its low three bits) names the byte at
/// HL rather than a register.
pub open spec fn is_mem_operand(op: u8) -> bool {
    op % 8 == 6
}

/// The low byte of `v` with the high byte of `w`.
pub open spec fn with_low(w: u16, v: u8) -> u16 {
    (w & 0xFF00) | (v as u16)
}

/// The high byte set to `v`, the low byte of `w`.
pub open spec fn with_high(w: u16, v: u8) -> u16 {
    ((v as u16) << 8u16) | (w & 0xFF)
}

/// `m` is the console `g` one m-cycle later: every component has run for
/// four t-cycles at the CPU's speed (the timer one step, the cartridge clock
/// its cycles, the display, audio unit and IF as `spec_units_ran` says),
/// while memory, the boot ROM mapping, video RAM and the
/// cartridge's ROM, RAM and banks are kept. What becomes of the CPU
/// registers is said by whoever uses this.
#[verifier::opaque]
pub open spec fn spec_m_cycle(g: Gb, m: Gb) -> bool {
    &&& m.wf()
    &&& m.timer == g.timer.spec_run(1, g.double_speed)
    &&& m.double_speed == g.double_speed
    &&& m.double_speed_request == g.double_speed_request
    &&& m.wram == g.wram
    &&& m.hram == g.hram
    &&& m.ints.ie == g.ints.ie
    &&& m.ints.ime == g.ints.ime
    &&& m.boot_rom == g.boot_rom && m.model == g.model && m.compat_mode == g.compat_mode
    &&& m.svbk == g.svbk && m.svbk_true == g.svbk_true
    &&& m.ppu.vram == g.ppu.vram
    &&& g.cart.spec_ran(m.cart, crate::timing::spec_base_cycles(g.double_speed, 4))
    &&& g.spec_units_ran(m, 4)
}

/// What the CPU reads from `addr` on the bus in state `g`: what the memory
/// map gives.
#[verifier::opaque]
pub open spec fn spec_bus_read(g: Gb, addr: u16) -> u8 {
    g.spec_read_mem(addr)
}

/// `next` is `g` after one m-cycle followed by a write of `val` to `addr`
/// through the memory map, the registers being kept.
#[verifier::opaque]
pub open spec fn spec_cpu_write(g: Gb, next: Gb, addr: u16, val: u8) -> bool {
    exists|m: Gb| #![trigger m.spec_mem_written(next, addr, val)]
        spec_m_cycle(g, m) && m.regs == g.regs && m.spec_mem_written(next, addr, val)
}

/// The little-endian word made of `lo` and `hi`.
pub open spec fn spec_word(lo: u8, hi: u8) -> u16 {
    ((hi as u16) << 8u16) | (lo as u16)
}

/// A CB-prefixed instruction `op` whose operand is a register: the shifts
/// and rotations (`op >> 3` below 8), then `BIT`, `RES` and `SET`.
pub open spec fn spec_cb_reg(r: Regs, op: u8) -> Regs {
    let k = op >> 3u8;
    let b = (op >> 3u8) & 7;
    if k < 8 {
        let (v, f) = spec_cb_shift(k, r.af, r.spec_r8(op));
        (Regs { af: f, ..r }).spec_set_r8(op, v)
    } else if op & 0xC0 == 0x40 {
        Regs { af: spec_bit(r.af, b, r.spec_r8(op)), ..r }
    } else if op & 0xC0 == 0x80 {
        r.spec_set_r8(op, r.spec_r8(op) & !(1u8 << b))
    } else {
        r.spec_set_r8(op, r.spec_r8(op) | (1u8 << b))
    }
}

/// The console `g` once a pending `EI` has taken effect.
pub open spec fn spec_after_ei(g: Gb) -> Gb {
    if g.ei_delay {
        Gb { ei_delay: false, ints: Interrupts { ime: true, ..g.ints }, ..g }
    } else {
        g
    }
}

/// What one step of the CPU does before it looks for interrupts, from `g` to
/// `s`: a pending `EI` takes effect; a halted CPU lets one m-cycle pass and
/// stays halted; a running CPU fetches opcode `op` at PC (read in `m`, one
/// m-cycle on) and executes it, which for an instruction that only touches
/// registers gives the registers of `spec_reg_op`, and for the others what
/// `spec_exec_more` says, from the state `e` just before execution (after a
/// HALT bug, PC is not moved past the opcode).
pub open spec fn spec_cpu_step(g: Gb, m: Gb, op: u8, s: Gb) -> bool {
    let g1 = spec_after_ei(g);
    &&& s.wf()
    &&& g.cpu_halted ==> spec_m_cycle(g1, s) && s.regs == g.regs && s.cpu_halted && !s.ei_delay
    &&& !g.cpu_halted ==> {
        let r = if g.halt_bug { g.regs } else { Regs { pc: g.regs.pc.wrapping_add(1), ..g.regs } };
        &&& spec_m_cycle(g1, m)
        &&& op == spec_bus_read(m, g.regs.pc)
        &&& spec_reg_op(r, op) matches Some(r2) ==> s.regs == r2
        &&& exists|e: Gb| #![trigger spec_exec_more(e, op, s)] e.regs == r && spec_exec_more(e, op, s)
    }
}

/// `g` with SP set to `sp`.
pub open spec fn spec_with_sp(g: Gb, sp: u16) -> Gb {
    Gb { regs: Regs { sp, ..g.regs }, ..g }
}

/// `next` is `g` after pushing `val`: SP goes down by one and the high byte
/// is written there (after an m-cycle), SP goes down by one more and the low
/// byte is written there (after an m-cycle), then one more m-cycle passes.
pub open spec fn spec_push(g: Gb, next: Gb, val: u16) -> bool {
    let sp1 = g.regs.sp.wrapping_sub(1);
    let sp2 = sp1.wrapping_sub(1);
    exists|y: Gb, w: Gb| #![trigger spec_cpu_write(spec_with_sp(g, sp1), y, sp1, (val >> 8u16) as u8),
        spec_cpu_write(spec_with_sp(y, sp2), w, sp2, (val & 0xFF) as u8)]
        spec_cpu_write(spec_with_sp(g, sp1), y, sp1, (val >> 8u16) as u8)
            && spec_cpu_write(spec_with_sp(y, sp2), w, sp2, (val & 0xFF) as u8)
            && spec_m_cycle(w, next) && next.regs == w.regs
}

/// Entry into an interrupt handler from `d` to `next`: IME is cleared, the
/// highest priority interrupt pending in `d` (the lowest set bit of
/// IF & IE) is acknowledged in IF and PC goes to its vector,
/// 0x40 + 8 * bit; with none pending PC goes to 0x40.
pub open spec fn spec_irq_entry(d: Gb, next: Gb) -> bool {
    let q = d.ints.ifr & d.ints.ie & 0x1F;
    let b = crate::interrupts::lowest_bit(q);
    &&& !next.ints.ime
    &&& next.ints.ie == d.ints.ie
    &&& q != 0 ==> next.regs == (Regs { pc: (0x40 + 8 * b) as u16, ..d.regs }) && next.ints.ifr == d.ints.ifr
        & !(1u8 << b)
    &&& q == 0 ==> next.regs == (Regs { pc: 0x40, ..d.regs }) && next.ints.ifr == d.ints.ifr
}

/// Interrupt dispatch after a CPU step, from `s` to `next`: with no enabled
/// interrupt pending nothing happens; with one pending the CPU leaves HALT,
/// and when IME is set it pushes PC and jumps to the vector of the highest
/// priority pending interrupt (0x40 if none is pending any more), with IME
/// cleared.
pub open spec fn spec_dispatch(s: Gb, next: Gb) -> bool {
    let p = s.ints.ifr & s.ints.ie & 0x1F;
    &&& p == 0 ==> next == s
    &&& p != 0 && !s.ints.ime ==> next == (Gb { cpu_halted: false, ..s })
    &&& p != 0 && s.ints.ime ==> {
        &&& !next.ints.ime
        &&& next.regs == (Regs { pc: next.regs.pc, sp: s.regs.sp.wrapping_sub(2), ..s.regs })
        &&& next.regs.pc == 0x40 || next.regs.pc == 0x48 || next.regs.pc == 0x50 || next.regs.pc == 0x58
            || next.regs.pc == 0x60
        &&& exists|t1: Gb, t2: Gb, d: Gb| #![trigger spec_m_cycle(t1, t2), spec_push(t2, d, s.regs.pc)]
            spec_m_cycle(Gb { cpu_halted: false, ..s }, t1) && spec_m_cycle(t1, t2) && t2.regs == s.regs
                && spec_push(t2, d, s.regs.pc) && spec_irq_entry(d, next)
    }
}

/// One call of `run_cpu`, from `g` to `h`: a CPU step, then interrupt
/// dispatch.
pub open spec fn spec_run_cpu(g: Gb, h: Gb) -> bool {
    exists|m: Gb, op: u8, s: Gb| #![trigger spec_cpu_step(g, m, op, s)]
        spec_cpu_step(g, m, op, s) && spec_dispatch(s, h)
}

/// A jump to the immediate address, from `g` to `next`: PC becomes the
/// little-endian word of the bytes at PC and PC + 1, each read after an
/// m-cycle, and one more m-cycle passes.
pub open spec fn spec_jump_imm(g: Gb, next: Gb) -> bool {
    exists|m1: Gb, m2: Gb| #![trigger spec_m_cycle(g, m1), spec_m_cycle(m1, m2)]
        spec_m_cycle(g, m1) && spec_m_cycle(m1, m2) && spec_m_cycle(m2, next) && next.regs.pc == spec_word(
            spec_bus_read(m1, g.regs.pc),
            spec_bus_read(m2, g.regs.pc.wrapping_add(1)),
        )
}

/// A relative jump, from `g` to `next`: the signed offset is the byte at
/// PC, read after an m-cycle; PC goes past it and moves by the offset, and
/// one more m-cycle passes.
pub open spec fn spec_jump_rel(g: Gb, next: Gb) -> bool {
    exists|m: Gb| #![trigger spec_m_cycle(g, m)]
        spec_m_cycle(g, m) && spec_m_cycle(m, next) && next.regs == (Regs {
            pc: ((g.regs.pc + 1 + sext(spec_bus_read(m, g.regs.pc))) % 0x10000) as u16,
            ..g.regs
        })
}

/// A CB-prefixed instruction, from `g` to `next`: the opcode is the byte
/// at PC, read after an m-cycle; with a register operand the registers are
/// those of `spec_cb_reg` (PC past the opcode).
pub open spec fn spec_exec_cb(g: Gb, next: Gb) -> bool {
    exists|m: Gb| #![trigger spec_m_cycle(g, m)]
        spec_m_cycle(g, m) && ({
            let op = spec_bus_read(m, g.regs.pc);
            let r = Regs { pc: g.regs.pc.wrapping_add(1), ..g.regs };
            !is_mem_operand(op) ==> next.regs == spec_cb_reg(r, op)
        })
}

/// `RET`, from `g` to `next`: the return address is the word read at SP
/// and SP + 1 (each read after an m-cycle), SP goes up by two and one more
/// m-cycle passes.
pub open spec fn spec_ret(g: Gb, next: Gb) -> bool {
    exists|m1: Gb, m2: Gb| #![trigger spec_m_cycle(g, m1), spec_m_cycle(m1, m2)]
        spec_m_cycle(g, m1) && spec_m_cycle(m1, m2) && spec_m_cycle(m2, next) && next.regs == (Regs {
            pc: spec_word(spec_bus_read(m1, g.regs.sp), spec_bus_read(m2, g.regs.sp.wrapping_add(1))),
            sp: g.regs.sp.wrapping_add(2),
            ..g.regs
        })
}

/// `CALL a16`, from `g` to `next`: the target is the word at PC and PC + 1
/// (read in `m` and `s2`), the address after it is pushed (`spec_push`,
/// from `s2` to `s3`), then PC becomes the target.
pub open spec fn spec_call(g: Gb, next: Gb) -> bool {
    exists|m: Gb, s2: Gb, s3: Gb| #![trigger spec_m_cycle(g, m), spec_m_cycle(m, s2), spec_push(s2, s3, g.regs.pc.wrapping_add(2))]
        spec_m_cycle(g, m) && spec_m_cycle(m, s2) && s2.regs == (Regs { pc: g.regs.pc.wrapping_add(2), ..g.regs })
            && spec_push(s2, s3, g.regs.pc.wrapping_add(2)) && next == (Gb {
            regs: Regs {
                pc: spec_word(spec_bus_read(m, g.regs.pc), spec_bus_read(s2, g.regs.pc.wrapping_add(1))),
                ..s3.regs
            },
            ..s3
        })
}

/// `POP rr`, from `g` to `next`: the word read at SP and SP + 1 (each read
/// after an m-cycle) goes to the pair, SP up by two.
pub open spec fn spec_pop(g: Gb, op: u8, next: Gb) -> bool {
    exists|m: Gb| #![trigger spec_m_cycle(g, m)]
        spec_m_cycle(g, m) && spec_m_cycle(m, next) && next.regs == spec_pop_rr(
            g.regs,
            op,
            spec_word(spec_bus_read(m, g.regs.sp), spec_bus_read(next, g.regs.sp.wrapping_add(1))),
        )
}

/// `LD r, (HL)`, from `g` to `next`: the byte at HL, read after an m-cycle,
/// goes to register `op >> 3`.
pub open spec fn spec_ld_from_hl(g: Gb, op: u8, next: Gb) -> bool {
    spec_m_cycle(g, next) && next.regs == g.regs.spec_set_r8(op >> 3u8, spec_bus_read(next, g.regs.hl))
}

/// The eleven opcodes the CPU does not define.
pub open spec fn is_illegal(op: u8) -> bool {
    op == 0xD3 || op == 0xDB || op == 0xDD || op == 0xE3 || op == 0xE4 || op == 0xEB || op == 0xEC
        || op == 0xED || op == 0xF4 || op == 0xFC || op == 0xFD
}

/// What executing `op` does beyond the register-only instructions of
/// `spec_reg_op`, from `g` to `next`: an undefined opcode locks the CPU up
/// (halted with IE cleared); HALT, STOP, DI and EI; `JP a16`, `CALL a16`
/// and `RET`; `PUSH` and `POP`; the CB-prefixed instructions; `LD (BC), A`,
/// `LD (DE), A`, `LD (C), A`, `LD r, (HL)`, `LD (HL), r`, `LD A, (HL+)` and
/// `LD A, (HL-)`.
pub open spec fn spec_exec_more(g: Gb, op: u8, next: Gb) -> bool {
    let pending = g.ints.ie & g.ints.ifr & 0x1F;
    &&& is_illegal(op) ==> next.regs == g.regs && next.ints.ie == 0 && next.cpu_halted
    &&& op == 0x76 && pending == 0 ==> next.cpu_halted && next.regs == g.regs
    &&& op == 0x76 && pending != 0 && g.ints.ime ==> !next.cpu_halted
        && next.regs == (Regs { pc: g.regs.pc.wrapping_sub(1), ..g.regs })
    &&& op == 0x76 && pending != 0 && !g.ints.ime ==> !next.cpu_halted && next.halt_bug && next.regs == g.regs
    &&& op == 0x10 ==> next.regs == (Regs { pc: g.regs.pc.wrapping_add(1), ..g.regs })
        && (g.double_speed_request ==> next.double_speed == !g.double_speed && !next.double_speed_request)
        && (!g.double_speed_request ==> next.cpu_halted)
    &&& op == 0xF3 ==> next.regs == g.regs && !next.ints.ime
    &&& op == 0xFB ==> next.regs == g.regs && next.ei_delay
    &&& op == 0xC3 ==> spec_jump_imm(g, next)
    &&& (op == 0xC2 || op == 0xCA || op == 0xD2 || op == 0xDA) ==> (if spec_condition(g.regs.af, op) {
        spec_jump_imm(g, next)
    } else {
        next.regs == (Regs { pc: g.regs.pc.wrapping_add(2), ..g.regs })
    })
    &&& op == 0x18 ==> spec_jump_rel(g, next)
    &&& (op == 0x06 || op == 0x16 || op == 0x26 || op == 0x3E) ==> exists|m: Gb| #![trigger spec_m_cycle(g, m)]
        spec_m_cycle(g, m) && next.regs == spec_ld_hr_d8(g.regs, op, spec_bus_read(m, g.regs.pc))
    &&& (op == 0x0E || op == 0x1E || op == 0x2E) ==> exists|m: Gb| #![trigger spec_m_cycle(g, m)]
        spec_m_cycle(g, m) && next.regs == spec_ld_lr_d8(g.regs, op, spec_bus_read(m, g.regs.pc))
    &&& (op == 0x01 || op == 0x11 || op == 0x21 || op == 0x31) ==> exists|m: Gb, s: Gb| #![trigger spec_m_cycle(g, m), spec_m_cycle(m, s)]
        spec_m_cycle(g, m) && spec_m_cycle(m, s) && next.regs == spec_ld_rr_d16(g.regs, op, spec_word(
            spec_bus_read(m, g.regs.pc),
            spec_bus_read(s, g.regs.pc.wrapping_add(1)),
        ))
    &&& (op == 0x20 || op == 0x28 || op == 0x30 || op == 0x38) ==> (if spec_condition(g.regs.af, op) {
        spec_jump_rel(g, next)
    } else {
        next.regs == (Regs { pc: g.regs.pc.wrapping_add(1), ..g.regs })
    })
    &&& op == 0xCB ==> spec_exec_cb(g, next)
    &&& (op == 0x02 || op == 0x12) ==> spec_cpu_write(g, next, g.regs.spec_rr(((op >> 4u8) + 1) as u8),
        (g.regs.af >> 8u16) as u8)
    &&& op == 0xE2 ==> spec_cpu_write(g, next, 0xFF00 | (g.regs.bc & 0xFF), (g.regs.af >> 8u16) as u8)
    &&& op == 0xC9 ==> spec_ret(g, next)
    &&& op == 0xCD ==> spec_call(g, next)
    &&& (op == 0xC5 || op == 0xD5 || op == 0xE5 || op == 0xF5) ==> spec_push(g, next, g.regs.spec_rr(
        (((op >> 4u8) + 1) as u8) & 3,
    ))
    &&& (op == 0xC1 || op == 0xD1 || op == 0xE1 || op == 0xF1) ==> spec_pop(g, op, next)
    &&& 0x40 <= op <= 0x7F && op != 0x76 && is_mem_operand(op) && !is_mem_operand(op >> 3u8) ==> spec_ld_from_hl(
        g,
        op,
        next,
    )
    &&& 0x40 <= op <= 0x7F && !is_nop(op) && !is_mem_operand(op) && is_mem_operand(op >> 3u8) ==> spec_cpu_write(
        g,
        next,
        g.regs.hl,
        g.regs.spec_r8(op),
    )
    &&& (op == 0x2A || op == 0x3A) ==> spec_m_cycle(g, next) && next.regs == (Regs {
        af: with_high(g.regs.af, spec_bus_read(next, g.regs.hl)),
        hl: if op == 0x2A { g.regs.hl.wrapping_add(1) } else { g.regs.hl.wrapping_sub(1) },
        ..g.regs
    })
}

/// `LD A, (HL+)` and `LD A, (HL-)` load A with the byte the memory map
/// holds at HL as it was before the instruction (read after one m-cycle),
/// then move HL one up or one down; F, the other pairs, SP and PC are kept.
pub proof fn law_ld_a_hl_reads_old_hl(g: Gb, op: u8, next: Gb)
    requires
        op == 0x2A || op == 0x3A,
        spec_exec_more(g, op, next),
    ensures
        spec_m_cycle(g, next),
        next.regs.af == with_high(g.regs.af, spec_bus_read(next, g.regs.hl)),
        next.regs.hl == (if op == 0x2A { g.regs.hl.wrapping_add(1) } else { g.regs.hl.wrapping_sub(1) }),
        next.regs.bc == g.regs.bc && next.regs.de == g.regs.de,
        next.regs.sp == g.regs.sp && next.regs.pc == g.regs.pc,
{
}

/// The memory map does not read the CPU registers.
proof fn lemma_read_ignores_regs(g: Gb, h: Gb, addr: u16)
    requires
        h == (Gb { regs: h.regs, ..g }),
    ensures
        spec_bus_read(h, addr) == spec_bus_read(g, addr),
{
    reveal(spec_bus_read);
}

/// An m-cycle does not depend on the CPU registers of the state it starts
/// from.
proof fn lemma_m_cycle_ignores_regs(g: Gb, h: Gb, m: Gb)
    requires
        h == (Gb { regs: h.regs, ..g }),
        spec_m_cycle(h, m),
    ensures
        spec_m_cycle(g, m),
{
    reveal(spec_m_cycle);
    Gb::lemma_units_ran_regs(g, h, m, 4);
}

/// A change of the CPU registers alone after an m-cycle is still that
/// m-cycle.
proof fn lemma_m_cycle_target_regs(g: Gb, m: Gb, n: Gb)
    requires
        spec_m_cycle(g, m),
        n == (Gb { regs: n.regs, ..m }),
        n.wf(),
    ensures
        spec_m_cycle(g, n),
{
    reveal(spec_m_cycle);
    Gb::lemma_units_ran_target_regs(g, m, n, 4);
}

/// `LD r, d8` into the high byte of pair `((op >> 4) + 1) & 3` after the
/// fetch.
pub open spec fn spec_ld_hr_d8(r: Regs, op: u8, v: u8) -> Regs {
    let id = (((op >> 4u8) + 1) as u8) & 3;
    let r1 = Regs { pc: r.pc.wrapping_add(1), ..r };
    let w = with_high(r1.spec_rr(id), v);
    r1.spec_set_rr(id, if id == 0 { w & 0xFFF0 } else { w })
}

/// `LD r, d8` into the low byte of pair `(op >> 4) + 1` after the fetch.
pub open spec fn spec_ld_lr_d8(r: Regs, op: u8, v: u8) -> Regs {
    let id = ((op >> 4u8) + 1) as u8;
    let r1 = Regs { pc: r.pc.wrapping_add(1), ..r };
    let w = with_low(r1.spec_rr(id), v);
    r1.spec_set_rr(id, if id == 0 { w & 0xFFF0 } else { w })
}

/// `INC r` on the low byte of pair `(op >> 4) + 1`.
pub open spec fn spec_inc_lr(r: Regs, op: u8) -> Regs {
    let id = ((op >> 4u8) + 1) as u8;
    let w = r.spec_rr(id);
    let (v, f) = spec_inc8(r.af, (w & 0xFF) as u8);
    let r1 = r.spec_set_rr(id, with_low(w, v));
    Regs { af: (r1.af & 0xFF00) | (f & 0xFF), ..r1 }
}

/// `DEC r` on the low byte of pair `(op >> 4) + 1`.
pub open spec fn spec_dec_lr(r: Regs, op: u8) -> Regs {
    let id = ((op >> 4u8) + 1) as u8;
    let w = r.spec_rr(id);
    let (v, f) = spec_dec8(r.af, (w & 0xFF) as u8);
    let r1 = r.spec_set_rr(id, with_low(w, v));
    Regs { af: (r1.af & 0xFF00) | (f & 0xFF), ..r1 }
}

/// `INC r` on the high byte of pair `((op >> 4) + 1) & 3`.
pub open spec fn spec_inc_hr(r: Regs, op: u8) -> Regs {
    let id = (((op >> 4u8) + 1) as u8) & 3;
    let w = r.spec_rr(id);
    let (v, f) = spec_inc8(r.af, (w >> 8u16) as u8);
    let nw = with_high(w, v);
    let r1 = r.spec_set_rr(id, if id == 0 { nw & 0xFFF0 } else { nw });
    Regs { af: (r1.af & 0xFF00) | (f & 0xFF), ..r1 }
}

/// `DEC r` on the high byte of pair `((op >> 4) + 1) & 3`.
pub open spec fn spec_dec_hr(r: Regs, op: u8) -> Regs {
    let id = (((op >> 4u8) + 1) as u8) & 3;
    let w = r.spec_rr(id);
    let (v, f) = spec_dec8(r.af, (w >> 8u16) as u8);
    let nw = with_high(w, v);
    let r1 = r.spec_set_rr(id, if id == 0 { nw & 0xFFF0 } else { nw });
    Regs { af: (r1.af & 0xFF00) | (f & 0xFF), ..r1 }
}

/// `POP rr` of the word `v`: pair `((op >> 4) + 1) & 3`, SP up by two.
pub open spec fn spec_pop_rr(r: Regs, op: u8, v: u16) -> Regs {
    let id = (((op >> 4u8) + 1) as u8) & 3;
    let r1 = Regs { sp: r.sp.wrapping_add(2), ..r };
    r1.spec_set_rr(id, if id == 0 { v & 0xFFF0 } else { v })
}

/// `LD rr, d16` of the word `v`: pair `(op >> 4) + 1`, PC past the word.
pub open spec fn spec_ld_rr_d16(r: Regs, op: u8, v: u16) -> Regs {
    let id = ((op >> 4u8) + 1) as u8;
    let r1 = Regs { pc: r.pc.wrapping_add(2), ..r };
    r1.spec_set_rr(id, if id == 0 { v & 0xFFF0 } else { v })
}

/// The 8-bit ALU operation of kind `kind` (bits 3 to 5 of opcodes 0x80 to
/// 0xBF): ADD, ADC, SUB, SBC, AND, XOR, OR, CP.
pub open spec fn spec_alu8(kind: u8, af: u16, v: u8) -> u16 {
    if kind == 0 {
        spec_add(af, v)
    } else if kind == 1 {
        spec_adc(af, v)
    } else if kind == 2 {
        spec_sub(af, v)
    } else if kind == 3 {
        spec_sbc(af, v)
    } else if kind == 4 {
        spec_and(af, v)
    } else if kind == 5 {
        spec_xor(af, v)
    } else if kind == 6 {
        spec_or(af, v)
    } else {
        spec_cp(af, v)
    }
}

/// Opcodes that do nothing.
pub open spec fn is_nop(op: u8) -> bool {
    op == 0x00 || op == 0x40 || op == 0x49 || op == 0x52 || op == 0x5B || op == 0x64 || op == 0x6D || op == 0x7F
}

/// What an instruction that touches only registers does to them: loads
/// between registers, 8-bit arithmetic on registers, increments and
/// decrements of registers, accumulator rotations and adjustments, 16-bit
/// additions to HL, `JP HL` and `LD SP, HL`. `None` for the instructions
/// that read the program or memory.
pub open spec fn spec_reg_op(r: Regs, op: u8) -> Option<Regs> {
    if is_nop(op) {
        Some(r)
    } else if 0x40 <= op <= 0x7F && op != 0x76 && !is_mem_operand(op) && !is_mem_operand(op >> 3u8) {
        Some(r.spec_set_r8(op >> 3u8, r.spec_r8(op)))
    } else if 0x80 <= op <= 0xBF && !is_mem_operand(op) {
        Some(Regs { af: spec_alu8((op / 8) % 8, r.af, r.spec_r8(op)), ..r })
    } else if op == 0x07 {
        Some(Regs { af: alu::spec_rlca(r.af), ..r })
    } else if op == 0x0F {
        Some(Regs { af: alu::spec_rrca(r.af), ..r })
    } else if op == 0x17 {
        Some(Regs { af: alu::spec_rla(r.af), ..r })
    } else if op == 0x1F {
        Some(Regs { af: alu::spec_rra(r.af), ..r })
    } else if op == 0x27 {
        Some(Regs { af: alu::spec_daa(r.af), ..r })
    } else if op == 0x2F {
        Some(Regs { af: alu::spec_cpl(r.af), ..r })
    } else if op == 0x37 {
        Some(Regs { af: alu::spec_scf(r.af), ..r })
    } else if op == 0x3F {
        Some(Regs { af: alu::spec_ccf(r.af), ..r })
    } else if op == 0x0C || op == 0x1C || op == 0x2C {
        Some(spec_inc_lr(r, op))
    } else if op == 0x0D || op == 0x1D || op == 0x2D {
        Some(spec_dec_lr(r, op))
    } else if op == 0x04 || op == 0x14 || op == 0x24 || op == 0x3C {
        Some(spec_inc_hr(r, op))
    } else if op == 0x05 || op == 0x15 || op == 0x25 || op == 0x3D {
        Some(spec_dec_hr(r, op))
    } else if op == 0x03 || op == 0x13 || op == 0x23 || op == 0x33 {
        let id = ((op >> 4u8) + 1) as u8;
        Some(r.spec_set_rr(id, r.spec_rr(id).wrapping_add(1)))
    } else if op == 0x0B || op == 0x1B || op == 0x2B || op == 0x3B {
        let id = ((op >> 4u8) + 1) as u8;
        Some(r.spec_set_rr(id, r.spec_rr(id).wrapping_sub(1)))
    } else if op == 0x09 || op == 0x19 || op == 0x29 || op == 0x39 {
        let (hl, f) = spec_add_hl(r.af, r.hl, r.spec_rr(((op >> 4u8) + 1) as u8));
        Some(Regs { hl, af: f, ..r })
    } else if op == 0xE9 {
        Some(Regs { pc: r.hl, ..r })
    } else if op == 0xF9 {
        Some(Regs { sp: r.hl, ..r })
    } else {
        None
    }
}

impl Gb {
    /// One m-cycle passes.
    fn tick_m_cycle(&mut self)
        requires
            old(self).wf(),
        ensures
            final(self).wf(),
            final(self).regs == old(self).regs,
            final(self).double_speed == old(self).double_speed,
            final(self).double_speed_request == old(self).double_speed_request,
            final(self).ints.ie == old(self).ints.ie,
            final(self).ints.ime == old(self).ints.ime,
            final(self).cpu_halted == old(self).cpu_halted,
            final(self).ei_delay == old(self).ei_delay,
            final(self).halt_bug == old(self).halt_bug,
            spec_m_cycle(*old(self), *final(self)),
    {
        self.advance_t_cycles(4);
        proof {
            reveal(spec_m_cycle);
            Gb::lemma_units_ran(*old(self), *self, 4);
        }
    }

    /// A CPU read: one m-cycle, then the memory map.
    fn read(&mut self, addr: u16) -> (r: u8)
        requires
            old(self).wf(),
        ensures
            final(self).wf(),
            final(self).regs == old(self).regs,
            final(self).double_speed == old(self).double_speed,
            final(self).double_speed_request == old(self).double_speed_request,
            final(self).ints.ie == old(self).ints.ie,
            final(self).ints.ime == old(self).ints.ime,
            final(self).cpu_halted == old(self).cpu_halted,
            final(self).ei_delay == old(self).ei_delay,
            final(self).halt_bug == old(self).halt_bug,
            spec_m_cycle(*old(self), *final(self)),
            r == spec_bus_read(*final(self), addr),
    {
        self.tick_m_cycle();
        proof {
            self.lemma_wf_elim();
            reveal(spec_bus_read);
        }
        self.read_mem(addr)
    }

    /// A CPU write: one m-cycle, then the memory map.
    fn cpu_write(&mut self, addr: u16, val: u8)
        requires
            old(self).wf(),
        ensures
            final(self).wf(),
            final(self).regs == old(self).regs,
            spec_cpu_write(*old(self), *final(self), addr, val),
    {
        self.tick_m_cycle();
        let ghost m = *self;
        self.write_mem(addr, val);
        proof {
            reveal(spec_cpu_write);
            assert(m.spec_mem_written(*self, addr, val));
        }
    }

    /// Fetches the byte at PC.
    fn imm8(&mut self) -> (r: u8)
        requires
            old(self).wf(),
        ensures
            final(self).wf(),
            final(self).regs == (Regs { pc: old(self).regs.pc.wrapping_add(1), ..old(self).regs }),
            final(self).double_speed == old(self).double_speed,
            final(self).double_speed_request == old(self).double_speed_request,
            final(self).ints.ie == old(self).ints.ie,
            final(self).ints.ime == old(self).ints.ime,
            spec_m_cycle(*old(self), *final(self)),
            r == spec_bus_read(*final(self), old(self).regs.pc),
            final(self).cpu_halted == old(self).cpu_halted,
            final(self).halt_bug == old(self).halt_bug,
    {
        let pc = self.regs.pc;
        let val = self.read(pc);
        let ghost m = *self;
        proof { self.lemma_wf_elim(); }
        self.regs.pc = pc.wrapping_add(1);
        proof {
            self.lemma_wf_intro();
            lemma_read_ignores_regs(m, *self, pc);
            lemma_m_cycle_target_regs(*old(self), m, *self);
        }
        val
    }

    /// Fetches the little-endian word at PC.
    fn imm16(&mut self) -> (r: u16)
        requires
            old(self).wf(),
        ensures
            final(self).wf(),
            final(self).regs == (Regs { pc: old(self).regs.pc.wrapping_add(2), ..old(self).regs }),
            exists|m: Gb| #![trigger spec_m_cycle(*old(self), m)]
                spec_m_cycle(*old(self), m) && spec_m_cycle(m, *final(self)) && r == spec_word(
                    spec_bus_read(m, old(self).regs.pc),
                    spec_bus_read(*final(self), old(self).regs.pc.wrapping_add(1)),
                ),
    {
        let lo8 = self.imm8();
        let ghost m = *self;
        let hi8 = self.imm8();
        let lo = lo8 as u16;
        let hi = hi8 as u16;
        assert(spec_m_cycle(*old(self), m));
        assert(old(self).regs.pc.wrapping_add(1).wrapping_add(1) == old(self).regs.pc.wrapping_add(2));
        (hi << 8) | lo
    }

    /// Sets the register pair `id` (AF keeps its flag bits' low nibble
    /// clear).
    fn set_rr(&mut self, id: u8, v: u16)
        requires
            old(self).wf(),
        ensures
            final(self).wf(),
            final(self).regs == old(self).regs.spec_set_rr(id, if id == 0 { v & 0xFFF0 } else { v }),
            *final(self) == (Gb { regs: final(self).regs, ..*old(self) }),
    {
        proof { self.lemma_wf_elim(); }
        self.regs.set_rr(id, v);
        proof { self.lemma_wf_intro(); }
    }

    /// Sets AF from an ALU result.
    fn set_af(&mut self, af: u16)
        requires
            old(self).wf(),
            af_wf(af),
        ensures
            final(self).wf(),
            final(self).regs == (Regs { af, ..old(self).regs }),
            *final(self) == (Gb { regs: final(self).regs, ..*old(self) }),
    {
        proof { self.lemma_wf_elim(); }
        self.regs.af = af;
        proof { self.lemma_wf_intro(); }
    }

    /// The operand named by the register field of `op`: a register, or the
    /// byte at HL (one m-cycle).
    fn get_r(&mut self, op: u8) -> (r: u8)
        requires
            old(self).wf(),
        ensures
            final(self).wf(),
            final(self).regs == old(self).regs,
            !is_mem_operand(op) ==> r == old(self).regs.spec_r8(op) && *final(self) == *old(self),
            is_mem_operand(op) ==> spec_m_cycle(*old(self), *final(self))
                && r == spec_bus_read(*final(self), old(self).regs.hl),
    {
        proof { crate::bits::lemma_shr_u8(op); }
        if op & 7 == 6 {
            let hl = self.regs.hl;
            self.read(hl)
        } else {
            assert(op & 7 != 6 ==> ((((op >> 1u8) + 1) as u8) & 3 != 0 || op & 1 != 0)) by (bit_vector);
            self.regs.r8(op)
        }
    }

    /// Writes the operand named by the register field of `op`: a register,
    /// or the byte at HL (one m-cycle).
    fn set_r(&mut self, op: u8, val: u8)
        requires
            old(self).wf(),
        ensures
            final(self).wf(),
            !is_mem_operand(op) ==> final(self).regs == old(self).regs.spec_set_r8(op, val),
            is_mem_operand(op) ==> final(self).regs == old(self).regs
                && spec_cpu_write(*old(self), *final(self), old(self).regs.hl, val),
            !is_mem_operand(op) ==> *final(self) == (Gb { regs: final(self).regs, ..*old(self) }),
    {
        proof { crate::bits::lemma_shr_u8(op); }
        if op & 7 == 6 {
            let hl = self.regs.hl;
            self.cpu_write(hl, val);
        } else {
            proof { self.lemma_wf_elim(); }
            self.regs.set_r8(op, val);
            proof { self.lemma_wf_intro(); }
        }
    }

    /// `ADD A, r`: the operand is a register or the byte at HL.
    fn add_a_r(&mut self, op: u8)
        requires
            old(self).wf(),
        ensures
            final(self).wf(),
            exists|v: u8|
                final(self).regs == (Regs { af: #[trigger] spec_add(old(self).regs.af, v), ..old(self).regs })
                    && (!is_mem_operand(op) ==> v == old(self).regs.spec_r8(op)),
    {
        let v = self.get_r(op);
        let af = alu::add(self.regs.af, v);
        self.set_af(af);
    }

    /// `ADD A, d8`: the operand is the next byte.
    fn add_a_d8(&mut self)
        requires
            old(self).wf(),
        ensures
            final(self).wf(),
            exists|v: u8|
                final(self).regs == (Regs {
                    af: #[trigger] spec_add(old(self).regs.af, v),
                    pc: old(self).regs.pc.wrapping_add(1),
                    ..old(self).regs
                }),
    {
        let v = self.imm8();
        let af = alu::add(self.regs.af, v);
        self.set_af(af);
    }

    /// `ADC A, r`: the operand is a register or the byte at HL.
    fn adc_a_r(&mut self, op: u8)
        requires
            old(self).wf(),
        ensures
            final(self).wf(),
            exists|v: u8|
                final(self).regs == (Regs { af: #[trigger] spec_adc(old(self).regs.af, v), ..old(self).regs })
                    && (!is_mem_operand(op) ==> v == old(self).regs.spec_r8(op)),
    {
        let v = self.get_r(op);
        let af = alu::adc(self.regs.af, v);
        self.set_af(af);
    }

    /// `ADC A, d8`: the operand is the next byte.
    fn adc_a_d8(&mut self)
        requires
            old(self).wf(),
        ensures
            final(self).wf(),
            exists|v: u8|
                final(self).regs == (Regs {
                    af: #[trigger] spec_adc(old(self).regs.af, v),
                    pc: old(self).regs.pc.wrapping_add(1),
                    ..old(self).regs
                }),
    {
        let v = self.imm8();
        let af = alu::adc(self.regs.af, v);
        self.set_af(af);
    }

    /// `SUB A, r`: the operand is a register or the byte at HL.
    fn sub_a_r(&mut self, op: u8)
        requires
            old(self).wf(),
        ensures
            final(self).wf(),
            exists|v: u8|
                final(self).regs == (Regs { af: #[trigger] spec_sub(old(self).regs.af, v), ..old(self).regs })
                    && (!is_mem_operand(op) ==> v == old(self).regs.spec_r8(op)),
    {
        let v = self.get_r(op);
        let af = alu::sub(self.regs.af, v);
        self.set_af(af);
    }

    /// `SUB A, d8`: the operand is the next byte.
    fn sub_a_d8(&mut self)
        requires
            old(self).wf(),
        ensures
            final(self).wf(),
            exists|v: u8|
                final(self).regs == (Regs {
                    af: #[trigger] spec_sub(old(self).regs.af, v),
                    pc: old(self).regs.pc.wrapping_add(1),
                    ..old(self).regs
                }),
    {
        let v = self.imm8();
        let af = alu::sub(self.regs.af, v);
        self.set_af(af);
    }

    /// `SBC A, r`: the operand is a register or the byte at HL.
    fn sbc_a_r(&mut self, op: u8)
        requires
            old(self).wf(),
        ensures
            final(self).wf(),
            exists|v: u8|
                final(self).regs == (Regs { af: #[trigger] spec_sbc(old(self).regs.af, v), ..old(self).regs })
                    && (!is_mem_operand(op) ==> v == old(self).regs.spec_r8(op)),
    {
        let v = self.get_r(op);
        let af = alu::sbc(self.regs.af, v);
        self.set_af(af);
    }

    /// `SBC A, d8`: the operand is the next byte.
    fn sbc_a_d8(&mut self)
        requires
            old(self).wf(),
        ensures
            final(self).wf(),
            exists|v: u8|
                final(self).regs == (Regs {
                    af: #[trigger] spec_sbc(old(self).regs.af, v),
                    pc: old(self).regs.pc.wrapping_add(1),
                    ..old(self).regs
                }),
    {
        let v = self.imm8();
        let af = alu::sbc(self.regs.af, v);
        self.set_af(af);
    }

    /// `AND A, r`: the operand is a register or the byte at HL.
    fn and_a_r(&mut self, op: u8)
        requires
            old(self).wf(),
        ensures
            final(self).wf(),
            exists|v: u8|
                final(self).regs == (Regs { af: #[trigger] spec_and(old(self).regs.af, v), ..old(self).regs })
                    && (!is_mem_operand(op) ==> v == old(self).regs.spec_r8(op)),
    {
        let v = self.get_r(op);
        let af = alu::and(self.regs.af, v);
        self.set_af(af);
    }

    /// `AND A, d8`: the operand is the next byte.
    fn and_a_d8(&mut self)
        requires
            old(self).wf(),
        ensures
            final(self).wf(),
            exists|v: u8|
                final(self).regs == (Regs {
                    af: #[trigger] spec_and(old(self).regs.af, v),
                    pc: old(self).regs.pc.wrapping_add(1),
                    ..old(self).regs
                }),
    {
        let v = self.imm8();
        let af = alu::and(self.regs.af, v);
        self.set_af(af);
    }

    /// `XOR A, r`: the operand is a register or the byte at HL.
    fn xor_a_r(&mut self, op: u8)
        requires
            old(self).wf(),
        ensures
            final(self).wf(),
            exists|v: u8|
                final(self).regs == (Regs { af: #[trigger] spec_xor(old(self).regs.af, v), ..old(self).regs })
                    && (!is_mem_operand(op) ==> v == old(self).regs.spec_r8(op)),
    {
        let v = self.get_r(op);
        let af = alu::xor(self.regs.af, v);
        self.set_af(af);
    }

    /// `XOR A, d8`: the operand is the next byte.
    fn xor_a_d8(&mut self)
        requires
            old(self).wf(),
        ensures
            final(self).wf(),
            exists|v: u8|
                final(self).regs == (Regs {
                    af: #[trigger] spec_xor(old(self).regs.af, v),
                    pc: old(self).regs.pc.wrapping_add(1),
                    ..old(self).regs
                }),
    {
        let v = self.imm8();
        let af = alu::xor(self.regs.af, v);
        self.set_af(af);
    }

    /// `OR A, r`: the operand is a register or the byte at HL.
    fn or_a_r(&mut self, op: u8)
        requires
            old(self).wf(),
        ensures
            final(self).wf(),
            exists|v: u8|
                final(self).regs == (Regs { af: #[trigger] spec_or(old(self).regs.af, v), ..old(self).regs })
                    && (!is_mem_operand(op) ==> v == old(self).regs.spec_r8(op)),
    {
        let v = self.get_r(op);
        let af = alu::or(self.regs.af, v);
        self.set_af(af);
    }

    /// `OR A, d8`: the operand is the next byte.
    fn or_a_d8(&mut self)
        requires
            old(self).wf(),
        ensures
            final(self).wf(),
            exists|v: u8|
                final(self).regs == (Regs {
                    af: #[trigger] spec_or(old(self).regs.af, v),
                    pc: old(self).regs.pc.wrapping_add(1),
                    ..old(self).regs
                }),
    {
        let v = self.imm8();
        let af = alu::or(self.regs.af, v);
        self.set_af(af);
    }

    /// `CP A, r`: the operand is a register or the byte at HL.
    fn cp_a_r(&mut self, op: u8)
        requires
            old(self).wf(),
        ensures
            final(self).wf(),
            exists|v: u8|
                final(self).regs == (Regs { af: #[trigger] spec_cp(old(self).regs.af, v), ..old(self).regs })
                    && (!is_mem_operand(op) ==> v == old(self).regs.spec_r8(op)),
    {
        let v = self.get_r(op);
        let af = alu::cp(self.regs.af, v);
        self.set_af(af);
    }

    /// `CP A, d8`: the operand is the next byte.
    fn cp_a_d8(&mut self)
        requires
            old(self).wf(),
        ensures
            final(self).wf(),
            exists|v: u8|
                final(self).regs == (Regs {
                    af: #[trigger] spec_cp(old(self).regs.af, v),
                    pc: old(self).regs.pc.wrapping_add(1),
                    ..old(self).regs
                }),
    {
        let v = self.imm8();
        let af = alu::cp(self.regs.af, v);
        self.set_af(af);
    }

    /// `LD r, r'`: copies the operand of the low three bits into that of
    /// bits 3 to 5.
    fn ld(&mut self, op: u8)
        requires
            old(self).wf(),
        ensures
            final(self).wf(),
            !is_mem_operand(op) && !is_mem_operand(op >> 3u8) ==> final(self).regs == old(self).regs.spec_set_r8(
                op >> 3u8,
                old(self).regs.spec_r8(op),
            ),
            is_mem_operand(op) && !is_mem_operand(op >> 3u8) ==> spec_ld_from_hl(*old(self), op, *final(self)),
            !is_mem_operand(op) && is_mem_operand(op >> 3u8) ==> spec_cpu_write(*old(self), *final(self),
                old(self).regs.hl, old(self).regs.spec_r8(op)),
    {
        let val = self.get_r(op);
        let ghost m = *self;
        self.set_r(op >> 3, val);
        proof {
            if is_mem_operand(op) && !is_mem_operand(op >> 3u8) {
                lemma_m_cycle_target_regs(*old(self), m, *self);
                lemma_read_ignores_regs(m, *self, old(self).regs.hl);
            }
        }
    }

    /// `LD A, (BC)` and `LD A, (DE)`.
    fn ld_a_drr(&mut self, op: u8)
        requires
            old(self).wf(),
        ensures
            final(self).wf(),
            exists|v: u8| final(self).regs == (Regs { af: #[trigger] with_high(old(self).regs.af, v), ..old(self).regs }),
    {
        let id = pair_id(op);
        let addr = self.regs.rr(id);
        let v = self.read(addr);
        let af = with_high_exec(self.regs.af, v);
        self.set_af(af);
    }

    /// `LD (BC), A` and `LD (DE), A`.
    fn ld_drr_a(&mut self, op: u8)
        requires
            old(self).wf(),
        ensures
            final(self).wf(),
            final(self).regs == old(self).regs,
            spec_cpu_write(*old(self), *final(self), old(self).regs.spec_rr(((op >> 4u8) + 1) as u8),
                (old(self).regs.af >> 8u16) as u8),
    {
        let id = pair_id(op);
        let addr = self.regs.rr(id);
        let a = (self.regs.af >> 8) as u8;
        self.cpu_write(addr, a);
    }

    /// `LD (a16), A`.
    fn ld_da16_a(&mut self)
        requires
            old(self).wf(),
        ensures
            final(self).wf(),
            final(self).regs == (Regs { pc: old(self).regs.pc.wrapping_add(2), ..old(self).regs }),
    {
        let addr = self.imm16();
        let a = (self.regs.af >> 8) as u8;
        self.cpu_write(addr, a);
    }

    /// `LD A, (a16)`.
    fn ld_a_da16(&mut self)
        requires
            old(self).wf(),
        ensures
            final(self).wf(),
            exists|v: u8|
                final(self).regs == (Regs {
                    af: #[trigger] with_high(old(self).regs.af, v),
                    pc: old(self).regs.pc.wrapping_add(2),
                    ..old(self).regs
                }),
    {
        let addr = self.imm16();
        let v = self.read(addr);
        let af = with_high_exec(self.regs.af, v);
        self.set_af(af);
    }

    /// `LD (HL+), A`.
    fn ld_dhli_a(&mut self)
        requires
            old(self).wf(),
        ensures
            final(self).wf(),
            final(self).regs == (Regs { hl: old(self).regs.hl.wrapping_add(1), ..old(self).regs }),
    {
        let addr = self.regs.hl;
        let a = (self.regs.af >> 8) as u8;
        self.cpu_write(addr, a);
        self.set_rr(3, addr.wrapping_add(1));
    }

    /// `LD (HL-), A`.
    fn ld_dhld_a(&mut self)
        requires
            old(self).wf(),
        ensures
            final(self).wf(),
            final(self).regs == (Regs { hl: old(self).regs.hl.wrapping_sub(1), ..old(self).regs }),
    {
        let addr = self.regs.hl;
        let a = (self.regs.af >> 8) as u8;
        self.cpu_write(addr, a);
        self.set_rr(3, addr.wrapping_sub(1));
    }

    /// `LD A, (HL+)`.
    fn ld_a_dhli(&mut self)
        requires
            old(self).wf(),
        ensures
            final(self).wf(),
            exists|v: u8|
                final(self).regs == (Regs {
                    af: #[trigger] with_high(old(self).regs.af, v),
                    hl: old(self).regs.hl.wrapping_add(1),
                    ..old(self).regs
                }),
            spec_m_cycle(*old(self), *final(self)),
            final(self).regs.af == with_high(old(self).regs.af, spec_bus_read(*final(self), old(self).regs.hl)),
    {
        let addr = self.regs.hl;
        let v = self.read(addr);
        let ghost m = *self;
        let af = with_high_exec(self.regs.af, v);
        self.set_af(af);
        self.set_rr(3, addr.wrapping_add(1));
        proof {
            lemma_m_cycle_target_regs(*old(self), m, *self);
            lemma_read_ignores_regs(m, *self, addr);
        }
    }

    /// `LD A, (HL-)`.
    fn ld_a_dhld(&mut self)
        requires
            old(self).wf(),
        ensures
            final(self).wf(),
            exists|v: u8|
                final(self).regs == (Regs {
                    af: #[trigger] with_high(old(self).regs.af, v),
                    hl: old(self).regs.hl.wrapping_sub(1),
                    ..old(self).regs
                }),
            spec_m_cycle(*old(self), *final(self)),
            final(self).regs.af == with_high(old(self).regs.af, spec_bus_read(*final(self), old(self).regs.hl)),
    {
        let addr = self.regs.hl;
        let v = self.read(addr);
        let ghost m = *self;
        let af = with_high_exec(self.regs.af, v);
        self.set_af(af);
        self.set_rr(3, addr.wrapping_sub(1));
        proof {
            lemma_m_cycle_target_regs(*old(self), m, *self);
            lemma_read_ignores_regs(m, *self, addr);
        }
    }

    /// `LDH (a8), A`: writes A to 0xFF00 + the next byte.
    fn ldh_da8_a(&mut self)
        requires
            old(self).wf(),
        ensures
            final(self).wf(),
            final(self).regs == (Regs { pc: old(self).regs.pc.wrapping_add(1), ..old(self).regs }),
    {
        let lo = self.imm8() as u16;
        let a = (self.regs.af >> 8) as u8;
        self.cpu_write(0xFF00 | lo, a);
    }

    /// `LDH A, (a8)`.
    fn ldh_a_da8(&mut self)
        requires
            old(self).wf(),
        ensures
            final(self).wf(),
            exists|v: u8|
                final(self).regs == (Regs {
                    af: #[trigger] with_high(old(self).regs.af, v),
                    pc: old(self).regs.pc.wrapping_add(1),
                    ..old(self).regs
                }),
    {
        let lo = self.imm8() as u16;
        let v = self.read(0xFF00 | lo);
        let af = with_high_exec(self.regs.af, v);
        self.set_af(af);
    }

    /// `LD (C), A`: writes A to 0xFF00 + C.
    fn ldh_dc_a(&mut self)
        requires
            old(self).wf(),
        ensures
            final(self).wf(),
            final(self).regs == old(self).regs,
            spec_cpu_write(*old(self), *final(self), 0xFF00 | (old(self).regs.bc & 0xFF),
                (old(self).regs.af >> 8u16) as u8),
    {
        let addr = 0xFF00 | (self.regs.bc & 0xFF);
        let a = (self.regs.af >> 8) as u8;
        self.cpu_write(addr, a);
    }

    /// `LD A, (C)`.
    fn ldh_a_dc(&mut self)
        requires
            old(self).wf(),
        ensures
            final(self).wf(),
            exists|v: u8| final(self).regs == (Regs { af: #[trigger] with_high(old(self).regs.af, v), ..old(self).regs }),
    {
        let addr = 0xFF00 | (self.regs.bc & 0xFF);
        let v = self.read(addr);
        let af = with_high_exec(self.regs.af, v);
        self.set_af(af);
    }

    /// `LD B, d8`, `LD D, d8`, `LD H, d8`, `LD A, d8`: the high byte of a
    /// pair.
    fn ld_hr_d8(&mut self, op: u8)
        requires
            old(self).wf(),
        ensures
            final(self).wf(),
            exists|m: Gb| #![trigger spec_m_cycle(*old(self), m)]
                spec_m_cycle(*old(self), m) && final(self).regs == spec_ld_hr_d8(old(self).regs, op, spec_bus_read(m, old(self).regs.pc)),
    {
        let id = pair_id(op) & 3;
        let v = self.imm8();
        let ghost m = *self;
        let w = with_high_exec(self.regs.rr(id), v);
        self.set_rr(id, w);
        assert(self.regs == spec_ld_hr_d8(old(self).regs, op, v) && spec_m_cycle(*old(self), m));
    }

    /// `LD C, d8`, `LD E, d8`, `LD L, d8`: the low byte of a pair.
    fn ld_lr_d8(&mut self, op: u8)
        requires
            old(self).wf(),
        ensures
            final(self).wf(),
            exists|m: Gb| #![trigger spec_m_cycle(*old(self), m)]
                spec_m_cycle(*old(self), m) && final(self).regs == spec_ld_lr_d8(old(self).regs, op, spec_bus_read(m, old(self).regs.pc)),
    {
        let id = pair_id(op);
        let v = self.imm8();
        let ghost m = *self;
        let w = with_low_exec(self.regs.rr(id), v);
        self.set_rr(id, w);
        assert(self.regs == spec_ld_lr_d8(old(self).regs, op, v) && spec_m_cycle(*old(self), m));
    }

    /// `LD (HL), d8`.
    fn ld_dhl_d8(&mut self)
        requires
            old(self).wf(),
        ensures
            final(self).wf(),
            final(self).regs == (Regs { pc: old(self).regs.pc.wrapping_add(1), ..old(self).regs }),
    {
        let v = self.imm8();
        let hl = self.regs.hl;
        self.cpu_write(hl, v);
    }

    /// `LD SP, HL`.
    fn ld16_sp_hl(&mut self)
        requires
            old(self).wf(),
        ensures
            final(self).wf(),
            final(self).regs == (Regs { sp: old(self).regs.hl, ..old(self).regs }),
    {
        let v = self.regs.hl;
        self.set_rr(4, v);
        self.tick_m_cycle();
    }

    /// Sets AF to the flags `f` (and accumulator) of an ALU result, keeping
    /// the accumulator already in AF.
    fn set_flags(&mut self, f: u16)
        requires
            old(self).wf(),
            af_wf(f),
        ensures
            final(self).wf(),
            final(self).regs == (Regs { af: (old(self).regs.af & 0xFF00) | (f & 0xFF), ..old(self).regs }),
    {
        let af = self.regs.af;
        let n = (af & 0xFF00) | (f & 0xFF);
        proof { crate::bits::lemma_af_low_nibble(af, f, 0); }
        self.set_af(n);
    }

    /// `INC C`, `INC E`, `INC L`.
    fn inc_lr(&mut self, op: u8)
        requires
            old(self).wf(),
            op == 0x0C || op == 0x1C || op == 0x2C,
        ensures
            final(self).wf(),
            final(self).regs == spec_inc_lr(old(self).regs, op),
    {
        let id = pair_id(op);
        let w = self.regs.rr(id);
        let (v, f) = alu::inc8(self.regs.af, (w & 0xFF) as u8);
        self.set_rr(id, with_low_exec(w, v));
        self.set_flags(f);
    }

    /// `DEC C`, `DEC E`, `DEC L`.
    fn dec_lr(&mut self, op: u8)
        requires
            old(self).wf(),
            op == 0x0D || op == 0x1D || op == 0x2D,
        ensures
            final(self).wf(),
            final(self).regs == spec_dec_lr(old(self).regs, op),
    {
        let id = pair_id(op);
        let w = self.regs.rr(id);
        let (v, f) = alu::dec8(self.regs.af, (w & 0xFF) as u8);
        self.set_rr(id, with_low_exec(w, v));
        self.set_flags(f);
    }

    /// `INC B`, `INC D`, `INC H`, `INC A`.
    fn inc_hr(&mut self, op: u8)
        requires
            old(self).wf(),
            op == 0x04 || op == 0x14 || op == 0x24 || op == 0x3C,
        ensures
            final(self).wf(),
            final(self).regs == spec_inc_hr(old(self).regs, op),
    {
        let id = pair_id(op) & 3;
        let w = self.regs.rr(id);
        let (v, f) = alu::inc8(self.regs.af, (w >> 8) as u8);
        self.set_rr(id, with_high_exec(w, v));
        self.set_flags(f);
    }

    /// `DEC B`, `DEC D`, `DEC H`, `DEC A`.
    fn dec_hr(&mut self, op: u8)
        requires
            old(self).wf(),
            op == 0x05 || op == 0x15 || op == 0x25 || op == 0x3D,
        ensures
            final(self).wf(),
            final(self).regs == spec_dec_hr(old(self).regs, op),
    {
        let id = pair_id(op) & 3;
        let w = self.regs.rr(id);
        let (v, f) = alu::dec8(self.regs.af, (w >> 8) as u8);
        self.set_rr(id, with_high_exec(w, v));
        self.set_flags(f);
    }

    /// `INC (HL)`.
    fn inc_dhl(&mut self)
        requires
            old(self).wf(),
        ensures
            final(self).wf(),
            exists|u: u8| final(self).regs == (Regs { af: #[trigger] spec_inc8(old(self).regs.af, u).1, ..old(self).regs }),
    {
        let hl = self.regs.hl;
        let u = self.read(hl);
        let (v, f) = alu::inc8(self.regs.af, u);
        self.cpu_write(hl, v);
        self.set_af(f);
    }

    /// `DEC (HL)`.
    fn dec_dhl(&mut self)
        requires
            old(self).wf(),
        ensures
            final(self).wf(),
            exists|u: u8| final(self).regs == (Regs { af: #[trigger] spec_dec8(old(self).regs.af, u).1, ..old(self).regs }),
    {
        let hl = self.regs.hl;
        let u = self.read(hl);
        let (v, f) = alu::dec8(self.regs.af, u);
        self.cpu_write(hl, v);
        self.set_af(f);
    }

    /// `INC BC`, `INC DE`, `INC HL`, `INC SP`.
    fn inc_rr(&mut self, op: u8)
        requires
            old(self).wf(),
            op == 0x03 || op == 0x13 || op == 0x23 || op == 0x33,
        ensures
            final(self).wf(),
            final(self).regs == old(self).regs.spec_set_rr(
                ((op >> 4u8) + 1) as u8,
                old(self).regs.spec_rr(((op >> 4u8) + 1) as u8).wrapping_add(1),
            ),
    {
        let id = pair_id(op);
        let v = self.regs.rr(id).wrapping_add(1);
        self.set_rr(id, v);
        self.tick_m_cycle();
    }

    /// `DEC BC`, `DEC DE`, `DEC HL`, `DEC SP`.
    fn dec_rr(&mut self, op: u8)
        requires
            old(self).wf(),
            op == 0x0B || op == 0x1B || op == 0x2B || op == 0x3B,
        ensures
            final(self).wf(),
            final(self).regs == old(self).regs.spec_set_rr(
                ((op >> 4u8) + 1) as u8,
                old(self).regs.spec_rr(((op >> 4u8) + 1) as u8).wrapping_sub(1),
            ),
    {
        let id = pair_id(op);
        let v = self.regs.rr(id).wrapping_sub(1);
        self.set_rr(id, v);
        self.tick_m_cycle();
    }

    /// `LD HL, SP+e`.
    fn ld_hl_sp_r8(&mut self)
        requires
            old(self).wf(),
        ensures
            final(self).wf(),
            exists|off: u8|
                final(self).regs == (Regs {
                    hl: (#[trigger] spec_add_sp(old(self).regs.af, old(self).regs.sp, off)).0,
                    af: spec_add_sp(old(self).regs.af, old(self).regs.sp, off).1,
                    pc: old(self).regs.pc.wrapping_add(1),
                    ..old(self).regs
                }),
    {
        let off = self.imm8();
        self.tick_m_cycle();
        let (hl, f) = alu::add_sp(self.regs.af, self.regs.sp, off);
        self.set_rr(3, hl);
        self.set_af(f);
    }

    /// `ADD SP, e`.
    fn add_sp_r8(&mut self)
        requires
            old(self).wf(),
        ensures
            final(self).wf(),
            exists|off: u8|
                final(self).regs == (Regs {
                    sp: (#[trigger] spec_add_sp(old(self).regs.af, old(self).regs.sp, off)).0,
                    af: spec_add_sp(old(self).regs.af, old(self).regs.sp, off).1,
                    pc: old(self).regs.pc.wrapping_add(1),
                    ..old(self).regs
                }),
    {
        let off = self.imm8();
        self.tick_m_cycle();
        self.tick_m_cycle();
        let (sp, f) = alu::add_sp(self.regs.af, self.regs.sp, off);
        self.set_rr(4, sp);
        self.set_af(f);
    }

    /// `ADD HL, rr`.
    fn add_hl_rr(&mut self, op: u8)
        requires
            old(self).wf(),
            op == 0x09 || op == 0x19 || op == 0x29 || op == 0x39,
        ensures
            final(self).wf(),
            ({
                let (hl, f) = spec_add_hl(old(self).regs.af, old(self).regs.hl, old(self).regs.spec_rr(((op >> 4u8) + 1) as u8));
                final(self).regs == (Regs { hl, af: f, ..old(self).regs })
            }),
    {
        let id = pair_id(op);
        let rr = self.regs.rr(id);
        let (hl, f) = alu::add_hl(self.regs.af, self.regs.hl, rr);
        self.set_rr(3, hl);
        self.set_af(f);
        self.tick_m_cycle();
    }

    /// `RLCA`.
    fn rlca(&mut self)
        requires
            old(self).wf(),
        ensures
            final(self).wf(),
            final(self).regs == (Regs { af: alu::spec_rlca(old(self).regs.af), ..old(self).regs }),
    {
        let f = alu::rlca(self.regs.af);
        self.set_af(f);
    }

    /// `RRCA`.
    fn rrca(&mut self)
        requires
            old(self).wf(),
        ensures
            final(self).wf(),
            final(self).regs == (Regs { af: alu::spec_rrca(old(self).regs.af), ..old(self).regs }),
    {
        let f = alu::rrca(self.regs.af);
        self.set_af(f);
    }

    /// `RLA`.
    fn rla(&mut self)
        requires
            old(self).wf(),
        ensures
            final(self).wf(),
            final(self).regs == (Regs { af: alu::spec_rla(old(self).regs.af), ..old(self).regs }),
    {
        let f = alu::rla(self.regs.af);
        self.set_af(f);
    }

    /// `RRA`.
    fn rra(&mut self)
        requires
            old(self).wf(),
        ensures
            final(self).wf(),
            final(self).regs == (Regs { af: alu::spec_rra(old(self).regs.af), ..old(self).regs }),
    {
        let f = alu::rra(self.regs.af);
        self.set_af(f);
    }

    /// `DAA`.
    fn daa(&mut self)
        requires
            old(self).wf(),
        ensures
            final(self).wf(),
            final(self).regs == (Regs { af: alu::spec_daa(old(self).regs.af), ..old(self).regs }),
    {
        let f = alu::daa(self.regs.af);
        self.set_af(f);
    }

    /// `CPL`.
    fn cpl(&mut self)
        requires
            old(self).wf(),
        ensures
            final(self).wf(),
            final(self).regs == (Regs { af: alu::spec_cpl(old(self).regs.af), ..old(self).regs }),
    {
        let f = alu::cpl(self.regs.af);
        self.set_af(f);
    }

    /// `CCF`.
    fn ccf(&mut self)
        requires
            old(self).wf(),
        ensures
            final(self).wf(),
            final(self).regs == (Regs { af: alu::spec_ccf(old(self).regs.af), ..old(self).regs }),
    {
        let f = alu::ccf(self.regs.af);
        self.set_af(f);
    }

    /// `SCF`.
    fn scf(&mut self)
        requires
            old(self).wf(),
        ensures
            final(self).wf(),
            final(self).regs == (Regs { af: alu::spec_scf(old(self).regs.af), ..old(self).regs }),
    {
        let f = alu::scf(self.regs.af);
        self.set_af(f);
    }

    /// The condition of a conditional jump, call or return.
    fn condition(&self, op: u8) -> (r: bool)
        ensures
            r == spec_condition(self.regs.af, op),
    {
        alu::condition(self.regs.af, op)
    }

    /// Sets PC.
    fn set_pc(&mut self, pc: u16)
        requires
            old(self).wf(),
        ensures
            final(self).wf(),
            final(self).regs == (Regs { pc, ..old(self).regs }),
            *final(self) == (Gb { regs: final(self).regs, ..*old(self) }),
    {
        proof { self.lemma_wf_elim(); }
        self.regs.pc = pc;
        proof { self.lemma_wf_intro(); }
    }

    /// Jumps to the immediate address.
    fn do_jump_to_immediate(&mut self)
        requires
            old(self).wf(),
        ensures
            final(self).wf(),
            final(self).regs == (Regs { pc: final(self).regs.pc, ..old(self).regs }),
            spec_jump_imm(*old(self), *final(self)),
    {
        let ghost g0 = *self;
        let addr = self.imm16();
        let ghost s2 = *self;
        let ghost m1 = choose|m: Gb| spec_m_cycle(g0, m) && spec_m_cycle(m, s2) && addr == spec_word(
            spec_bus_read(m, g0.regs.pc),
            spec_bus_read(s2, g0.regs.pc.wrapping_add(1)),
        );
        self.set_pc(addr);
        let ghost s3 = *self;
        self.tick_m_cycle();
        proof {
            lemma_m_cycle_ignores_regs(s2, s3, *self);
            assert(spec_m_cycle(g0, m1) && spec_m_cycle(m1, s2));
        }
    }

    /// `JP a16`.
    fn jp_a16(&mut self)
        requires
            old(self).wf(),
        ensures
            final(self).wf(),
            final(self).regs == (Regs { pc: final(self).regs.pc, ..old(self).regs }),
            spec_jump_imm(*old(self), *final(self)),
    {
        self.do_jump_to_immediate();
    }

    /// `JP cc, a16`: skips the address when the condition fails.
    fn jp_cc(&mut self, op: u8)
        requires
            old(self).wf(),
        ensures
            final(self).wf(),
            spec_condition(old(self).regs.af, op) ==> spec_jump_imm(*old(self), *final(self)),
            !spec_condition(old(self).regs.af, op) ==> final(self).regs == (Regs { pc: old(self).regs.pc.wrapping_add(2), ..old(self).regs }),
    {
        if self.condition(op) {
            self.do_jump_to_immediate();
        } else {
            let pc = self.regs.pc.wrapping_add(2);
            self.set_pc(pc);
            self.tick_m_cycle();
            self.tick_m_cycle();
        }
    }

    /// `JP HL`.
    fn jp_hl(&mut self)
        requires
            old(self).wf(),
        ensures
            final(self).wf(),
            final(self).regs == (Regs { pc: old(self).regs.hl, ..old(self).regs }),
    {
        let hl = self.regs.hl;
        self.set_pc(hl);
    }

    /// Jumps by the signed immediate offset.
    fn do_jump_relative(&mut self)
        requires
            old(self).wf(),
        ensures
            final(self).wf(),
            spec_jump_rel(*old(self), *final(self)),
    {
        let off = self.imm8();
        let ghost m = *self;
        let pc = self.regs.pc;
        let d: u16 = if off >= 128 { off as u16 + 0xFF00 } else { off as u16 };
        let npc = pc.wrapping_add(d);
        assert(npc == ((old(self).regs.pc + 1 + sext(off)) % 0x10000) as u16);
        self.set_pc(npc);
        let ghost s3 = *self;
        self.tick_m_cycle();
        proof {
            lemma_m_cycle_ignores_regs(m, s3, *self);
            assert(spec_m_cycle(*old(self), m));
        }
    }

    /// `JR e`.
    fn jr_d(&mut self)
        requires
            old(self).wf(),
        ensures
            final(self).wf(),
            spec_jump_rel(*old(self), *final(self)),
    {
        self.do_jump_relative();
    }

    /// `JR cc, e`.
    fn jr_cc(&mut self, op: u8)
        requires
            old(self).wf(),
        ensures
            final(self).wf(),
            spec_condition(old(self).regs.af, op) ==> spec_jump_rel(*old(self), *final(self)),
            !spec_condition(old(self).regs.af, op) ==> final(self).regs == (Regs { pc: old(self).regs.pc.wrapping_add(1), ..old(self).regs }),
    {
        if self.condition(op) {
            self.do_jump_relative();
        } else {
            let pc = self.regs.pc.wrapping_add(1);
            self.set_pc(pc);
            self.tick_m_cycle();
        }
    }

    /// Pushes a word: high byte first, SP goes down by two.
    fn push(&mut self, val: u16)
        requires
            old(self).wf(),
        ensures
            final(self).wf(),
            final(self).regs == (Regs { sp: old(self).regs.sp.wrapping_sub(2), ..old(self).regs }),
            spec_push(*old(self), *final(self), val),
    {
        let ghost g0 = *self;
        let sp1 = self.regs.sp.wrapping_sub(1);
        self.set_rr(4, sp1);
        assert(*self == spec_with_sp(g0, sp1));
        self.cpu_write(sp1, (val >> 8) as u8);
        let ghost y = *self;
        let sp2 = sp1.wrapping_sub(1);
        self.set_rr(4, sp2);
        assert(*self == spec_with_sp(y, sp2));
        self.cpu_write(sp2, (val & 0xFF) as u8);
        let ghost w = *self;
        self.tick_m_cycle();
        assert(spec_cpu_write(spec_with_sp(g0, sp1), y, sp1, (val >> 8u16) as u8)
            && spec_cpu_write(spec_with_sp(y, sp2), w, sp2, (val & 0xFF) as u8));
    }

    /// Pops a word: low byte first, SP goes up by two.
    #[verifier::spinoff_prover]
    #[verifier::rlimit(40)]
    fn pop(&mut self) -> (r: u16)
        requires
            old(self).wf(),
        ensures
            final(self).wf(),
            final(self).regs == (Regs { sp: old(self).regs.sp.wrapping_add(2), ..old(self).regs }),
            exists|m: Gb| #![trigger spec_m_cycle(*old(self), m)]
                spec_m_cycle(*old(self), m) && spec_m_cycle(m, *final(self)) && r == spec_word(
                    spec_bus_read(m, old(self).regs.sp),
                    spec_bus_read(*final(self), old(self).regs.sp.wrapping_add(1)),
                ),
    {
        let sp = self.regs.sp;
        let lo8 = self.read(sp);
        let ghost s1 = *self;
        let lo = lo8 as u16;
        let sp1 = sp.wrapping_add(1);
        self.set_rr(4, sp1);
        let ghost s2 = *self;
        let hi8 = self.read(sp1);
        let ghost s3 = *self;
        let hi = hi8 as u16;
        self.set_rr(4, sp1.wrapping_add(1));
        proof {
            lemma_m_cycle_ignores_regs(s1, s2, s3);
            lemma_m_cycle_target_regs(s1, s3, *self);
            lemma_read_ignores_regs(s3, *self, sp1);
            assert(spec_m_cycle(*old(self), s1));
        }
        (hi << 8) | lo
    }

    /// Calls the immediate address.
    fn do_call(&mut self)
        requires
            old(self).wf(),
        ensures
            final(self).wf(),
            final(self).regs == (Regs { pc: final(self).regs.pc, sp: old(self).regs.sp.wrapping_sub(2), ..old(self).regs }),
            spec_call(*old(self), *final(self)),
    {
        let ghost g0 = *self;
        let addr = self.imm16();
        let ghost s2 = *self;
        let ghost m = choose|m: Gb| spec_m_cycle(g0, m) && spec_m_cycle(m, s2) && addr == spec_word(
            spec_bus_read(m, g0.regs.pc),
            spec_bus_read(s2, g0.regs.pc.wrapping_add(1)),
        );
        let pc = self.regs.pc;
        self.push(pc);
        let ghost s3 = *self;
        self.set_pc(addr);
        proof {
            assert(spec_m_cycle(g0, m) && spec_m_cycle(m, s2) && spec_push(s2, s3, g0.regs.pc.wrapping_add(2)));
        }
    }

    /// `CALL a16`.
    fn call_nn(&mut self)
        requires
            old(self).wf(),
        ensures
            final(self).wf(),
            final(self).regs == (Regs { pc: final(self).regs.pc, sp: old(self).regs.sp.wrapping_sub(2), ..old(self).regs }),
            spec_call(*old(self), *final(self)),
    {
        self.do_call();
    }

    /// `CALL cc, a16`.
    fn call_cc_a16(&mut self, op: u8)
        requires
            old(self).wf(),
        ensures
            final(self).wf(),
            spec_condition(old(self).regs.af, op) ==> final(self).regs == (Regs {
                pc: final(self).regs.pc,
                sp: old(self).regs.sp.wrapping_sub(2),
                ..old(self).regs
            }),
            !spec_condition(old(self).regs.af, op) ==> final(self).regs == (Regs { pc: old(self).regs.pc.wrapping_add(2), ..old(self).regs }),
    {
        if self.condition(op) {
            self.do_call();
        } else {
            let pc = self.regs.pc.wrapping_add(2);
            self.set_pc(pc);
            self.tick_m_cycle();
            self.tick_m_cycle();
        }
    }

    /// `RET`.
    fn ret(&mut self)
        requires
            old(self).wf(),
        ensures
            final(self).wf(),
            final(self).regs == (Regs { pc: final(self).regs.pc, sp: old(self).regs.sp.wrapping_add(2), ..old(self).regs }),
            spec_ret(*old(self), *final(self)),
    {
        let ghost g0 = *self;
        let pc = self.pop();
        let ghost s2 = *self;
        let ghost m1 = choose|m: Gb| spec_m_cycle(g0, m) && spec_m_cycle(m, s2) && pc == spec_word(
            spec_bus_read(m, g0.regs.sp),
            spec_bus_read(s2, g0.regs.sp.wrapping_add(1)),
        );
        self.set_pc(pc);
        let ghost s3 = *self;
        self.tick_m_cycle();
        proof {
            lemma_m_cycle_ignores_regs(s2, s3, *self);
            assert(spec_m_cycle(g0, m1) && spec_m_cycle(m1, s2));
        }
    }

    /// `RETI`: returns and enables interrupts.
    fn reti(&mut self)
        requires
            old(self).wf(),
        ensures
            final(self).wf(),
            final(self).regs == (Regs { pc: final(self).regs.pc, sp: old(self).regs.sp.wrapping_add(2), ..old(self).regs }),
            final(self).ints.ime,
    {
        self.ret();
        self.ints.enable();
    }

    /// `RET cc`.
    fn ret_cc(&mut self, op: u8)
        requires
            old(self).wf(),
        ensures
            final(self).wf(),
            spec_condition(old(self).regs.af, op) ==> final(self).regs == (Regs {
                pc: final(self).regs.pc,
                sp: old(self).regs.sp.wrapping_add(2),
                ..old(self).regs
            }),
            !spec_condition(old(self).regs.af, op) ==> final(self).regs == old(self).regs,
    {
        let c = self.condition(op);
        self.tick_m_cycle();
        if c {
            self.ret();
        }
    }

    /// `RST n`: calls the fixed address the opcode names.
    fn rst(&mut self, op: u8)
        requires
            old(self).wf(),
        ensures
            final(self).wf(),
            final(self).regs == (Regs { pc: (op as u16) ^ 0xC7, sp: old(self).regs.sp.wrapping_sub(2), ..old(self).regs }),
    {
        let pc = self.regs.pc;
        self.push(pc);
        self.set_pc((op as u16) ^ 0xC7);
    }

    /// `PUSH rr`.
    fn push_rr(&mut self, op: u8)
        requires
            old(self).wf(),
        ensures
            final(self).wf(),
            final(self).regs == (Regs { sp: old(self).regs.sp.wrapping_sub(2), ..old(self).regs }),
            spec_push(*old(self), *final(self), old(self).regs.spec_rr((((op >> 4u8) + 1) as u8) & 3)),
    {
        let id = pair_id(op) & 3;
        let val = self.regs.rr(id);
        self.push(val);
    }

    /// `POP rr`: popping AF clears the low four bits of F.
    fn pop_rr(&mut self, op: u8)
        requires
            old(self).wf(),
        ensures
            final(self).wf(),
            exists|v: u16| final(self).regs == #[trigger] spec_pop_rr(old(self).regs, op, v),
            spec_pop(*old(self), op, *final(self)),
    {
        let ghost g0 = *self;
        let val = self.pop();
        let ghost s2 = *self;
        let ghost m = choose|m: Gb| spec_m_cycle(g0, m) && spec_m_cycle(m, s2) && val == spec_word(
            spec_bus_read(m, g0.regs.sp),
            spec_bus_read(s2, g0.regs.sp.wrapping_add(1)),
        );
        let id = pair_id(op) & 3;
        self.set_rr(id, val);
        assert(self.regs == spec_pop_rr(old(self).regs, op, val));
        proof {
            lemma_m_cycle_target_regs(m, s2, *self);
            lemma_read_ignores_regs(s2, *self, g0.regs.sp.wrapping_add(1));
            assert(spec_m_cycle(g0, m));
        }
    }

    /// `LD rr, d16`.
    fn ld_rr_d16(&mut self, op: u8)
        requires
            old(self).wf(),
        ensures
            final(self).wf(),
            exists|m: Gb, t: Gb| #![trigger spec_m_cycle(*old(self), m), spec_m_cycle(m, t)]
                spec_m_cycle(*old(self), m) && spec_m_cycle(m, t) && final(self).regs == spec_ld_rr_d16(old(self).regs, op, spec_word(
                    spec_bus_read(m, old(self).regs.pc),
                    spec_bus_read(t, old(self).regs.pc.wrapping_add(1)),
                )),
    {
        let id = pair_id(op);
        let imm = self.imm16();
        let ghost t = *self;
        let ghost m = choose|m: Gb| spec_m_cycle(*old(self), m) && spec_m_cycle(m, t) && imm == spec_word(
            spec_bus_read(m, old(self).regs.pc),
            spec_bus_read(t, old(self).regs.pc.wrapping_add(1)),
        );
        self.set_rr(id, imm);
        assert(self.regs == spec_ld_rr_d16(old(self).regs, op, imm) && spec_m_cycle(*old(self), m) && spec_m_cycle(m, t));
    }

    /// `LD (a16), SP`: stores SP, low byte first.
    fn ld_da16_sp(&mut self)
        requires
            old(self).wf(),
        ensures
            final(self).wf(),
            final(self).regs == (Regs { pc: old(self).regs.pc.wrapping_add(2), ..old(self).regs }),
    {
        let val = self.regs.sp;
        let addr = self.imm16();
        self.cpu_write(addr, (val & 0xFF) as u8);
        self.cpu_write(addr.wrapping_add(1), (val >> 8) as u8);
    }

    /// A CB-prefixed rotation or shift of kind `kind` on the operand of `op`.
    fn cb_shift_r(&mut self, op: u8, kind: u8)
        requires
            old(self).wf(),
            kind < 8,
        ensures
            final(self).wf(),
            !is_mem_operand(op) ==> ({
                let (v, f) = spec_cb_shift(kind, old(self).regs.af, old(self).regs.spec_r8(op));
                final(self).regs == (Regs { af: f, ..old(self).regs }).spec_set_r8(op, v)
            }),
            is_mem_operand(op) ==> exists|u: u8| final(self).regs == (Regs { af: (#[trigger] spec_cb_shift(kind, old(self).regs.af, u)).1, ..old(self).regs }),
    {
        let val = self.get_r(op);
        let (v, f) = alu::cb_shift(kind, self.regs.af, val);
        self.set_af(f);
        self.set_r(op, v);
    }

    /// `RLC r`.
    fn rlc_r(&mut self, op: u8)
        requires
            old(self).wf(),
        ensures
            final(self).wf(),
            !is_mem_operand(op) ==> ({
                let (v, f) = spec_cb_shift(0, old(self).regs.af, old(self).regs.spec_r8(op));
                final(self).regs == (Regs { af: f, ..old(self).regs }).spec_set_r8(op, v)
            }),
    {
        self.cb_shift_r(op, 0);
    }

    /// `RRC r`.
    fn rrc_r(&mut self, op: u8)
        requires
            old(self).wf(),
        ensures
            final(self).wf(),
            !is_mem_operand(op) ==> ({
                let (v, f) = spec_cb_shift(1, old(self).regs.af, old(self).regs.spec_r8(op));
                final(self).regs == (Regs { af: f, ..old(self).regs }).spec_set_r8(op, v)
            }),
    {
        self.cb_shift_r(op, 1);
    }

    /// `RL r`.
    fn rl_r(&mut self, op: u8)
        requires
            old(self).wf(),
        ensures
            final(self).wf(),
            !is_mem_operand(op) ==> ({
                let (v, f) = spec_cb_shift(2, old(self).regs.af, old(self).regs.spec_r8(op));
                final(self).regs == (Regs { af: f, ..old(self).regs }).spec_set_r8(op, v)
            }),
    {
        self.cb_shift_r(op, 2);
    }

    /// `RR r`.
    fn rr_r(&mut self, op: u8)
        requires
            old(self).wf(),
        ensures
            final(self).wf(),
            !is_mem_operand(op) ==> ({
                let (v, f) = spec_cb_shift(3, old(self).regs.af, old(self).regs.spec_r8(op));
                final(self).regs == (Regs { af: f, ..old(self).regs }).spec_set_r8(op, v)
            }),
    {
        self.cb_shift_r(op, 3);
    }

    /// `SLA r`.
    fn sla_r(&mut self, op: u8)
        requires
            old(self).wf(),
        ensures
            final(self).wf(),
            !is_mem_operand(op) ==> ({
                let (v, f) = spec_cb_shift(4, old(self).regs.af, old(self).regs.spec_r8(op));
                final(self).regs == (Regs { af: f, ..old(self).regs }).spec_set_r8(op, v)
            }),
    {
        self.cb_shift_r(op, 4);
    }

    /// `SRA r`.
    fn sra_r(&mut self, op: u8)
        requires
            old(self).wf(),
        ensures
            final(self).wf(),
            !is_mem_operand(op) ==> ({
                let (v, f) = spec_cb_shift(5, old(self).regs.af, old(self).regs.spec_r8(op));
                final(self).regs == (Regs { af: f, ..old(self).regs }).spec_set_r8(op, v)
            }),
    {
        self.cb_shift_r(op, 5);
    }

    /// `SWAP r`.
    fn swap_r(&mut self, op: u8)
        requires
            old(self).wf(),
        ensures
            final(self).wf(),
            !is_mem_operand(op) ==> ({
                let (v, f) = spec_cb_shift(6, old(self).regs.af, old(self).regs.spec_r8(op));
                final(self).regs == (Regs { af: f, ..old(self).regs }).spec_set_r8(op, v)
            }),
    {
        self.cb_shift_r(op, 6);
    }

    /// `SRL r`.
    fn srl_r(&mut self, op: u8)
        requires
            old(self).wf(),
        ensures
            final(self).wf(),
            !is_mem_operand(op) ==> ({
                let (v, f) = spec_cb_shift(7, old(self).regs.af, old(self).regs.spec_r8(op));
                final(self).regs == (Regs { af: f, ..old(self).regs }).spec_set_r8(op, v)
            }),
    {
        self.cb_shift_r(op, 7);
    }

    /// `BIT b, r`, `RES b, r` and `SET b, r` (by bits 6 and 7 of `op`).
    fn bit_r(&mut self, op: u8)
        requires
            old(self).wf(),
        ensures
            final(self).wf(),
            !is_mem_operand(op) && op & 0xC0 == 0x40 ==> final(self).regs == (Regs {
                af: spec_bit(old(self).regs.af, (op >> 3u8) & 7, old(self).regs.spec_r8(op)),
                ..old(self).regs
            }),
            !is_mem_operand(op) && op & 0xC0 == 0x80 ==> final(self).regs == old(self).regs.spec_set_r8(
                op,
                old(self).regs.spec_r8(op) & !(1u8 << ((op >> 3u8) & 7)),
            ),
            !is_mem_operand(op) && op & 0xC0 == 0xC0 ==> final(self).regs == old(self).regs.spec_set_r8(
                op,
                old(self).regs.spec_r8(op) | (1u8 << ((op >> 3u8) & 7)),
            ),
    {
        let val = self.get_r(op);
        let b = (op >> 3) & 7;
        proof { crate::bits::lemma_and_u8(op >> 3u8, 7); }
        let bit: u8 = 1u8 << b;
        if op & 0xC0 == 0x40 {
            let f = alu::bit(self.regs.af, b, val);
            self.set_af(f);
        } else if op & 0xC0 == 0x80 {
            self.set_r(op, val & !bit);
        } else {
            self.set_r(op, val | bit);
        }
    }

    /// `HALT`: stops until an interrupt is pending; with one already pending
    /// and interrupts enabled PC steps back, and with interrupts disabled
    /// the halt bug repeats the next byte.
    fn halt(&mut self)
        requires
            old(self).wf(),
        ensures
            final(self).wf(),
            old(self).ints.ie & old(self).ints.ifr & 0x1F == 0 ==> final(self).cpu_halted
                && final(self).regs == old(self).regs,
            old(self).ints.ie & old(self).ints.ifr & 0x1F != 0 && old(self).ints.ime ==> !final(self).cpu_halted
                && final(self).regs == (Regs { pc: old(self).regs.pc.wrapping_sub(1), ..old(self).regs }),
            old(self).ints.ie & old(self).ints.ifr & 0x1F != 0 && !old(self).ints.ime ==> !final(self).cpu_halted
                && final(self).halt_bug && final(self).regs == old(self).regs,
    {
        proof { self.lemma_wf_elim(); }
        if self.ints.ie & self.ints.ifr & 0x1F == 0 {
            self.cpu_halted = true;
        } else if self.ints.ime {
            self.cpu_halted = false;
            self.regs.pc = self.regs.pc.wrapping_sub(1);
        } else {
            self.cpu_halted = false;
            self.halt_bug = true;
        }
        proof { self.lemma_wf_intro(); }
    }

    /// `STOP`: switches speed when a switch was requested through KEY1,
    /// else stops the CPU.
    fn stop(&mut self)
        requires
            old(self).wf(),
        ensures
            final(self).wf(),
            final(self).regs == (Regs { pc: old(self).regs.pc.wrapping_add(1), ..old(self).regs }),
            old(self).double_speed_request ==> final(self).double_speed == !old(self).double_speed
                && !final(self).double_speed_request,
            !old(self).double_speed_request ==> final(self).cpu_halted,
    {
        self.imm8();
        proof { self.lemma_wf_elim(); }
        if self.double_speed_request {
            self.double_speed = !self.double_speed;
            self.double_speed_request = false;
            proof { self.lemma_wf_intro(); }
            let mut i: u32 = 0;
            while i < 2050
                invariant
                    self.wf(),
                    self.regs == (Regs { pc: old(self).regs.pc.wrapping_add(1), ..old(self).regs }),
                    self.double_speed == !old(self).double_speed,
                    !self.double_speed_request,
                decreases 2050 - i,
            {
                self.tick_m_cycle();
                i = i + 1;
            }
        } else {
            self.cpu_halted = true;
            proof { self.lemma_wf_intro(); }
        }
    }

    /// `DI`.
    fn di(&mut self)
        requires
            old(self).wf(),
        ensures
            final(self).wf(),
            final(self).regs == old(self).regs,
            !final(self).ints.ime,
    {
        proof { self.lemma_wf_elim(); }
        self.ints.disable();
        proof { self.lemma_wf_intro(); }
    }

    /// `EI`: interrupts are enabled after the next instruction.
    fn ei(&mut self)
        requires
            old(self).wf(),
        ensures
            final(self).wf(),
            final(self).regs == old(self).regs,
            final(self).ei_delay,
    {
        proof { self.lemma_wf_elim(); }
        self.ei_delay = true;
        proof { self.lemma_wf_intro(); }
    }

    /// `NOP`.
    fn nop(&mut self)
        ensures
            *final(self) == *old(self),
    {
    }

    /// `LD B, B`: a no-op.
    fn ld_b_b(&mut self)
        ensures
            *final(self) == *old(self),
    {
        self.nop();
    }

    /// An illegal opcode: the CPU locks up (interrupts can no longer wake
    /// it).
    fn ill(&mut self, op: u8)
        requires
            old(self).wf(),
        ensures
            final(self).wf(),
            final(self).regs == old(self).regs,
            final(self).ints.ie == 0,
            final(self).cpu_halted,
    {
        proof { self.lemma_wf_elim(); }
        self.ints.ill();
        self.cpu_halted = true;
        proof { self.lemma_wf_intro(); }
    }

    /// Executes a CB-prefixed instruction: the opcode is the next byte.
    fn exec_cb(&mut self)
        requires
            old(self).wf(),
        ensures
            final(self).wf(),
            spec_exec_cb(*old(self), *final(self)),
    {
        let op = self.imm8();
        let ghost m = *self;
        assert(spec_m_cycle(*old(self), m));
        assert(op >> 3u8 >= 8 ==> (op & 0xC0 == 0x40 || op & 0xC0 == 0x80 || op & 0xC0 == 0xC0)) by (bit_vector);
        let k = op >> 3;
        if k == 0 {
            self.rlc_r(op)
        } else if k == 1 {
            self.rrc_r(op)
        } else if k == 2 {
            self.rl_r(op)
        } else if k == 3 {
            self.rr_r(op)
        } else if k == 4 {
            self.sla_r(op)
        } else if k == 5 {
            self.sra_r(op)
        } else if k == 6 {
            self.swap_r(op)
        } else if k == 7 {
            self.srl_r(op)
        } else {
            self.bit_r(op)
        }
    }

    /// Executes opcode `op`, already fetched.
    #[verifier::rlimit(40)]
    fn exec(&mut self, op: u8)
        requires
            old(self).wf(),
        ensures
            final(self).wf(),
            spec_reg_op(old(self).regs, op) matches Some(r) ==> final(self).regs == r,
            spec_exec_more(*old(self), op, *final(self)),
    {
        match op {
            0x00 | 0x5B | 0x6D | 0x7F | 0x49 | 0x52 | 0x64 => self.nop(),
            0x01 | 0x11 | 0x21 | 0x31 => self.ld_rr_d16(op),
            0x02 | 0x12 => self.ld_drr_a(op),
            0x03 | 0x13 | 0x23 | 0x33 => self.inc_rr(op),
            0x04 | 0x14 | 0x24 | 0x3C => self.inc_hr(op),
            0x05 | 0x15 | 0x25 | 0x3D => self.dec_hr(op),
            0x06 | 0x16 | 0x26 | 0x3E => self.ld_hr_d8(op),
            0x07 => self.rlca(),
            0x08 => self.ld_da16_sp(),
            0x09 | 0x19 | 0x29 | 0x39 => self.add_hl_rr(op),
            0x0A | 0x1A => self.ld_a_drr(op),
            0x0B | 0x1B | 0x2B | 0x3B => self.dec_rr(op),
            0x0C | 0x1C | 0x2C => self.inc_lr(op),
            0x0D | 0x1D | 0x2D => self.dec_lr(op),
            0x0E | 0x1E | 0x2E => self.ld_lr_d8(op),
            0x0F => self.rrca(),
            0x10 => self.stop(),
            0x17 => self.rla(),
            0x18 => self.jr_d(),
            0x1F => self.rra(),
            0x20 | 0x28 | 0x30 | 0x38 => self.jr_cc(op),
            0x22 => self.ld_dhli_a(),
            0x27 => self.daa(),
            0x2A => self.ld_a_dhli(),
            0x2F => self.cpl(),
            0x32 => self.ld_dhld_a(),
            0x34 => self.inc_dhl(),
            0x35 => self.dec_dhl(),
            0x36 => self.ld_dhl_d8(),
            0x37 => self.scf(),
            0x3A => self.ld_a_dhld(),
            0x3F => self.ccf(),
            0x40 => self.ld_b_b(),
            0x41 | 0x42 | 0x43 | 0x44 | 0x45 | 0x46 | 0x47 | 0x4A | 0x4B | 0x4C | 0x4D | 0x4E
            | 0x4F | 0x48 | 0x50 | 0x51 | 0x53 | 0x54 | 0x55 | 0x56 | 0x57 | 0x5A | 0x5C | 0x5D
            | 0x5E | 0x5F | 0x58 | 0x59 | 0x60 | 0x61 | 0x62 | 0x63 | 0x65 | 0x66 | 0x67 | 0x6A
            | 0x6B | 0x6C | 0x6E | 0x6F | 0x68 | 0x69 | 0x7A | 0x7B | 0x7C | 0x7D | 0x7E | 0x78
            | 0x79 | 0x77 | 0x70 | 0x73 | 0x72 | 0x71 | 0x74 | 0x75 => self.ld(op),
            0x76 => self.halt(),
            0x80 | 0x81 | 0x82 | 0x83 | 0x84 | 0x85 | 0x86 | 0x87 => self.add_a_r(op),
            0x88 | 0x89 | 0x8A | 0x8B | 0x8C | 0x8D | 0x8E | 0x8F => self.adc_a_r(op),
            0x90 | 0x91 | 0x92 | 0x93 | 0x94 | 0x95 | 0x96 | 0x97 => self.sub_a_r(op),
            0x98 | 0x99 | 0x9A | 0x9B | 0x9C | 0x9D | 0x9E | 0x9F => self.sbc_a_r(op),
            0xA0 | 0xA1 | 0xA2 | 0xA3 | 0xA4 | 0xA5 | 0xA6 | 0xA7 => self.and_a_r(op),
            0xA8 | 0xA9 | 0xAA | 0xAB | 0xAC | 0xAD | 0xAE | 0xAF => self.xor_a_r(op),
            0xB0 | 0xB1 | 0xB2 | 0xB3 | 0xB4 | 0xB5 | 0xB6 | 0xB7 => self.or_a_r(op),
            0xB8 | 0xB9 | 0xBA | 0xBB | 0xBC | 0xBD | 0xBE | 0xBF => self.cp_a_r(op),
            0xC0 | 0xC8 | 0xD0 | 0xD8 => self.ret_cc(op),
            0xC1 | 0xD1 | 0xE1 | 0xF1 => self.pop_rr(op),
            0xC2 | 0xCA | 0xD2 | 0xDA => self.jp_cc(op),
            0xC3 => self.jp_a16(),
            0xC4 | 0xCC | 0xD4 | 0xDC => self.call_cc_a16(op),
            0xC5 | 0xD5 | 0xE5 | 0xF5 => self.push_rr(op),
            0xC6 => self.add_a_d8(),
            0xC7 | 0xCF | 0xD7 | 0xDF | 0xE7 | 0xEF | 0xF7 | 0xFF => self.rst(op),
            0xC9 => self.ret(),
            0xCB => self.exec_cb(),
            0xCD => self.call_nn(),
            0xCE => self.adc_a_d8(),
            0xD6 => self.sub_a_d8(),
            0xD9 => self.reti(),
            0xDE => self.sbc_a_d8(),
            0xE0 => self.ldh_da8_a(),
            0xE2 => self.ldh_dc_a(),
            0xE6 => self.and_a_d8(),
            0xE8 => self.add_sp_r8(),
            0xE9 => self.jp_hl(),
            0xEA => self.ld_da16_a(),
            0xEE => self.xor_a_d8(),
            0xF0 => self.ldh_a_da8(),
            0xF2 => self.ldh_a_dc(),
            0xF3 => self.di(),
            0xF6 => self.or_a_d8(),
            0xF8 => self.ld_hl_sp_r8(),
            0xF9 => self.ld16_sp_hl(),
            0xFA => self.ld_a_da16(),
            0xFB => self.ei(),
            0xFE => self.cp_a_d8(),
            _ => self.ill(op),
        }
    }

    /// Enters the handler of the highest priority pending interrupt (the
    /// lowest set bit of IF & IE): IME is cleared, the interrupt is
    /// acknowledged and PC is set to its vector, 0x40 + 8 * bit.
    fn enter_interrupt_handler(&mut self)
        requires
            old(self).wf(),
        ensures
            final(self).wf(),
            ({
                let p = old(self).ints.ifr & old(self).ints.ie & 0x1F;
                let b = crate::interrupts::lowest_bit(p);
                &&& p != 0 ==> final(self).regs == (Regs { pc: (0x40 + 8 * b) as u16, ..old(self).regs })
                    && final(self).ints.ifr == old(self).ints.ifr & !(1u8 << b)
                &&& p == 0 ==> final(self).regs == (Regs { pc: 0x40, ..old(self).regs })
                    && final(self).ints.ifr == old(self).ints.ifr
            }),
            !final(self).ints.ime,
            final(self).ints.ie == old(self).ints.ie,
    {
        proof { self.lemma_wf_elim(); }
        self.ints.ime = false;
        let ints = self.ints.ifr & self.ints.ie & 0x1F;
        let tz = interrupt_index(ints);
        let ack: u8 = if ints != 0 { 1u8 << tz } else { 0 };
        let v: u16 = 0x40 | ((tz as u16) << 3);
        proof {
            let t = tz;
            let f = self.ints.ifr;
            assert(t < 8 ==> (0x40u16 | ((t as u16) << 3u16)) == 0x40 + 8 * t && f & !0u8 == f) by (bit_vector);
        }
        self.regs.pc = v;
        self.ints.ifr = self.ints.ifr & !ack;
        proof { self.lemma_wf_intro(); }
    }

    /// Runs one step of the CPU: a pending `EI` takes effect; a halted CPU
    /// waits one m-cycle, else one instruction is fetched (VRAM DMA runs
    /// after the fetch) and executed. Then a pending enabled interrupt wakes
    /// the CPU and, with interrupts enabled, is dispatched: PC is pushed and
    /// the lowest pending interrupt's vector (0x40 + 8 * bit) is entered.
    pub fn run_cpu(&mut self)
        requires
            old(self).wf(),
        ensures
            final(self).wf(),
            spec_run_cpu(*old(self), *final(self)),
    {
        let ghost g = *self;
        self.cpu_step();
        let ghost s = *self;
        self.dispatch_interrupts();
        proof {
            let (m, op) = choose|m: Gb, op: u8| spec_cpu_step(g, m, op, s);
            assert(spec_cpu_step(g, m, op, s) && spec_dispatch(s, *self));
        }
    }

    /// The part of a CPU step before the interrupt check: a pending `EI`
    /// takes effect, then a halted CPU waits one m-cycle and a running one
    /// fetches and executes an instruction.
    fn cpu_step(&mut self)
        requires
            old(self).wf(),
        ensures
            final(self).wf(),
            exists|m: Gb, op: u8| #![trigger spec_cpu_step(*old(self), m, op, *final(self))]
                spec_cpu_step(*old(self), m, op, *final(self)),
    {
        let ghost g = *self;
        if self.ei_delay {
            self.ints.enable();
            self.ei_delay = false;
            proof { Gb::lemma_wf_frame(g, *self); }
        }
        let ghost g1 = *self;
        assert(g1 == spec_after_ei(g));
        let ghost mut m = g1;
        let ghost mut opg: u8 = 0;
        if self.cpu_halted {
            self.tick_m_cycle();
        } else {
            let op = self.imm8();
            proof {
                m = *self;
                opg = op;
            }
            self.run_hdma();
            if self.halt_bug {
                let pc = self.regs.pc.wrapping_sub(1);
                self.set_pc(pc);
                let ghost h = *self;
                self.halt_bug = false;
                proof { Gb::lemma_wf_frame(h, *self); }
            }
            let ghost e = *self;
            self.exec(op);
            assert(spec_exec_more(e, op, *self));
        }
        assert(spec_cpu_step(g, m, opg, *self));
    }

    /// Interrupt dispatch: with an enabled interrupt pending the CPU leaves
    /// HALT and, when IME is set, pushes PC and enters the handler.
    fn dispatch_interrupts(&mut self)
        requires
            old(self).wf(),
        ensures
            final(self).wf(),
            spec_dispatch(*old(self), *final(self)),
    {
        if self.ints.ifr & self.ints.ie & 0x1F != 0 {
            let ghost s = *self;
            self.cpu_halted = false;
            proof { Gb::lemma_wf_frame(s, *self); }
            if self.ints.ime {
                let ghost s0 = *self;
                self.tick_m_cycle();
                let ghost t1 = *self;
                self.tick_m_cycle();
                let ghost t2 = *self;
                let pc = self.regs.pc;
                self.push(pc);
                let ghost before = *self;
                self.enter_interrupt_handler();
                proof {
                    assert(s0 == Gb { cpu_halted: false, ..s });
                    assert(spec_m_cycle(t1, t2) && spec_push(t2, before, s.regs.pc));
                    let p = before.ints.ifr & before.ints.ie & 0x1F;
                    crate::bits::lemma_and_u8(before.ints.ifr & before.ints.ie, 0x1F);
                    if p != 0 {
                        crate::interrupts::law_lowest_pending_interrupt_first(p);
                    }
                }
            }
        }
    }
}

/// The bit of the highest priority pending interrupt (the lowest set bit),
/// 0 when none is.
fn interrupt_index(ints: u8) -> (r: u8)
    ensures
        r < 8,
        ints != 0 ==> r == crate::interrupts::lowest_bit(ints),
        ints == 0 ==> r == 0,
{
    proof { crate::interrupts::lemma_trailing_zeros_is_lowest_bit(ints); }
    let z = ints.trailing_zeros();
    let t = z & 7;
    assert(t <= 7 && (z <= 7 ==> t == z) && (z == 8 ==> t == 0)) by (bit_vector) requires t == z & 7u32;
    t as u8
}

/// The register pair an opcode names in bits 4 and 5, plus one.
fn pair_id(op: u8) -> (r: u8)
    ensures
        r == ((op >> 4u8) + 1) as u8,
        1 <= r <= 16,
{
    proof { crate::bits::lemma_shr_u8(op); }
    (op >> 4) + 1
}

/// The high byte set to `v`, the low byte of `w`.
fn with_high_exec(w: u16, v: u8) -> (r: u16)
    ensures
        r == with_high(w, v),
        af_wf(w) ==> af_wf(r),
{
    let r = ((v as u16) << 8) | (w & 0xFF);
    proof { crate::bits::lemma_af_low_nibble(w, 0, v); }
    r
}

/// The low byte set to `v`, the high byte of `w`.
fn with_low_exec(w: u16, v: u8) -> (r: u16)
    ensures
        r == with_low(w, v),
{
    (w & 0xFF00) | (v as u16)
}

} // verus!

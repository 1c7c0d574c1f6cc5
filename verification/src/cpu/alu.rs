//! The arithmetic and logic of the SM83 CPU on plain values.
//!
//! `af` holds the accumulator in its high byte and the flags in its low
//! byte: zero (0x80), subtract (0x40), half carry (0x20) and carry (0x10);
//! the low four bits are always zero.
use vstd::prelude::*;

verus! {

pub const ZF_B: u16 = 0x80;
pub const NF_B: u16 = 0x40;
pub const HF_B: u16 = 0x20;
pub const CF_B: u16 = 0x10;

/// The accumulator.
pub open spec fn a_of(af: u16) -> int {
    af as int / 256
}

/// The zero flag.
pub open spec fn z_of(af: u16) -> bool {
    (af as int / 128) % 2 == 1
}

/// The subtract flag.
pub open spec fn n_of(af: u16) -> bool {
    (af as int / 64) % 2 == 1
}

/// The half carry flag.
pub open spec fn h_of(af: u16) -> bool {
    (af as int / 32) % 2 == 1
}

/// The carry flag.
pub open spec fn c_of(af: u16) -> bool {
    (af as int / 16) % 2 == 1
}

/// The carry flag as a number.
pub open spec fn cy(af: u16) -> int {
    if c_of(af) { 1 } else { 0 }
}

/// The register pair with accumulator `a` and the given flags.
pub open spec fn pack(a: int, z: bool, n: bool, h: bool, c: bool) -> u16 {
    (a * 256 + (if z { 0x80int } else { 0 }) + (if n { 0x40int } else { 0 }) + (if h { 0x20int } else { 0 })
        + (if c { 0x10int } else { 0 })) as u16
}

/// The flag register's unused low bits are zero.
pub open spec fn af_wf(af: u16) -> bool {
    af % 16 == 0
}

/// `ADD A, v`.
pub open spec fn spec_add(af: u16, v: u8) -> u16 {
    let a = a_of(af);
    let r = a + v;
    pack(r % 256, r % 256 == 0, false, a % 16 + v % 16 > 15, r > 255)
}

/// `ADC A, v`: adds the carry too.
pub open spec fn spec_adc(af: u16, v: u8) -> u16 {
    let a = a_of(af);
    let r = a + v + cy(af);
    pack(r % 256, r % 256 == 0, false, a % 16 + v % 16 + cy(af) > 15, r > 255)
}

/// `SUB A, v`.
pub open spec fn spec_sub(af: u16, v: u8) -> u16 {
    let a = a_of(af);
    let r = a - v;
    pack(r % 256, r == 0, true, a % 16 < v % 16, r < 0)
}

/// `SBC A, v`: subtracts the carry too.
pub open spec fn spec_sbc(af: u16, v: u8) -> u16 {
    let a = a_of(af);
    let r = a - v - cy(af);
    pack(r % 256, r % 256 == 0, true, a % 16 < v % 16 + cy(af), r < 0)
}

/// `AND A, v`.
pub open spec fn spec_and(af: u16, v: u8) -> u16 {
    let r = (a_of(af) as u8) & v;
    pack(r as int, r == 0, false, true, false)
}

/// `OR A, v`.
pub open spec fn spec_or(af: u16, v: u8) -> u16 {
    let r = (a_of(af) as u8) | v;
    pack(r as int, r == 0, false, false, false)
}

/// `XOR A, v`.
pub open spec fn spec_xor(af: u16, v: u8) -> u16 {
    let r = (a_of(af) as u8) ^ v;
    pack(r as int, r == 0, false, false, false)
}

/// `CP A, v`: the flags of `SUB`, the accumulator unchanged.
pub open spec fn spec_cp(af: u16, v: u8) -> u16 {
    let a = a_of(af);
    pack(a, a == v, true, a % 16 < v % 16, a < v)
}

/// The byte `v + 1` and the flags of `INC`: carry kept.
pub open spec fn spec_inc8(af: u16, v: u8) -> (u8, u16) {
    let r = (v + 1) % 256;
    (r as u8, pack(a_of(af), r == 0, false, r % 16 == 0, c_of(af)))
}

/// The byte `v - 1` and the flags of `DEC`: carry kept.
pub open spec fn spec_dec8(af: u16, v: u8) -> (u8, u16) {
    let r = (v - 1) % 256;
    (r as u8, pack(a_of(af), r == 0, true, r % 16 == 15, c_of(af)))
}

/// `RLCA`: rotate the accumulator left; bit 7 goes to the carry and bit 0.
pub open spec fn spec_rlca(af: u16) -> u16 {
    let a = a_of(af);
    pack((a * 2) % 256 + a / 128, false, false, false, a >= 128)
}

/// `RRCA`: rotate the accumulator right; bit 0 goes to the carry and bit 7.
pub open spec fn spec_rrca(af: u16) -> u16 {
    let a = a_of(af);
    pack(a / 2 + (a % 2) * 128, false, false, false, a % 2 == 1)
}

/// `RLA`: rotate the accumulator left through the carry.
pub open spec fn spec_rla(af: u16) -> u16 {
    let a = a_of(af);
    pack((a * 2) % 256 + cy(af), false, false, false, a >= 128)
}

/// `RRA`: rotate the accumulator right through the carry.
pub open spec fn spec_rra(af: u16) -> u16 {
    let a = a_of(af);
    pack(a / 2 + cy(af) * 128, false, false, false, a % 2 == 1)
}

/// `CPL`: complement the accumulator.
pub open spec fn spec_cpl(af: u16) -> u16 {
    pack(255 - a_of(af), z_of(af), true, true, c_of(af))
}

/// `CCF`: complement the carry.
pub open spec fn spec_ccf(af: u16) -> u16 {
    pack(a_of(af), z_of(af), false, false, !c_of(af))
}

/// `SCF`: set the carry.
pub open spec fn spec_scf(af: u16) -> u16 {
    pack(a_of(af), z_of(af), false, false, true)
}

/// `DAA`: adjust the accumulator to binary coded decimal after an addition
/// or a subtraction.
pub open spec fn spec_daa(af: u16) -> u16 {
    let a = a_of(af);
    if !n_of(af) {
        let r1 = if h_of(af) || a % 16 > 9 { a + 6 } else { a };
        let r2 = if c_of(af) || r1 > 0x9F { r1 + 0x60 } else { r1 };
        pack(r2 % 256, r2 % 256 == 0, false, false, c_of(af) || r2 >= 256)
    } else {
        let r1 = if h_of(af) { (a - 6) % 256 } else { a };
        let r2 = if c_of(af) { r1 - 0x60 } else { r1 };
        pack(r2 % 256, r2 % 256 == 0, true, false, c_of(af))
    }
}

/// `ADD HL, rr`: the sum and the flags; zero kept.
pub open spec fn spec_add_hl(af: u16, hl: u16, rr: u16) -> (u16, u16) {
    let s = hl + rr;
    ((s % 0x10000) as u16, pack(a_of(af), z_of(af), false, hl % 0x1000 + rr % 0x1000 >= 0x1000, s > 0xFFFF))
}

/// The sign extension of an offset byte.
pub open spec fn sext(off: u8) -> int {
    if off >= 128 { off - 256 } else { off as int }
}

/// `ADD SP, e` and `LD HL, SP+e`: the sum and the flags, which come from
/// the low byte's addition.
pub open spec fn spec_add_sp(af: u16, sp: u16, off: u8) -> (u16, u16) {
    (((sp + sext(off)) % 0x10000) as u16, pack(a_of(af), false, false, sp % 16 + off % 16 > 15, sp % 256 + off > 255))
}

/// Which of the CB-prefixed rotations and shifts an opcode names (bits 3
/// to 5 of an opcode below 0x40).
pub open spec fn spec_cb_shift(kind: u8, af: u16, v: u8) -> (u8, u16) {
    let a = a_of(af);
    let v = v as int;
    let (r, c): (int, bool) = if kind == 0 {
        ((v * 2) % 256 + v / 128, v >= 128)
    } else if kind == 1 {
        (v / 2 + (v % 2) * 128, v % 2 == 1)
    } else if kind == 2 {
        ((v * 2) % 256 + cy(af), v >= 128)
    } else if kind == 3 {
        (v / 2 + cy(af) * 128, v % 2 == 1)
    } else if kind == 4 {
        ((v * 2) % 256, v >= 128)
    } else if kind == 5 {
        (v / 2 + (v / 128) * 128, v % 2 == 1)
    } else if kind == 6 {
        ((v % 16) * 16 + v / 16, false)
    } else {
        (v / 2, v % 2 == 1)
    };
    (r as u8, pack(a, r == 0, false, false, c))
}

/// Whether bit `b` of `v` is set.
pub open spec fn bit_of(v: u8, b: u8) -> bool {
    (v >> b) & 1 == 1
}

/// `BIT b, v`: the zero flag tells whether the bit is clear; carry kept.
pub open spec fn spec_bit(af: u16, b: u8, v: u8) -> u16 {
    pack(a_of(af), !bit_of(v, b), false, true, c_of(af))
}

/// The condition of a conditional jump, call or return (bits 3 and 4 of
/// the opcode): not zero, zero, not carry, carry.
pub open spec fn spec_condition(af: u16, op: u8) -> bool {
    let k = (op >> 3u8) & 3;
    if k == 0 { !z_of(af) } else if k == 1 { z_of(af) } else if k == 2 { !c_of(af) } else { c_of(af) }
}

/// The register pair with accumulator `a` and the given flags.
pub fn pack_af(a: u16, z: bool, n: bool, h: bool, c: bool) -> (r: u16)
    requires
        a < 256,
    ensures
        r == pack(a as int, z, n, h, c),
        af_wf(r),
        a_of(r) == a,
        z_of(r) == z,
        n_of(r) == n,
        h_of(r) == h,
        c_of(r) == c,
{
    let mut f: u16 = 0;
    if z {
        f = f + 0x80;
    }
    if n {
        f = f + 0x40;
    }
    if h {
        f = f + 0x20;
    }
    if c {
        f = f + 0x10;
    }
    a * 256 + f
}

/// The accumulator.
pub fn acc(af: u16) -> (r: u16)
    ensures
        r == a_of(af),
        r < 256,
{
    af / 256
}

/// The carry flag as a number.
pub fn carry(af: u16) -> (r: u16)
    ensures
        r == cy(af),
{
    if (af / 16) % 2 == 1 { 1 } else { 0 }
}

fn zero_flag(af: u16) -> (r: bool)
    ensures
        r == z_of(af),
{
    (af / 128) % 2 == 1
}

fn sub_flag(af: u16) -> (r: bool)
    ensures
        r == n_of(af),
{
    (af / 64) % 2 == 1
}

fn half_flag(af: u16) -> (r: bool)
    ensures
        r == h_of(af),
{
    (af / 32) % 2 == 1
}

/// The carry flag.
pub fn carry_flag(af: u16) -> (r: bool)
    ensures
        r == c_of(af),
{
    (af / 16) % 2 == 1
}

pub fn add(af: u16, v: u8) -> (r: u16)
    ensures
        r == spec_add(af, v),
        af_wf(r),
{
    let a = acc(af);
    let v = v as u16;
    let r = a + v;
    pack_af(r % 256, r % 256 == 0, false, a % 16 + v % 16 > 15, r > 255)
}

pub fn adc(af: u16, v: u8) -> (r: u16)
    ensures
        r == spec_adc(af, v),
        af_wf(r),
{
    let a = acc(af);
    let c = carry(af);
    let v = v as u16;
    let r = a + v + c;
    pack_af(r % 256, r % 256 == 0, false, a % 16 + v % 16 + c > 15, r > 255)
}

pub fn sub(af: u16, v: u8) -> (r: u16)
    ensures
        r == spec_sub(af, v),
        af_wf(r),
{
    let a = acc(af);
    let v = v as u16;
    let d = if a >= v { a - v } else { a + 256 - v };
    assert(d == (a - v) % 256);
    pack_af(d, a == v, true, a % 16 < v % 16, a < v)
}

pub fn sbc(af: u16, v: u8) -> (r: u16)
    ensures
        r == spec_sbc(af, v),
        af_wf(r),
{
    let a = acc(af);
    let c = carry(af);
    let v = v as u16;
    let d = if a >= v + c { a - v - c } else { a + 256 - v - c };
    assert(d == (a - v - c) % 256);
    pack_af(d, d == 0, true, a % 16 < v % 16 + c, a < v + c)
}

pub fn and(af: u16, v: u8) -> (r: u16)
    ensures
        r == spec_and(af, v),
        af_wf(r),
{
    let a = acc(af) as u8;
    let x = a & v;
    pack_af(x as u16, x == 0, false, true, false)
}

pub fn or(af: u16, v: u8) -> (r: u16)
    ensures
        r == spec_or(af, v),
        af_wf(r),
{
    let a = acc(af) as u8;
    let x = a | v;
    pack_af(x as u16, x == 0, false, false, false)
}

pub fn xor(af: u16, v: u8) -> (r: u16)
    ensures
        r == spec_xor(af, v),
        af_wf(r),
{
    let a = acc(af) as u8;
    let x = a ^ v;
    pack_af(x as u16, x == 0, false, false, false)
}

pub fn cp(af: u16, v: u8) -> (r: u16)
    ensures
        r == spec_cp(af, v),
        af_wf(r),
{
    let a = acc(af);
    let v = v as u16;
    pack_af(a, a == v, true, a % 16 < v % 16, a < v)
}

pub fn inc8(af: u16, v: u8) -> (r: (u8, u16))
    ensures
        r == spec_inc8(af, v),
        af_wf(r.1),
{
    let x = v.wrapping_add(1);
    (x, pack_af(acc(af), x == 0, false, x % 16 == 0, carry_flag(af)))
}

pub fn dec8(af: u16, v: u8) -> (r: (u8, u16))
    ensures
        r == spec_dec8(af, v),
        af_wf(r.1),
{
    let x = v.wrapping_sub(1);
    (x, pack_af(acc(af), x == 0, true, x % 16 == 15, carry_flag(af)))
}

pub fn rlca(af: u16) -> (r: u16)
    ensures
        r == spec_rlca(af),
        af_wf(r),
{
    let a = acc(af);
    pack_af((a * 2) % 256 + a / 128, false, false, false, a >= 128)
}

pub fn rrca(af: u16) -> (r: u16)
    ensures
        r == spec_rrca(af),
        af_wf(r),
{
    let a = acc(af);
    pack_af(a / 2 + (a % 2) * 128, false, false, false, a % 2 == 1)
}

pub fn rla(af: u16) -> (r: u16)
    ensures
        r == spec_rla(af),
        af_wf(r),
{
    let a = acc(af);
    pack_af((a * 2) % 256 + carry(af), false, false, false, a >= 128)
}

pub fn rra(af: u16) -> (r: u16)
    ensures
        r == spec_rra(af),
        af_wf(r),
{
    let a = acc(af);
    pack_af(a / 2 + carry(af) * 128, false, false, false, a % 2 == 1)
}

pub fn cpl(af: u16) -> (r: u16)
    ensures
        r == spec_cpl(af),
        af_wf(r),
{
    pack_af(255 - acc(af), zero_flag(af), true, true, carry_flag(af))
}

pub fn ccf(af: u16) -> (r: u16)
    ensures
        r == spec_ccf(af),
        af_wf(r),
{
    pack_af(acc(af), zero_flag(af), false, false, !carry_flag(af))
}

pub fn scf(af: u16) -> (r: u16)
    ensures
        r == spec_scf(af),
        af_wf(r),
{
    pack_af(acc(af), zero_flag(af), false, false, true)
}

pub fn daa(af: u16) -> (r: u16)
    ensures
        r == spec_daa(af),
        af_wf(r),
{
    let a = acc(af);
    let h = half_flag(af);
    let c = carry_flag(af);
    if !sub_flag(af) {
        let r1 = if h || a % 16 > 9 { a + 6 } else { a };
        let r2 = if c || r1 > 0x9F { r1 + 0x60 } else { r1 };
        pack_af(r2 % 256, r2 % 256 == 0, false, false, c || r2 >= 256)
    } else {
        let r1 = if h { if a >= 6 { a - 6 } else { a + 250 } } else { a };
        let r2 = if c { if r1 >= 0x60 { r1 - 0x60 } else { r1 + 0xA0 } } else { r1 };
        pack_af(r2, r2 == 0, true, false, c)
    }
}

pub fn add_hl(af: u16, hl: u16, rr: u16) -> (r: (u16, u16))
    ensures
        r == spec_add_hl(af, hl, rr),
        af_wf(r.1),
{
    let s = hl as u32 + rr as u32;
    let h = hl % 0x1000 + rr % 0x1000 >= 0x1000;
    ((s % 0x10000) as u16, pack_af(acc(af), zero_flag(af), false, h, s > 0xFFFF))
}

pub fn add_sp(af: u16, sp: u16, off: u8) -> (r: (u16, u16))
    ensures
        r == spec_add_sp(af, sp, off),
        af_wf(r.1),
{
    let o = off as u16;
    let sum: u16 = if off >= 128 {
        if sp >= 256 - o { sp - (256 - o) } else { sp + (0xFF00 + o) }
    } else {
        if sp <= 0xFFFF - o { sp + o } else { sp - (0x10000 - o as u32) as u16 }
    };
    assert(sum == (sp + sext(off)) % 0x10000);
    (sum, pack_af(acc(af), false, false, sp % 16 + o % 16 > 15, sp % 256 + o > 255))
}

/// The CB-prefixed rotations and shifts: `kind` is bits 3 to 5 of the
/// opcode (RLC, RRC, RL, RR, SLA, SRA, SWAP, SRL).
pub fn cb_shift(kind: u8, af: u16, v: u8) -> (r: (u8, u16))
    requires
        kind < 8,
    ensures
        r == spec_cb_shift(kind, af, v),
        af_wf(r.1),
{
    let x = v as u16;
    let (res, c): (u16, bool) = if kind == 0 {
        ((x * 2) % 256 + x / 128, x >= 128)
    } else if kind == 1 {
        (x / 2 + (x % 2) * 128, x % 2 == 1)
    } else if kind == 2 {
        ((x * 2) % 256 + carry(af), x >= 128)
    } else if kind == 3 {
        (x / 2 + carry(af) * 128, x % 2 == 1)
    } else if kind == 4 {
        ((x * 2) % 256, x >= 128)
    } else if kind == 5 {
        (x / 2 + (x / 128) * 128, x % 2 == 1)
    } else if kind == 6 {
        ((x % 16) * 16 + x / 16, false)
    } else {
        (x / 2, x % 2 == 1)
    };
    (res as u8, pack_af(acc(af), res == 0, false, false, c))
}

/// `BIT b, v`.
pub fn bit(af: u16, b: u8, v: u8) -> (r: u16)
    requires
        b < 8,
    ensures
        r == spec_bit(af, b, v),
        af_wf(r),
{
    pack_af(acc(af), (v >> b) & 1 != 1, false, true, carry_flag(af))
}

/// The condition of a conditional jump, call or return.
pub fn condition(af: u16, op: u8) -> (r: bool)
    ensures
        r == spec_condition(af, op),
{
    let k = (op >> 3) & 3;
    if k == 0 {
        !zero_flag(af)
    } else if k == 1 {
        zero_flag(af)
    } else if k == 2 {
        !carry_flag(af)
    } else {
        carry_flag(af)
    }
}

/// `CP` sets exactly the flags `SUB` sets, and leaves the accumulator.
pub proof fn law_cp_is_sub_without_result(af: u16, v: u8)
    ensures
        spec_cp(af, v) % 256 == spec_sub(af, v) % 256,
        a_of(spec_cp(af, v)) == a_of(af),
{
}

/// `XOR A, A` clears the accumulator and sets only the zero flag.
pub proof fn law_xor_self_clears(af: u16)
    requires
        af_wf(af),
    ensures
        spec_xor(af, a_of(af) as u8) == ZF_B,
{
    let a = a_of(af) as u8;
    assert(a ^ a == 0) by (bit_vector);
}

/// Swapping nibbles twice gives the byte back.
pub proof fn law_swap_twice(af: u16, v: u8)
    ensures
        spec_cb_shift(6, spec_cb_shift(6, af, v).1, spec_cb_shift(6, af, v).0).0 == v,
{
}

/// Rotating left then right (without or through the carry) gives the byte
/// and the carry back.
pub proof fn law_rotate_left_then_right(af: u16, v: u8)
    requires
        af_wf(af),
    ensures
        spec_cb_shift(1, spec_cb_shift(0, af, v).1, spec_cb_shift(0, af, v).0).0 == v,
        spec_cb_shift(3, spec_cb_shift(2, af, v).1, spec_cb_shift(2, af, v).0).0 == v,
        c_of(spec_cb_shift(3, spec_cb_shift(2, af, v).1, spec_cb_shift(2, af, v).0).1) == c_of(af),
{
}

/// The accumulator of a packed register pair is the one packed.
proof fn lemma_a_of_pack(a: int, z: bool, n: bool, h: bool, c: bool)
    requires
        0 <= a < 256,
    ensures
        a_of(pack(a, z, n, h, c)) == a,
{
}

/// Adding then subtracting the same byte gives the accumulator back.
pub proof fn law_add_then_sub(af: u16, v: u8)
    ensures
        a_of(spec_sub(spec_add(af, v), v)) == a_of(af),
{
    let a = a_of(af);
    let r = a + v;
    lemma_a_of_pack(r % 256, r % 256 == 0, false, a % 16 + v % 16 > 15, r > 255);
    let s = spec_add(af, v);
    assert(a_of(s) == r % 256);
    let d = a_of(s) - v;
    assert(d % 256 == a) by {
        if r > 255 {
            assert(r % 256 == r - 256);
        } else {
            assert(r % 256 == r);
        }
    }
    lemma_a_of_pack(d % 256, d == 0, true, a_of(s) % 16 < v % 16, d < 0);
}

/// The carry of `ADD` tells whether the true sum is over 255, that of
/// `SUB` and `CP` whether the true difference is negative.
pub proof fn law_carry_is_overflow(af: u16, v: u8)
    ensures
        c_of(spec_add(af, v)) == (a_of(af) + v > 255),
        c_of(spec_sub(af, v)) == (a_of(af) < v),
        c_of(spec_cp(af, v)) == (a_of(af) < v),
        z_of(spec_sub(af, v)) == (a_of(af) == v),
{
}

} // verus!

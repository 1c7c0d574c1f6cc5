//! The SM83 CPU: registers and instruction execution.
use vstd::prelude::*;
use crate::cpu::alu::af_wf;

pub mod alu;
pub mod exec;
pub mod names;

verus! {

/// The register pairs: AF, BC, DE, HL, the stack pointer and the program
/// counter.
#[derive(Clone, Copy, PartialEq, Eq, Structural, Debug)]
pub struct Regs {
    pub af: u16,
    pub bc: u16,
    pub de: u16,
    pub hl: u16,
    pub sp: u16,
    pub pc: u16,
}

impl Regs {
    /// The low four bits of F are zero.
    pub open spec fn wf(&self) -> bool {
        af_wf(self.af)
    }

    /// Register pair `id`: AF, BC, DE, HL, SP.
    pub open spec fn spec_rr(&self, id: u8) -> u16 {
        if id == 0 {
            self.af
        } else if id == 1 {
            self.bc
        } else if id == 2 {
            self.de
        } else if id == 3 {
            self.hl
        } else {
            self.sp
        }
    }

    /// The registers with pair `id` set to `v`.
    pub open spec fn spec_set_rr(self, id: u8, v: u16) -> Regs {
        if id == 0 {
            Regs { af: v, ..self }
        } else if id == 1 {
            Regs { bc: v, ..self }
        } else if id == 2 {
            Regs { de: v, ..self }
        } else if id == 3 {
            Regs { hl: v, ..self }
        } else {
            Regs { sp: v, ..self }
        }
    }

    /// 8-bit register `i` of an opcode's register field (0 to 7 but 6, which
    /// names the byte at HL): B, C, D, E, H, L, -, A.
    pub open spec fn spec_r8(&self, i: u8) -> u8 {
        let id = (((i >> 1u8) + 1) as u8) & 3;
        if id == 0 {
            (self.af >> 8u16) as u8
        } else if i & 1 != 0 {
            (self.spec_rr(id) & 0xFF) as u8
        } else {
            (self.spec_rr(id) >> 8u16) as u8
        }
    }

    /// The registers with 8-bit register `i` set to `v`.
    pub open spec fn spec_set_r8(self, i: u8, v: u8) -> Regs {
        let id = (((i >> 1u8) + 1) as u8) & 3;
        let old = self.spec_rr(id);
        if id == 0 {
            Regs { af: ((v as u16) << 8u16) | (self.af & 0xFF), ..self }
        } else if i & 1 != 0 {
            self.spec_set_rr(id, (v as u16) | (old & 0xFF00))
        } else {
            self.spec_set_rr(id, ((v as u16) << 8u16) | (old & 0xFF))
        }
    }

    /// All registers zero.
    pub fn new() -> (r: Self)
        ensures
            r.wf(),
            r == (Regs { af: 0, bc: 0, de: 0, hl: 0, sp: 0, pc: 0 }),
    {
        Regs { af: 0, bc: 0, de: 0, hl: 0, sp: 0, pc: 0 }
    }

    /// Register pair `id`: AF, BC, DE, HL, SP.
    pub fn rr(&self, id: u8) -> (r: u16)
        ensures
            r == self.spec_rr(id),
    {
        if id == 0 {
            self.af
        } else if id == 1 {
            self.bc
        } else if id == 2 {
            self.de
        } else if id == 3 {
            self.hl
        } else {
            self.sp
        }
    }

    /// Sets register pair `id`; AF keeps the low four bits of F zero.
    pub fn set_rr(&mut self, id: u8, v: u16)
        requires
            old(self).wf(),
        ensures
            final(self).wf(),
            *final(self) == old(self).spec_set_rr(id, if id == 0 { v & 0xFFF0 } else { v }),
    {
        if id == 0 {
            let w = v & 0xFFF0;
            proof { crate::bits::lemma_af_low_nibble(v, 0, 0); }
            self.af = w;
        } else if id == 1 {
            self.bc = v;
        } else if id == 2 {
            self.de = v;
        } else if id == 3 {
            self.hl = v;
        } else {
            self.sp = v;
        }
    }

    /// 8-bit register `i` (not 6).
    pub fn r8(&self, i: u8) -> (r: u8)
        ensures
            r == self.spec_r8(i),
    {
        proof { crate::bits::lemma_shr_u8(i); }
        let id = ((i >> 1) + 1) & 3;
        if id == 0 {
            (self.af >> 8) as u8
        } else if i & 1 != 0 {
            (self.rr(id) & 0xFF) as u8
        } else {
            (self.rr(id) >> 8) as u8
        }
    }

    /// Sets 8-bit register `i` (not 6).
    pub fn set_r8(&mut self, i: u8, v: u8)
        requires
            old(self).wf(),
        ensures
            final(self).wf(),
            *final(self) == old(self).spec_set_r8(i, v),
    {
        proof { crate::bits::lemma_shr_u8(i); }
        let id = ((i >> 1) + 1) & 3;
        proof { crate::bits::lemma_and_u8(((i >> 1u8) + 1) as u8, 3); }
        let old = self.rr(id);
        if id == 0 {
            let af = self.af;
            let w = ((v as u16) << 8) | (af & 0xFF);
            proof { crate::bits::lemma_af_low_nibble(af, 0, v); }
            self.af = w;
        } else if i & 1 != 0 {
            self.set_rr(id, (v as u16) | (old & 0xFF00));
        } else {
            self.set_rr(id, ((v as u16) << 8) | (old & 0xFF));
        }
    }
}

} // verus!

//! Assembly names of registers, operands and conditions, for tracing.
use vstd::prelude::*;

verus! {

/// The name of register pair `id` (0 to 4).
pub fn regid2regname(id: u8) -> (r: &'static str)
    requires
        id <= 4,
    ensures
        id == 0 ==> r@ == "AF"@,
        id == 1 ==> r@ == "BC"@,
        id == 2 ==> r@ == "DE"@,
        id == 3 ==> r@ == "HL"@,
        id == 4 ==> r@ == "SP"@,
{
    if id == 0 {
        "AF"
    } else if id == 1 {
        "BC"
    } else if id == 2 {
        "DE"
    } else if id == 3 {
        "HL"
    } else {
        "SP"
    }
}

/// The name of the high byte of register pair `id` (0 to 3).
pub fn regid2reghighname(id: u8) -> (r: &'static str)
    requires
        id <= 3,
    ensures
        id == 0 ==> r@ == "A"@,
        id == 1 ==> r@ == "B"@,
        id == 2 ==> r@ == "D"@,
        id == 3 ==> r@ == "H"@,
{
    if id == 0 {
        "A"
    } else if id == 1 {
        "B"
    } else if id == 2 {
        "D"
    } else {
        "H"
    }
}

/// The name of the low byte of register pair `id` (1 to 3).
pub fn regid2reglowname(id: u8) -> (r: &'static str)
    requires
        1 <= id <= 3,
    ensures
        id == 1 ==> r@ == "C"@,
        id == 2 ==> r@ == "E"@,
        id == 3 ==> r@ == "L"@,
{
    if id == 1 {
        "C"
    } else if id == 2 {
        "E"
    } else {
        "L"
    }
}

/// The name of the operand an opcode's low three bits name: B, C, D, E, H,
/// L, (HL), A.
pub fn get_src_name(opcode: u8) -> (r: &'static str)
    ensures
        opcode & 7 == 0 ==> r@ == "B"@,
        opcode & 7 == 1 ==> r@ == "C"@,
        opcode & 7 == 2 ==> r@ == "D"@,
        opcode & 7 == 3 ==> r@ == "E"@,
        opcode & 7 == 4 ==> r@ == "H"@,
        opcode & 7 == 5 ==> r@ == "L"@,
        opcode & 7 == 6 ==> r@ == "(HL)"@,
        opcode & 7 == 7 ==> r@ == "A"@,
{
    proof {
        crate::bits::lemma_shr_u8(opcode);
        crate::bits::lemma_and_u8(((opcode >> 1u8) + 1) as u8, 3);
        lemma_operand_fields(opcode);
    }
    let reg_id = ((opcode >> 1) + 1) & 3;
    let lo = opcode & 1 != 0;
    if reg_id == 0 {
        if lo {
            return "A";
        }
        return "(HL)";
    }
    if lo {
        return regid2reglowname(reg_id);
    }
    regid2reghighname(reg_id)
}

/// The name of the condition in bits 3 and 4 of an opcode.
pub fn get_condition_name(opcode: u8) -> (r: &'static str)
    ensures
        (opcode >> 3u8) & 3 == 0 ==> r@ == "NZ"@,
        (opcode >> 3u8) & 3 == 1 ==> r@ == "Z"@,
        (opcode >> 3u8) & 3 == 2 ==> r@ == "NC"@,
        (opcode >> 3u8) & 3 == 3 ==> r@ == "C"@,
{
    let k = (opcode >> 3) & 3;
    if k == 0 {
        "NZ"
    } else if k == 1 {
        "Z"
    } else if k == 2 {
        "NC"
    } else {
        "C"
    }
}

/// How the low three bits of an opcode split into a register pair and a
/// half.
proof fn lemma_operand_fields(op: u8)
    ensures
        ({
            let id = (((op >> 1u8) + 1) as u8) & 3;
            let lo = op & 1 != 0;
            &&& op & 7 == 0 ==> id == 1 && !lo
            &&& op & 7 == 1 ==> id == 1 && lo
            &&& op & 7 == 2 ==> id == 2 && !lo
            &&& op & 7 == 3 ==> id == 2 && lo
            &&& op & 7 == 4 ==> id == 3 && !lo
            &&& op & 7 == 5 ==> id == 3 && lo
            &&& op & 7 == 6 ==> id == 0 && !lo
            &&& op & 7 == 7 ==> id == 0 && lo
        }),
{
    assert({
        let id = (((op >> 1u8) + 1) as u8) & 3;
        let lo = op & 1 != 0;
        &&& op & 7 == 0 ==> id == 1 && !lo
        &&& op & 7 == 1 ==> id == 1 && lo
        &&& op & 7 == 2 ==> id == 2 && !lo
        &&& op & 7 == 3 ==> id == 2 && lo
        &&& op & 7 == 4 ==> id == 3 && !lo
        &&& op & 7 == 5 ==> id == 3 && lo
        &&& op & 7 == 6 ==> id == 0 && !lo
        &&& op & 7 == 7 ==> id == 0 && lo
    }) by (bit_vector);
}

} // verus!

//! Facts about masks and shifts of fixed-width integers, proved once by bit
//! blasting.
use vstd::prelude::*;

verus! {

/// A byte masked by `m` is at most `m`.
pub proof fn lemma_and_u8(v: u8, m: u8)
    by (bit_vector)
    ensures
        v & m <= m,
        v & m <= v,
{
}

/// A word masked by `m` is at most `m`.
pub proof fn lemma_and_u16(v: u16, m: u16)
    by (bit_vector)
    ensures
        v & m <= m,
        v & m <= v,
{
}

/// The index of an address of the switchable work RAM bank `b`: the offset
/// in the bank plus the bank's base; addresses 0x2000 apart share their
/// offset.
pub proof fn lemma_bank_bits(v: u16, b: u16)
    by (bit_vector)
    requires
        b <= 7,
    ensures
        ((v & 0xFFF) | ((b * 0x1000) as u16)) == (v & 0xFFF) + b * 0x1000,
        v & 0xFFF <= 0xFFF,
        v >= 0x2000 ==> ((v - 0x2000) as u16) & 0xFFF == v & 0xFFF,
{
}

/// An address of high RAM: its I/O offset is in the high RAM range and
/// keeps the address's low seven bits.
pub proof fn lemma_high_ram_addr(addr: u16)
    by (bit_vector)
    requires
        0xFF80 <= addr <= 0xFFFE,
    ensures
        0x80 <= ((addr & 0xFF) as u8) <= 0xFE,
        ((addr & 0xFF) as u8) & 0x7F == addr & 0x7F,
        addr & 0x7F <= 0x7F,
{
}

/// Bounds of a byte shifted right.
pub proof fn lemma_shr_u8(v: u8)
    by (bit_vector)
    ensures
        v >> 1u8 <= 127,
        v >> 3u8 <= 31,
        v >> 4u8 <= 15,
        v >> 5u8 <= 7,
        v >> 6u8 <= 3,
        v & 7 == v % 8,
{
}

/// Setting bits step by step sets their union; clearing bits step by step
/// clears their union; masking keeps the bits inside the mask.
pub proof fn lemma_mask_steps(x: u8, m: u8, k: u8, v: u8)
    by (bit_vector)
    ensures
        (x | m) | k == x | (m | k),
        (x & !m) & !k == x & !(m | k),
        (v & 7) & 4 == v & 4,
        (v & 0x1F) | 0xE0 == v | 0xE0,
        x | 0 == x,
        x & !0u8 == x,
{
}

/// The low four bits of AF stay clear when its high byte, or its flags, are
/// replaced, or when they are masked off.
pub proof fn lemma_af_low_nibble(w: u16, f: u16, v: u8)
    by (bit_vector)
    ensures
        (w & 0xFFF0) % 16 == 0,
        f % 16 == 0 ==> ((w & 0xFF00) | (f & 0xFF)) % 16 == 0,
        w % 16 == 0 ==> (((v as u16) << 8u16) | (w & 0xFF)) % 16 == 0,
{
}

/// Offsets within a 256-byte page that starts at `a`.
pub proof fn lemma_page_offset(a: u16, k: u16)
    by (bit_vector)
    requires
        a & 0xFF == 0,
        k < 0x100,
        a <= 0xFF00,
    ensures
        ((a + k) as u16) & 0xFF == k,
{
}

} // verus!

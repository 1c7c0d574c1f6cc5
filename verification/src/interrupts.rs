//! Interrupt flag (IF), interrupt enable (IE) and master enable (IME).
use vstd::prelude::*;

verus! {

/// V-blank interrupt bit.
pub const VBLANK: u8 = 1;
/// LCD status interrupt bit.
pub const LCD: u8 = 2;
/// Timer interrupt bit.
pub const TIMER: u8 = 4;
/// Serial interrupt bit.
pub const SERIAL: u8 = 8;
/// Joypad interrupt bit.
pub const P1: u8 = 16;

/// Interrupt controller state.
pub struct Interrupts {
    pub ime: bool,
    pub ifr: u8,
    pub ie: u8,
}

/// Whether bit `k` of `v` is set.
pub open spec fn bit_set(v: u8, k: u8) -> bool {
    (v >> k) & 1u8 == 1u8
}

/// The index of the lowest set bit of `ints`; 8 when no bit is set.
pub open spec fn lowest_bit(ints: u8) -> u8 {
    if bit_set(ints, 0) { 0 }
    else if bit_set(ints, 1) { 1 }
    else if bit_set(ints, 2) { 2 }
    else if bit_set(ints, 3) { 3 }
    else if bit_set(ints, 4) { 4 }
    else if bit_set(ints, 5) { 5 }
    else if bit_set(ints, 6) { 6 }
    else if bit_set(ints, 7) { 7 }
    else { 8 }
}

/// `u8::trailing_zeros` computes [`lowest_bit`].
pub proof fn lemma_trailing_zeros_is_lowest_bit(i: u8)
    ensures
        vstd::std_specs::bits::u8_trailing_zeros(i) == lowest_bit(i) as u32,
{
    vstd::std_specs::bits::axiom_u8_trailing_zeros(i);
    let t = vstd::std_specs::bits::u8_trailing_zeros(i);
    if i == 0 {
        assert(forall|k: u8| k < 8 ==> #[trigger] ((0u8 >> k) & 1u8) == 0u8) by (bit_vector);
        assert(!bit_set(i, 0) && !bit_set(i, 1) && !bit_set(i, 2) && !bit_set(i, 3));
        assert(!bit_set(i, 4) && !bit_set(i, 5) && !bit_set(i, 6) && !bit_set(i, 7));
    } else {
        assert((i >> 0u8) & 1u8 == 0u8 || t == 0);
        assert((i >> 1u8) & 1u8 == 0u8 || t <= 1);
        assert((i >> 2u8) & 1u8 == 0u8 || t <= 2);
        assert((i >> 3u8) & 1u8 == 0u8 || t <= 3);
        assert((i >> 4u8) & 1u8 == 0u8 || t <= 4);
        assert((i >> 5u8) & 1u8 == 0u8 || t <= 5);
        assert((i >> 6u8) & 1u8 == 0u8 || t <= 6);
    }
}

impl Interrupts {
    /// The state after power on: nothing requested, nothing enabled.
    pub fn new() -> (r: Self)
        ensures
            !r.ime,
            r.ifr == 0,
            r.ie == 0,
    {
        Interrupts { ime: false, ifr: 0, ie: 0 }
    }

    /// Disables every interrupt source (used by illegal opcodes).
    pub(crate) fn ill(&mut self)
        ensures
            final(self).ie == 0,
            final(self).ifr == old(self).ifr,
            final(self).ime == old(self).ime,
    {
        self.ie = 0;
    }

    /// Acknowledges the highest priority pending interrupt and returns the
    /// address of its handler.
    pub(crate) fn handle(&mut self) -> (vector: u16)
        ensures
            ({
                let ints = old(self).ifr & old(self).ie;
                let tz = lowest_bit(ints);
                &&& vector == 0x40 + (tz % 8) * 8
                &&& (tz < 8 ==> final(self).ifr == old(self).ifr & !(1u8 << tz))
                &&& (tz == 8 ==> final(self).ifr == old(self).ifr)
            }),
            final(self).ie == old(self).ie,
            final(self).ime == old(self).ime,
    {
        let ints = self.ifr & self.ie;
        let tzr = ints.trailing_zeros();
        proof {
            lemma_trailing_zeros_is_lowest_bit(ints);
        }
        let tz: u8 = (tzr & 7) as u8;
        assert(tz == lowest_bit(ints) % 8) by (bit_vector)
            requires tzr <= 8, tz == (tzr & 7) as u8, tzr == lowest_bit(ints) as u32;
        let ack: u8 = (if ints != 0 { 1u8 } else { 0u8 }) << tz;
        let old_ifr = self.ifr;
        let new_ifr = old_ifr & !ack;
        self.ifr = new_ifr;
        proof {
            if lowest_bit(ints) == 8 {
                assert(ints == 0) by {
                    lemma_trailing_zeros_is_lowest_bit(ints);
                    vstd::std_specs::bits::axiom_u8_trailing_zeros(ints);
                }
                assert(new_ifr == old_ifr) by (bit_vector)
                    requires new_ifr == old_ifr & !ack, ack == 0u8 << tz;
            } else {
                assert(ints != 0);
            }
        }
        let v: u16 = 0x40 | (tz as u16) << 3;
        assert(v == 0x40 + tz * 8) by (bit_vector)
            requires tz < 8, v == 0x40u16 | (tz as u16) << 3u16;
        v
    }

    /// Whether some enabled interrupt is pending.
    pub(crate) fn any(&self) -> (r: bool)
        ensures
            r == (self.ifr & self.ie != 0),
    {
        self.ifr & self.ie != 0
    }

    /// Sets the master enable.
    pub(crate) fn enable(&mut self)
        ensures
            final(self).ime,
            final(self).ifr == old(self).ifr,
            final(self).ie == old(self).ie,
    {
        self.ime = true;
    }

    /// Clears the master enable.
    pub(crate) fn disable(&mut self)
        ensures
            !final(self).ime,
            final(self).ifr == old(self).ifr,
            final(self).ie == old(self).ie,
    {
        self.ime = false;
    }

    /// The master enable.
    pub(crate) fn enabled(&self) -> (r: bool)
        ensures
            r == self.ime,
    {
        self.ime
    }

    /// Requests the joypad interrupt.
    pub(crate) fn req_p1(&mut self)
        ensures
            final(self).ifr == old(self).ifr | P1,
            final(self).ie == old(self).ie,
            final(self).ime == old(self).ime,
    {
        self.ifr |= P1;
    }

    /// Requests the serial interrupt.
    pub(crate) fn req_serial(&mut self)
        ensures
            final(self).ifr == old(self).ifr | SERIAL,
            final(self).ie == old(self).ie,
            final(self).ime == old(self).ime,
    {
        self.ifr |= SERIAL;
    }

    /// Requests the V-blank interrupt.
    pub(crate) fn req_vblank(&mut self)
        ensures
            final(self).ifr == old(self).ifr | VBLANK,
            final(self).ie == old(self).ie,
            final(self).ime == old(self).ime,
    {
        self.ifr |= VBLANK;
    }

    /// Requests the LCD status interrupt.
    pub(crate) fn req_lcd(&mut self)
        ensures
            final(self).ifr == old(self).ifr | LCD,
            final(self).ie == old(self).ie,
            final(self).ime == old(self).ime,
    {
        self.ifr |= LCD;
    }

    /// Requests the timer interrupt.
    pub(crate) fn req_timer(&mut self)
        ensures
            final(self).ifr == old(self).ifr | TIMER,
            final(self).ie == old(self).ie,
            final(self).ime == old(self).ime,
    {
        self.ifr |= TIMER;
    }

    /// Reads IF; the three unused upper bits read as 1.
    pub(crate) fn read_if(&self) -> (r: u8)
        ensures
            r == self.ifr | 0xE0,
    {
        self.ifr | 0xE0
    }

    /// Reads IE.
    pub(crate) fn read_ie(&self) -> (r: u8)
        ensures
            r == self.ie,
    {
        self.ie
    }

    /// Writes IF; only the five interrupt bits are kept.
    pub(crate) fn write_if(&mut self, val: u8)
        ensures
            final(self).ifr == val & 0x1F,
            final(self).ie == old(self).ie,
            final(self).ime == old(self).ime,
    {
        self.ifr = val & 0x1F;
    }

    /// Writes IE.
    pub(crate) fn write_ie(&mut self, val: u8)
        ensures
            final(self).ie == val,
            final(self).ifr == old(self).ifr,
            final(self).ime == old(self).ime,
    {
        self.ie = val;
    }
}

/// Of the pending interrupts, the one serviced is the lowest bit: its bit is
/// pending and no lower bit is (V-blank first, then LCD, timer, serial and
/// joypad).
pub proof fn law_lowest_pending_interrupt_first(pending: u8)
    requires
        pending != 0,
        pending <= 0x1F,
    ensures
        lowest_bit(pending) < 5,
        bit_set(pending, lowest_bit(pending)),
        forall|k: u8| k < lowest_bit(pending) ==> !bit_set(pending, k),
{
    assert(bit_set(pending, 0) || bit_set(pending, 1) || bit_set(pending, 2) || bit_set(pending, 3) || bit_set(
        pending,
        4,
    )) by (bit_vector)
        requires
            pending != 0,
            pending <= 0x1F,
    ;
}

/// Reading IF gives back what was written to it, with the upper three bits set.
pub proof fn law_if_read_after_write(val: u8)
    ensures
        (val & 0x1F) | 0xE0 == val | 0xE0,
{
    crate::bits::lemma_mask_steps(0, 0, 0, val);
}

} // verus!

//! The joypad: eight buttons read through the P1 register, a row of
//! directions and a row of actions, each selected by a low bit.
use vstd::prelude::*;
use crate::interrupts::{Interrupts, P1};

verus! {

/// A physical button of the console.
#[derive(Clone, Copy, PartialEq, Eq, Structural, Debug)]
pub enum Button {
    Right,
    Left,
    Up,
    Down,
    A,
    B,
    Select,
    Start,
}

impl Button {
    /// The button's bit in the pressed-buttons byte: directions in the low
    /// nibble, actions in the high nibble.
    pub open spec fn spec_bit(self) -> u8 {
        match self {
            Button::Right => 0x01,
            Button::Left => 0x02,
            Button::Up => 0x04,
            Button::Down => 0x08,
            Button::A => 0x10,
            Button::B => 0x20,
            Button::Select => 0x40,
            Button::Start => 0x80,
        }
    }

    /// The button's bit in the pressed-buttons byte.
    pub fn bit(self) -> (r: u8)
        ensures
            r == self.spec_bit(),
    {
        match self {
            Button::Right => 0x01,
            Button::Left => 0x02,
            Button::Up => 0x04,
            Button::Down => 0x08,
            Button::A => 0x10,
            Button::B => 0x20,
            Button::Select => 0x40,
            Button::Start => 0x80,
        }
    }
}

/// The button whose bit is `value` (one of the eight single bits).
pub fn u8_to_button(value: u8) -> (r: Button)
    requires
        value == 0x01 || value == 0x02 || value == 0x04 || value == 0x08 || value == 0x10 || value == 0x20
            || value == 0x40 || value == 0x80,
    ensures
        r.spec_bit() == value,
{
    if value == 0x01 {
        Button::Right
    } else if value == 0x02 {
        Button::Left
    } else if value == 0x04 {
        Button::Up
    } else if value == 0x08 {
        Button::Down
    } else if value == 0x10 {
        Button::A
    } else if value == 0x20 {
        Button::B
    } else if value == 0x40 {
        Button::Select
    } else {
        Button::Start
    }
}

/// The pressed buttons and the rows the program selected.
#[derive(Clone, Copy, PartialEq, Eq, Structural, Debug)]
pub struct Joypad {
    /// One bit per pressed button.
    pub btn: u8,
    /// The direction row is selected (P1 bit 4 written low).
    pub dirs: bool,
    /// The action row is selected (P1 bit 5 written low).
    pub acts: bool,
}

/// What P1 reads: the selected rows, pressed buttons and select bits read
/// low.
pub open spec fn spec_p1(btn: u8, dirs: bool, acts: bool) -> u8 {
    let act: u8 = if acts { (btn >> 4u8) | 0x20 } else { 0 };
    let dir: u8 = if dirs { (btn & 0xF) | 0x10 } else { 0 };
    !(act | dir)
}

/// Whether pressing a button of bits `b` requests the joypad interrupt: the
/// button is in a selected row.
pub open spec fn press_requests(b: u8, dirs: bool, acts: bool) -> bool {
    (b & 0x0F != 0 && dirs) || (b & 0xF0 != 0 && acts)
}

impl Joypad {
    /// No button pressed, no row selected.
    pub fn new() -> (r: Self)
        ensures
            r.btn == 0 && !r.dirs && !r.acts,
    {
        Joypad { btn: 0, dirs: false, acts: false }
    }

    /// Presses `button`; requests the joypad interrupt when the button's
    /// row is selected.
    pub fn press(&mut self, button: Button, ints: &mut Interrupts)
        ensures
            *final(self) == (Joypad { btn: old(self).btn | button.spec_bit(), ..*old(self) }),
            *final(ints) == (if press_requests(button.spec_bit(), old(self).dirs, old(self).acts) {
                Interrupts { ifr: old(ints).ifr | P1, ..*old(ints) }
            } else {
                *old(ints)
            }),
    {
        let b = button.bit();
        self.btn = self.btn | b;
        if (b & 0x0F != 0 && self.dirs) || (b & 0xF0 != 0 && self.acts) {
            ints.req_p1();
        }
    }

    /// Releases `button`.
    pub fn release(&mut self, button: Button)
        ensures
            *final(self) == (Joypad { btn: old(self).btn & !button.spec_bit(), ..*old(self) }),
    {
        self.btn = self.btn & !button.bit();
    }

    /// Reads P1.
    pub fn read_p1(&self) -> (r: u8)
        ensures
            r == spec_p1(self.btn, self.dirs, self.acts),
    {
        let act: u8 = if self.acts { (self.btn >> 4) | 0x20 } else { 0 };
        let dir: u8 = if self.dirs { (self.btn & 0xF) | 0x10 } else { 0 };
        !(act | dir)
    }

    /// Writes P1: bit 5 low selects the actions, bit 4 low the directions.
    pub fn write_joy(&mut self, val: u8)
        ensures
            *final(self) == (Joypad { acts: val & 0x20 == 0, dirs: val & 0x10 == 0, ..*old(self) }),
    {
        self.acts = val & 0x20 == 0;
        self.dirs = val & 0x10 == 0;
    }
}

/// A button that is pressed reads low in P1 when its row is selected, and
/// reads high again once released.
pub proof fn law_pressed_button_reads_low(btn: u8, button: Button, dirs: bool, acts: bool)
    ensures
        ({
            let b = button.spec_bit();
            let pressed = btn | b;
            let released = btn & !b;
            &&& (b & 0x0F != 0 && dirs) ==> spec_p1(pressed, dirs, acts) & b == 0
            &&& (b & 0xF0 != 0 && acts) ==> spec_p1(pressed, dirs, acts) & (b >> 4u8) == 0
            &&& (b & 0x0F != 0 && dirs && !acts) ==> spec_p1(released, dirs, acts) & b == b
            &&& (b & 0xF0 != 0 && acts && !dirs) ==> spec_p1(released, dirs, acts) & (b >> 4u8) == (b >> 4u8)
        }),
{
    let b = button.spec_bit();
    assert(b == 1 || b == 2 || b == 4 || b == 8 || b == 0x10 || b == 0x20 || b == 0x40 || b == 0x80);
    assert(forall|x: u8, b: u8|
        (b == 1 || b == 2 || b == 4 || b == 8 || b == 0x10 || b == 0x20 || b == 0x40 || b == 0x80) ==> {
            &&& (b & 0x0F != 0 && dirs) ==> spec_p1(x | b, dirs, acts) & b == 0
            &&& (b & 0xF0 != 0 && acts) ==> spec_p1(x | b, dirs, acts) & (b >> 4u8) == 0
            &&& (b & 0x0F != 0 && dirs && !acts) ==> spec_p1(x & !b, dirs, acts) & b == b
            &&& (b & 0xF0 != 0 && acts && !dirs) ==> spec_p1(x & !b, dirs, acts) & (b >> 4u8) == (b >> 4u8)
        }) by (bit_vector);
}

} // verus!

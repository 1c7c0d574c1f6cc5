use ceres_core::interrupts::Interrupts;
use ceres_core::joypad::{Button, Joypad};

#[test]
fn pressed_button_reads_low_in_selected_row() {
    let mut j = Joypad::new();
    j.write_joy(0x20); // select directions (bit 4 low)
    let mut ints = Interrupts::new();
    j.press(Button::Left, &mut ints);
    assert_eq!(j.read_p1(), !(0x02 | 0x10));
    assert_eq!(ints.ifr & 0x10, 0x10);
    j.release(Button::Left);
    assert_eq!(j.read_p1() & 0x0F, 0x0F);
}

#[test]
fn action_in_unselected_row_requests_nothing() {
    let mut j = Joypad::new();
    j.write_joy(0x20); // directions only
    let mut ints = Interrupts::new();
    j.press(Button::Start, &mut ints);
    assert_eq!(ints.ifr, 0);
    assert_eq!(j.read_p1() & 0x0F, 0x0F);
    j.write_joy(0x10); // actions
    assert_eq!(j.read_p1() & 0x08, 0);
}

#[test]
fn button_bits() {
    assert_eq!(Button::Right.bit(), 0x01);
    assert_eq!(Button::Down.bit(), 0x08);
    assert_eq!(Button::A.bit(), 0x10);
    assert_eq!(Button::Start.bit(), 0x80);
}

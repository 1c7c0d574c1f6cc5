use ceres_core::cartridge::Cartridge;
use ceres_core::cpu::names;
use ceres_core::input::InputBuffer;
use ceres_core::joypad::{u8_to_button, Button};
use ceres_core::{Gb, Model};

fn console() -> Gb {
    let mut rom = vec![0u8; 0x8000];
    rom[0x147] = 0;
    rom[0x148] = 0;
    rom[0x149] = 0;
    Gb::new(Model::Dmg, 48000, Cartridge::new(rom, None).unwrap(), None)
}

#[test]
fn buffered_presses_then_releases_are_applied() {
    let mut gb = console();
    let mut buf = InputBuffer::new();
    buf.press(Button::A);
    buf.press(Button::Up);
    buf.release(Button::Up);
    buf.flush(&mut gb);
    assert_eq!(gb.joy.btn, 0x10);
    assert_eq!(buf.press_idx, 0);
    assert_eq!(buf.rel_idx, 0);
}

#[test]
fn buffer_holds_sixteen_presses() {
    let mut buf = InputBuffer::new();
    for _ in 0..16 {
        buf.press(Button::B);
    }
    buf.press(Button::Start);
    assert_eq!(buf.press_idx, 16);
    let mut gb = console();
    buf.flush(&mut gb);
    assert_eq!(gb.joy.btn, 0x20);
}

#[test]
fn button_from_bit() {
    assert_eq!(u8_to_button(0x01), Button::Right);
    assert_eq!(u8_to_button(0x40), Button::Select);
    assert_eq!(u8_to_button(0x80), Button::Start);
}

#[test]
fn operand_and_condition_names() {
    assert_eq!(names::get_src_name(0x80), "B");
    assert_eq!(names::get_src_name(0x86), "(HL)");
    assert_eq!(names::get_src_name(0x87), "A");
    assert_eq!(names::get_src_name(0x85), "L");
    assert_eq!(names::get_condition_name(0xC2), "NZ");
    assert_eq!(names::get_condition_name(0xDA), "C");
    assert_eq!(names::regid2regname(4), "SP");
    assert_eq!(names::regid2reghighname(3), "H");
    assert_eq!(names::regid2reglowname(2), "E");
}

#[test]
fn test_rom_signature() {
    let mut gb = console();
    assert!(gb.test_running());
    gb.regs.bc = 0x0305;
    gb.regs.de = 0x080D;
    gb.regs.hl = 0x1500;
    assert!(!gb.test_running());
    assert_eq!(gb.get_test_result(), 0);
    gb.regs.hl = 0x1542;
    assert_eq!(gb.get_test_result(), 0x42);
    assert!(!gb.cartridge_has_battery());
    assert_eq!(gb.cartridge_ram().len(), 0);
}

#[test]
fn flushed_press_requests_the_joypad_interrupt_only_on_a_selected_row() {
    let mut gb = console();
    gb.write_mem(0xFF00, 0x20); // select the direction row
    let before = gb.ints.ifr;
    let mut buf = InputBuffer::new();
    buf.press(Button::A);
    buf.flush(&mut gb);
    assert_eq!(gb.ints.ifr, before);
    buf.press(Button::Left);
    buf.flush(&mut gb);
    assert_eq!(gb.ints.ifr, before | 0x10);
    assert_eq!(gb.joy.btn, 0x10 | 0x02);
}

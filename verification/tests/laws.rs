use ceres_core::cartridge::Cartridge;
use ceres_core::ppu::Mode;
use ceres_core::{Gb, Model};

fn console(model: Model) -> Gb {
    let mut rom = vec![0u8; 0x8000];
    rom[0x147] = 0;
    rom[0x148] = 0;
    rom[0x149] = 0;
    Gb::new(model, 48000, Cartridge::new(rom, None).unwrap(), None)
}

#[test]
fn a_line_lasts_456_cycles() {
    for scx in [0u8, 1, 5, 7, 8, 0xFF] {
        let total = Mode::OamScan.cycles(scx) + Mode::Drawing.cycles(scx) + Mode::HBlank.cycles(scx);
        assert_eq!(total, 456);
    }
    assert_eq!(Mode::VBlank.cycles(3), 456);
    assert_eq!(Mode::Drawing.cycles(3), 172 + 12);
}

#[test]
fn envelope_register_reads_back() {
    let mut gb = console(Model::Dmg);
    gb.write_mem(0xFF26, 0x80);
    gb.write_mem(0xFF12, 0xA5);
    assert_eq!(gb.read_mem(0xFF12), 0xA5);
    gb.write_mem(0xFF17, 0x3B);
    assert_eq!(gb.read_mem(0xFF17), 0x3B);
}

#[test]
fn channel_registers_ignore_writes_while_off() {
    let mut gb = console(Model::Dmg);
    gb.write_mem(0xFF12, 0xA5);
    assert_eq!(gb.read_mem(0xFF12), 0x00);
}

#[test]
fn palette_data_reads_back() {
    let mut gb = console(Model::Cgb);
    // index 2, no auto-increment
    gb.write_mem(0xFF68, 0x02);
    gb.write_mem(0xFF69, 0x7B);
    assert_eq!(gb.read_mem(0xFF69), 0x7B);
    gb.write_mem(0xFF68, 0x03);
    gb.write_mem(0xFF69, 0xFF);
    // bit 7 of odd bytes does not exist
    assert_eq!(gb.read_mem(0xFF69), 0x7F);
    // auto-increment moves to the next byte
    gb.write_mem(0xFF68, 0x80);
    gb.write_mem(0xFF69, 0x11);
    assert_eq!(gb.read_mem(0xFF68) & 0x3F, 1);
}

#[test]
fn noise_shift_register_never_sticks_at_zero() {
    let mut gb = console(Model::Dmg);
    gb.write_mem(0xFF26, 0x80);
    gb.write_mem(0xFF21, 0xF0); // volume 15, DAC on
    gb.write_mem(0xFF22, 0x00); // fastest clock
    gb.write_mem(0xFF23, 0x80); // trigger
    for _ in 0..2000 {
        gb.advance_t_cycles(16);
        assert_ne!(gb.apu.ch4.lfsr, 0);
        assert!(gb.apu.ch4.lfsr <= 0x7FFF);
    }
}

#[test]
fn writing_div_clears_it() {
    let mut gb = console(Model::Dmg);
    for _ in 0..300 {
        gb.advance_t_cycles(4);
    }
    assert_eq!(gb.read_mem(0xFF04), 4);
    gb.write_mem(0xFF04, 0x55);
    assert_eq!(gb.read_mem(0xFF04), 0);
}

#[test]
fn interrupt_flags_read_back_with_upper_bits_set() {
    let mut gb = console(Model::Dmg);
    for v in [0u8, 0x1F, 0x15, 0xFF] {
        gb.write_mem(0xFF0F, v);
        assert_eq!(gb.read_mem(0xFF0F), v | 0xE0);
    }
}

#[test]
fn work_ram_banks_do_not_share_bytes() {
    let mut gb = console(Model::Cgb);
    for bank in 1..=7u8 {
        gb.write_mem(0xFF70, bank);
        gb.write_mem(0xDABC, bank * 0x10);
    }
    for bank in 1..=7u8 {
        gb.write_mem(0xFF70, bank);
        assert_eq!(gb.read_mem(0xDABC), bank * 0x10);
        assert_eq!(gb.read_mem(0xFABC), bank * 0x10);
    }
}

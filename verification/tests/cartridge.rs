use ceres_core::cartridge::{Cartridge, Error, Mbc};

fn rom_image(mbc: u8, rom_size: u8, ram_size: u8, len: usize) -> Vec<u8> {
    let mut rom = vec![0u8; len];
    for (i, b) in rom.iter_mut().enumerate() {
        // each 16 KiB bank is filled with its own number
        *b = (i / 0x4000) as u8;
    }
    rom[0x147] = mbc;
    rom[0x148] = rom_size;
    rom[0x149] = ram_size;
    rom
}

#[test]
fn rejects_unknown_rom_size() {
    let r = Cartridge::new(rom_image(0, 9, 0, 0x8000), None);
    assert!(matches!(r, Err(Error::InvalidRomSize)));
}

#[test]
fn rejects_unknown_ram_size() {
    let r = Cartridge::new(rom_image(0, 0, 1, 0x8000), None);
    assert!(matches!(r, Err(Error::InvalidRamSize)));
}

#[test]
fn rom_size_is_checked_before_ram_size() {
    let r = Cartridge::new(rom_image(0, 9, 1, 0x8000), None);
    assert!(matches!(r, Err(Error::InvalidRomSize)));
}

#[test]
fn rejects_unsupported_controller() {
    let r = Cartridge::new(rom_image(0x20, 0, 0, 0x8000), None);
    assert!(matches!(r, Err(Error::UnsupportedMBC)));
    assert_eq!(Error::UnsupportedMBC.message(), "unsupported MBC");
}

#[test]
fn rom_is_cut_to_declared_size_and_ram_starts_erased() {
    let c = Cartridge::new(rom_image(0x03, 0, 2, 0x10000), None).unwrap();
    assert_eq!(c.rom.len(), 0x8000);
    assert_eq!(c.ram.len(), 0x2000);
    assert!(c.ram.iter().all(|&b| b == 0xFF));
    assert!(c.has_battery());
    assert_eq!(c.save_data().map(|d| d.len()), Some(0x2000));
}

#[test]
fn saved_ram_is_loaded_and_cut() {
    let saved = vec![7u8; 0x3000];
    let c = Cartridge::new(rom_image(0x03, 0, 2, 0x8000), Some(saved)).unwrap();
    assert_eq!(c.ram.len(), 0x2000);
    assert_eq!(c.ram[0], 7);
}

#[test]
fn no_battery_no_save_data() {
    let c = Cartridge::new(rom_image(0x01, 0, 2, 0x8000), None).unwrap();
    assert!(!c.has_battery());
    assert!(c.save_data().is_none());
    assert!(c.clock().is_none());
}

#[test]
fn mbc1_switches_rom_banks() {
    // 128 KiB: banks 0 to 7
    let mut c = Cartridge::new(rom_image(0x01, 2, 0, 0x20000), None).unwrap();
    assert_eq!(c.read_rom(0x0000), 0);
    assert_eq!(c.read_rom(0x4000), 1);
    c.write_rom(0x2000, 5);
    assert_eq!(c.read_rom(0x4000), 5);
    // bank 0 selects bank 1
    c.write_rom(0x2000, 0);
    assert_eq!(c.read_rom(0x4000), 1);
    // bank numbers wrap to the ROM's size
    c.write_rom(0x2000, 9);
    assert_eq!(c.read_rom(0x4000), 1);
}

#[test]
fn mbc1_ram_reads_back_only_when_enabled() {
    let mut c = Cartridge::new(rom_image(0x03, 0, 2, 0x8000), None).unwrap();
    c.write_ram(0xA010, 0x42);
    assert_eq!(c.read_ram(0xA010), 0xFF);
    c.write_rom(0x0000, 0x0A);
    c.write_ram(0xA010, 0x42);
    assert_eq!(c.read_ram(0xA010), 0x42);
    c.write_rom(0x0000, 0x00);
    assert_eq!(c.read_ram(0xA010), 0xFF);
    c.write_rom(0x0000, 0x0A);
    assert_eq!(c.read_ram(0xA010), 0x42);
}

#[test]
fn mbc2_ram_keeps_low_nibble() {
    let mut c = Cartridge::new(rom_image(0x06, 0, 2, 0x8000), None).unwrap();
    c.write_rom(0x0000, 0x0A);
    c.write_ram(0xA000, 0x5C);
    assert_eq!(c.read_ram(0xA000), 0xFC);
}

#[test]
fn mbc2_bank_register_needs_address_bit_8() {
    let mut c = Cartridge::new(rom_image(0x05, 1, 0, 0x10000), None).unwrap();
    c.write_rom(0x2100, 3);
    assert_eq!(c.read_rom(0x4000), 3);
    c.write_rom(0x2100, 0);
    assert_eq!(c.read_rom(0x4000), 1);
}

#[test]
fn mbc3_clock_registers_map_into_ram_area() {
    let mut c = Cartridge::new(rom_image(0x10, 0, 2, 0x8000), None).unwrap();
    assert_eq!(c.clock(), Some(&[0u8, 0, 0, 0, 0][..]));
    c.write_rom(0x0000, 0x0A);
    c.write_rom(0x4000, 0x08);
    c.write_ram(0xA000, 0x7B);
    // seconds keep six bits
    assert_eq!(c.read_ram(0xA000), 0x3B);
    assert_eq!(c.clock().unwrap()[0], 0x3B);
    // back to RAM bank 0
    c.write_rom(0x4000, 0x00);
    c.write_ram(0xA000, 0x11);
    assert_eq!(c.read_ram(0xA000), 0x11);
    assert!(matches!(c.mbc, Mbc::Mbc3 { rtc: Some(_) }));
}

#[test]
fn mbc3_clock_ticks_once_a_second() {
    let mut c = Cartridge::new(rom_image(0x10, 0, 2, 0x8000), None).unwrap();
    c.run(0x40_0000 - 1);
    assert_eq!(c.clock().unwrap()[0], 0);
    c.run(1);
    assert_eq!(c.clock().unwrap()[0], 1);
}

#[test]
fn mbc5_uses_nine_bank_bits() {
    // 8 MiB: banks 0 to 0x1FF
    let mut c = Cartridge::new(rom_image(0x19, 8, 0, 0x80_0000), None).unwrap();
    c.write_rom(0x2000, 0x23);
    assert_eq!(c.read_rom(0x4000), 0x23);
    c.write_rom(0x3000, 0x01);
    assert_eq!(c.read_rom(0x4000), 0x23);
    assert_eq!(c.rom_offsets.1, 0x4000 * 0x123);
    // bank 0 can be mapped
    c.write_rom(0x2000, 0x00);
    c.write_rom(0x3000, 0x00);
    assert_eq!(c.read_rom(0x4000), 0);
}

#[test]
fn mbc5_ram_banks() {
    let mut c = Cartridge::new(rom_image(0x1B, 0, 3, 0x8000), None).unwrap();
    c.write_rom(0x0000, 0x0A);
    c.write_rom(0x4000, 2);
    c.write_ram(0xA000, 9);
    assert_eq!(c.ram[0x4000], 9);
    c.write_rom(0x4000, 0);
    assert_eq!(c.read_ram(0xA000), 0xFF);
}

#[test]
fn short_rom_reads_high_past_its_end() {
    let c = Cartridge::new(rom_image(0x00, 0, 0, 0x200), None).unwrap();
    assert_eq!(c.read_rom(0x7FFF), 0xFF);
}

#[test]
fn rtc_moves_one_second_every_tc_sec_cycles() {
    let mut rom = vec![0u8; 0x8000];
    rom[0x147] = 0x0F;
    let mut c = Cartridge::new(rom, None).unwrap();
    c.run(60 * ceres_core::cartridge::TC_SEC);
    assert_eq!(c.clock(), Some(&[0u8, 1, 0, 0, 0][..]));
}

use ceres_core::cartridge::Cartridge;
use ceres_core::joypad::Button;
use ceres_core::{Gb, Model};

fn cart_with_program(program: &[u8]) -> Cartridge {
    let mut rom = vec![0u8; 0x8000];
    rom[..program.len()].copy_from_slice(program);
    rom[0x147] = 0x00;
    rom[0x148] = 0x00;
    rom[0x149] = 0x00;
    Cartridge::new(rom, None).unwrap()
}

fn console(model: Model, program: &[u8]) -> Gb {
    Gb::new(model, 48000, cart_with_program(program), None)
}

#[test]
fn runs_a_small_program() {
    let program = [
        0x3E, 0x12, // LD A, 0x12
        0xEA, 0x00, 0xC0, // LD (0xC000), A
        0x06, 0x05, // LD B, 5
        0x80, // ADD A, B
        0x76, // HALT
    ];
    let mut gb = console(Model::Dmg, &program);
    for _ in 0..4 {
        gb.run_cpu();
    }
    assert_eq!(gb.read_mem(0xC000), 0x12);
    assert_eq!(gb.regs.af >> 8, 0x17);
    assert_eq!(gb.regs.bc >> 8, 0x05);
    assert_eq!(gb.regs.pc, 8);
}

#[test]
fn call_and_return_use_the_stack() {
    let program = [
        0x31, 0xFE, 0xFF, // LD SP, 0xFFFE
        0xCD, 0x10, 0x00, // CALL 0x0010
        0x76, // HALT
        0, 0, 0, 0, 0, 0, 0, 0, 0, // padding to 0x10
        0x3C, // INC A
        0xC9, // RET
    ];
    let mut gb = console(Model::Dmg, &program);
    gb.run_cpu();
    gb.run_cpu();
    assert_eq!(gb.regs.pc, 0x10);
    assert_eq!(gb.regs.sp, 0xFFFC);
    // return address 0x0006 on the stack, in high RAM
    assert_eq!(gb.read_mem(0xFFFC), 0x06);
    assert_eq!(gb.read_mem(0xFFFD), 0x00);
    gb.run_cpu();
    gb.run_cpu();
    assert_eq!(gb.regs.pc, 0x06);
    assert_eq!(gb.regs.sp, 0xFFFE);
    assert_eq!(gb.regs.af >> 8, 1);
}

#[test]
fn work_ram_echo_mirrors_the_fixed_bank() {
    let mut gb = console(Model::Dmg, &[]);
    gb.write_mem(0xC123, 0x5A);
    assert_eq!(gb.read_mem(0xE123), 0x5A);
    gb.write_mem(0xF456, 0xA5);
    assert_eq!(gb.read_mem(0xD456), 0xA5);
}

#[test]
fn color_model_switches_work_ram_banks() {
    let mut gb = console(Model::Cgb, &[]);
    gb.write_mem(0xFF70, 2);
    gb.write_mem(0xD000, 0x22);
    gb.write_mem(0xFF70, 3);
    gb.write_mem(0xD000, 0x33);
    assert_eq!(gb.read_mem(0xD000), 0x33);
    gb.write_mem(0xFF70, 2);
    assert_eq!(gb.read_mem(0xD000), 0x22);
    // bank 0 selects bank 1
    gb.write_mem(0xFF70, 0);
    gb.write_mem(0xD000, 0x11);
    gb.write_mem(0xFF70, 1);
    assert_eq!(gb.read_mem(0xD000), 0x11);
    assert_eq!(gb.read_mem(0xFF70), 0xF9);
}

#[test]
fn high_ram_and_interrupt_registers() {
    let mut gb = console(Model::Dmg, &[]);
    gb.write_mem(0xFF80, 0x99);
    assert_eq!(gb.read_mem(0xFF80), 0x99);
    gb.write_mem(0xFFFF, 0x1F);
    assert_eq!(gb.read_mem(0xFFFF), 0x1F);
    gb.write_mem(0xFF0F, 0xFF);
    assert_eq!(gb.read_mem(0xFF0F), 0xFF);
    gb.write_mem(0xFF0F, 0x01);
    assert_eq!(gb.read_mem(0xFF0F), 0xE1);
}

#[test]
fn timer_registers_through_the_bus() {
    let mut gb = console(Model::Dmg, &[]);
    gb.write_mem(0xFF06, 0x77);
    gb.write_mem(0xFF05, 0x10);
    gb.write_mem(0xFF07, 0x05);
    assert_eq!(gb.read_mem(0xFF06), 0x77);
    assert_eq!(gb.read_mem(0xFF05), 0x10);
    assert_eq!(gb.read_mem(0xFF07), 0xFD);
}

#[test]
fn enabled_interrupt_is_dispatched_to_its_vector() {
    let program = [
        0x31, 0xFE, 0xFF, // LD SP, 0xFFFE
        0x3E, 0x04, // LD A, 4
        0xE0, 0xFF, // LDH (0xFF), A : IE = timer
        0xE0, 0x0F, // LDH (0x0F), A : IF = timer
        0xFB, // EI
        0x00, // NOP
        0x00, // NOP
    ];
    let mut gb = console(Model::Dmg, &program);
    for _ in 0..6 {
        gb.run_cpu();
    }
    assert_eq!(gb.regs.pc, 0x50);
    assert_eq!(gb.read_mem(0xFF0F) & 0x04, 0);
    assert!(!gb.ints.ime);
}

#[test]
fn joypad_press_requests_interrupt_when_row_selected() {
    let mut gb = console(Model::Dmg, &[]);
    gb.write_mem(0xFF00, 0x10); // select actions
    gb.press(Button::A);
    assert_eq!(gb.read_mem(0xFF00) & 0x01, 0);
    assert_eq!(gb.read_mem(0xFF0F) & 0x10, 0x10);
    gb.release(Button::A);
    assert_eq!(gb.read_mem(0xFF00) & 0x01, 0x01);
}

#[test]
fn boot_rom_is_mapped_until_disabled() {
    let mut boot = vec![0u8; 0x100];
    boot[0] = 0xAB;
    let mut gb = Gb::new(Model::Dmg, 48000, cart_with_program(&[0xCD]), Some(boot));
    assert_eq!(gb.read_mem(0x0000), 0xAB);
    gb.write_mem(0xFF50, 1);
    assert_eq!(gb.read_mem(0x0000), 0xCD);
}

#[test]
fn run_samples_produces_a_sample() {
    let mut gb = console(Model::Dmg, &[]);
    let (l, r) = gb.run_samples();
    assert_eq!((l, r), (0, 0));
    assert_eq!(gb.apu.samples_run(), 0);
    assert_eq!(gb.pixel_data_rgba().len(), 160 * 144 * 4);
}

#[test]
fn wave_ram_reads_back_through_the_bus() {
    let mut gb = console(Model::Dmg, &[]);
    gb.write_mem(0xFF30, 0x12);
    gb.write_mem(0xFF3F, 0xEF);
    assert_eq!(gb.read_mem(0xFF30), 0x12);
    assert_eq!(gb.read_mem(0xFF3F), 0xEF);
}

#[test]
fn audio_master_volume_reads_back_when_on() {
    let mut gb = console(Model::Dmg, &[]);
    gb.write_mem(0xFF24, 0x77);
    assert_eq!(gb.read_mem(0xFF24), 0x00);
    gb.write_mem(0xFF26, 0x80);
    gb.write_mem(0xFF24, 0x77);
    assert_eq!(gb.read_mem(0xFF24), 0x77);
    assert_eq!(gb.read_mem(0xFF26) & 0x80, 0x80);
}

#[test]
fn oam_dma_copies_a_page() {
    let mut gb = console(Model::Dmg, &[]);
    for i in 0..0xA0u16 {
        gb.write_mem(0xC000 + i, i as u8);
    }
    gb.write_mem(0xFF46, 0xC0);
    for _ in 0..0xA0 + 2 {
        gb.advance_t_cycles(4);
    }
    assert!(!gb.dma_on);
    assert_eq!(gb.ppu.oam[0x10], 0x10);
    assert_eq!(gb.ppu.oam[0x9F], 0x9F);
}

#[test]
fn lowest_pending_interrupt_is_serviced_first() {
    let program = [
        0x31, 0xFE, 0xFF, // LD SP, 0xFFFE
        0x3E, 0x0C, // LD A, 0x0C
        0xE0, 0xFF, // LDH (0xFF), A : IE = timer | serial
        0xE0, 0x0F, // LDH (0x0F), A : IF = timer | serial
        0xFB, // EI
        0x00, // NOP
    ];
    let mut gb = console(Model::Dmg, &program);
    for _ in 0..6 {
        gb.run_cpu();
    }
    assert_eq!(gb.regs.pc, 0x50);
    assert_eq!(gb.read_mem(0xFF0F) & 0x0C, 0x08);
    // the return address is on the stack
    assert_eq!(gb.regs.sp, 0xFFFC);
    assert_eq!(gb.read_mem(0xFFFC), 0x0B);
}

#[test]
fn halt_waits_for_an_interrupt() {
    let program = [
        0x76, // HALT
        0x3C, // INC A
    ];
    let mut gb = console(Model::Dmg, &program);
    gb.run_cpu();
    assert!(gb.cpu_halted);
    gb.run_cpu();
    assert!(gb.cpu_halted);
    assert_eq!(gb.regs.pc, 1);
    gb.write_mem(0xFFFF, 0x04);
    gb.write_mem(0xFF0F, 0x04);
    gb.run_cpu();
    assert!(!gb.cpu_halted);
    gb.run_cpu();
    assert_eq!(gb.regs.af >> 8, 1);
}

#[test]
fn oam_dma_copies_a_page_to_oam() {
    let mut gb = console(Model::Dmg, &[0x76]);
    for i in 0..0xA0u16 {
        gb.write_mem(0xC000 + i, (i as u8) ^ 0x5A);
    }
    gb.write_mem(0xFF46, 0xC0);
    assert!(gb.dma_on);
    assert_eq!(gb.dma_addr, 0xC000);
    gb.dma_cycles = 0xA0 * 4 + 2;
    gb.run_dma();
    for i in 0..0xA0usize {
        assert_eq!(gb.ppu.oam[i], (i as u8) ^ 0x5A);
    }
    assert!(!gb.dma_on);
    assert_eq!(gb.dma_addr, 0xC0A0);
    assert_eq!(gb.dma_cycles, 2);
}

#[test]
fn oam_dma_copies_one_byte_per_four_cycles() {
    let mut gb = console(Model::Dmg, &[0x76]);
    gb.write_mem(0xC000, 0x11);
    gb.write_mem(0xC001, 0x22);
    gb.write_mem(0xC002, 0x33);
    gb.write_mem(0xFF46, 0xC0);
    gb.dma_cycles = 9;
    gb.run_dma();
    assert_eq!(gb.ppu.oam[0], 0x11);
    assert_eq!(gb.ppu.oam[1], 0x22);
    assert_eq!(gb.ppu.oam[2], 0);
    assert!(gb.dma_on);
    assert_eq!(gb.dma_addr, 0xC002);
    assert_eq!(gb.dma_cycles, 1);
}

#[test]
fn io_writes_reach_their_component() {
    let mut gb = console(Model::Dmg, &[0x76]);
    gb.write_high(0x00, 0x10);
    assert!(gb.joy.acts);
    assert!(!gb.joy.dirs);
    gb.write_high(0xFF, 0x1F);
    assert_eq!(gb.ints.ie, 0x1F);
    gb.write_high(0x0F, 0xE4);
    assert_eq!(gb.ints.ifr, 0x04);
    let ly = gb.ppu.ly;
    gb.write_high(0x44, 0x99);
    assert_eq!(gb.ppu.ly, ly);
    gb.write_high(0x47, 0x1B);
    assert_eq!(gb.ppu.bgp, 0x1B);
    gb.write_high(0x05, 0x42);
    assert_eq!(gb.timer.tima, 0x42);
    gb.write_high(0x01, 0x77);
    assert_eq!(gb.serial.sb, 0x77);
}

#[test]
fn color_registers_are_ignored_on_monochrome_hardware() {
    let mut gb = console(Model::Dmg, &[0x76]);
    gb.write_high(0x70, 3);
    assert_eq!(gb.svbk_true, 1);
    gb.write_high(0x4D, 1);
    assert!(!gb.double_speed_request);
    gb.write_high(0x68, 0x80);
    assert_eq!(gb.ppu.bcp.idx, 0);
}

#[test]
fn color_registers_on_color_hardware() {
    let mut gb = console(Model::Cgb, &[0x76]);
    gb.write_high(0x70, 3);
    assert_eq!(gb.svbk, 3);
    assert_eq!(gb.svbk_true, 3);
    gb.write_high(0x70, 0);
    assert_eq!(gb.svbk_true, 1);
    gb.write_high(0x4D, 1);
    assert!(gb.double_speed_request);
    // palette index 2 with auto-increment, then a red byte
    gb.write_high(0x68, 0x82);
    gb.write_high(0x69, 0x1F);
    assert_eq!(gb.ppu.bcp.idx, 3);
    assert_eq!(gb.ppu.bcp.col[3], 0x1F);
    gb.write_high(0x68, 0x02);
    assert_eq!(gb.read_mem(0xFF69), 0x1F);
}

#[test]
fn general_purpose_vram_dma_moves_source_and_destination() {
    let mut gb = console(Model::Cgb, &[0x76]);
    gb.write_high(0x51, 0xC1);
    gb.write_high(0x52, 0x20);
    gb.write_high(0x53, 0x01);
    gb.write_high(0x54, 0x40);
    assert_eq!(gb.hdma_src, 0xC120);
    assert_eq!(gb.hdma_dst, 0x0140);
    gb.write_high(0x55, 0x01);
    assert_eq!(gb.hdma_len, 0x20);
    gb.run_hdma();
    assert_eq!(gb.hdma_src, 0xC140);
    assert_eq!(gb.hdma_dst, 0x0160);
    assert_eq!(gb.hdma_len, 0);
    assert_eq!(gb.hdma5, 0xFF);
    assert_eq!(gb.read_mem(0xFF55), 0xFF);
}

#[test]
fn vram_dma_is_idle_without_a_request() {
    let mut gb = console(Model::Cgb, &[0x76]);
    let src = gb.hdma_src;
    let dst = gb.hdma_dst;
    gb.run_hdma();
    assert_eq!(gb.hdma_src, src);
    assert_eq!(gb.hdma_dst, dst);
}

#[test]
fn a_new_console_starts_from_cleared_state() {
    let gb = console(Model::Dmg, &[0x76]);
    assert_eq!(gb.ppu.lcdc, 0);
    assert_eq!(gb.ppu.ly, 0);
    assert_eq!(gb.ppu.stat & 3, 2);
    assert_eq!(gb.ppu.ppu_cycles, 80);
    assert!(gb.ppu.oam.iter().all(|&b| b == 0));
    assert!(gb.ppu.vram.iter().all(|&b| b == 0));
    assert_eq!(gb.serial.sb, 0);
    assert!(!gb.dma_on);
    assert_eq!(gb.dma_cycles, 0);
    assert_eq!(gb.hdma_len, 0);
    assert_eq!(gb.svbk_true, 1);
}

#[test]
fn sc_reads_with_unused_bits_set() {
    let mut gb = console(Model::Dmg, &[0x76]);
    gb.write_high(0x02, 0x00);
    assert_eq!(gb.read_mem(0xFF02), 0x7E);
    gb.write_high(0x02, 0x01);
    assert_eq!(gb.read_mem(0xFF02), 0x7F);
}

#[test]
fn alu_on_immediate_and_memory_operands() {
    let program = [
        0x3E, 0x10, // LD A, 0x10
        0xC6, 0x05, // ADD A, 0x05
        0xD6, 0x01, // SUB 0x01
        0x21, 0x00, 0xC0, // LD HL, 0xC000
        0x36, 0x03, // LD (HL), 0x03
        0x86, // ADD A, (HL)
        0x34, // INC (HL)
        0xBE, // CP (HL)
        0x76, // HALT
    ];
    let mut gb = console(Model::Dmg, &program);
    gb.run_cpu();
    gb.run_cpu();
    assert_eq!(gb.regs.af >> 8, 0x15);
    gb.run_cpu();
    assert_eq!(gb.regs.af >> 8, 0x14);
    gb.run_cpu();
    gb.run_cpu();
    assert_eq!(gb.read_mem(0xC000), 0x03);
    gb.run_cpu();
    assert_eq!(gb.regs.af >> 8, 0x17);
    gb.run_cpu();
    assert_eq!(gb.read_mem(0xC000), 0x04);
    gb.run_cpu();
    // CP leaves A and sets N; 0x17 > 0x04 so no carry, not zero
    assert_eq!(gb.regs.af >> 8, 0x17);
    assert_eq!(gb.regs.af & 0xF0, 0x40);
}

#[test]
fn restart_pushes_and_jumps_to_its_vector() {
    let program = [
        0x31, 0xFE, 0xFF, // LD SP, 0xFFFE
        0xEF, // RST 0x28
    ];
    let mut gb = console(Model::Dmg, &program);
    gb.run_cpu();
    gb.run_cpu();
    assert_eq!(gb.regs.pc, 0x28);
    assert_eq!(gb.regs.sp, 0xFFFC);
    assert_eq!(gb.read_mem(0xFFFC), 0x04);
    assert_eq!(gb.read_mem(0xFFFD), 0x00);
}

#[test]
fn bit_res_set_on_the_byte_at_hl() {
    let program = [
        0x21, 0x00, 0xC0, // LD HL, 0xC000
        0x36, 0x81, // LD (HL), 0x81
        0xCB, 0x7E, // BIT 7, (HL)
        0xCB, 0xBE, // RES 7, (HL)
        0xCB, 0xC6, // SET 0, (HL)
        0xCB, 0xCE, // SET 1, (HL)
        0xCB, 0x7E, // BIT 7, (HL)
    ];
    let mut gb = console(Model::Dmg, &program);
    gb.run_cpu();
    gb.run_cpu();
    gb.run_cpu();
    // bit 7 set: Z clear, H set
    assert_eq!(gb.regs.af & 0xE0, 0x20);
    gb.run_cpu();
    assert_eq!(gb.read_mem(0xC000), 0x01);
    gb.run_cpu();
    assert_eq!(gb.read_mem(0xC000), 0x01);
    gb.run_cpu();
    assert_eq!(gb.read_mem(0xC000), 0x03);
    gb.run_cpu();
    // bit 7 clear: Z set, H set
    assert_eq!(gb.regs.af & 0xE0, 0xA0);
}

#[test]
fn high_page_loads_through_the_immediate_offset() {
    let program = [
        0x3E, 0x5A, // LD A, 0x5A
        0xE0, 0x80, // LDH (0x80), A
        0x3E, 0x00, // LD A, 0
        0xF0, 0x80, // LDH A, (0x80)
        0xFA, 0x80, 0xFF, // LD A, (0xFF80)
    ];
    let mut gb = console(Model::Dmg, &program);
    gb.run_cpu();
    gb.run_cpu();
    assert_eq!(gb.read_mem(0xFF80), 0x5A);
    gb.run_cpu();
    assert_eq!(gb.regs.af >> 8, 0);
    gb.run_cpu();
    assert_eq!(gb.regs.af >> 8, 0x5A);
    gb.run_cpu();
    assert_eq!(gb.regs.af >> 8, 0x5A);
    assert_eq!(gb.regs.pc, 11);
}

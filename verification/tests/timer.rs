use ceres_core::timing::{TIMAState, Timer};

fn timer(tac: u8) -> Timer {
    let mut t = Timer::new();
    t.write_tac(tac);
    t
}

#[test]
fn div_is_the_high_byte_of_the_counter() {
    let mut t = timer(0);
    for _ in 0..64 {
        t.step(false);
    }
    assert_eq!(t.wide_div_counter, 256);
    assert_eq!(t.read_div(), 1);
    t.write_div(false);
    assert_eq!(t.read_div(), 0);
}

#[test]
fn tima_counts_at_the_selected_rate() {
    // 262144 Hz: bit 3, every 16 t-cycles (4 m-cycles)
    let mut t = timer(0x05);
    for _ in 0..8 {
        t.step(false);
    }
    assert_eq!(t.tima, 2);
    // disabled: no counting
    let mut t = timer(0x01);
    for _ in 0..8 {
        t.step(false);
    }
    assert_eq!(t.tima, 0);
}

#[test]
fn overflow_reloads_tma_and_requests_interrupt_next_cycle() {
    let mut t = timer(0x05);
    t.write_tma(0xAB);
    t.write_tima(0xFF);
    let mut irqs = 0;
    let mut seen_reload = false;
    for _ in 0..4 {
        let (irq, _) = t.step(false);
        if irq {
            irqs += 1;
        }
        if t.tima_state == TIMAState::Reloading {
            seen_reload = true;
            assert_eq!(t.tima, 0xAB);
        }
    }
    assert!(seen_reload);
    assert_eq!(irqs, 0);
    let (irq, _) = t.step(false);
    assert!(irq);
    assert_eq!(t.tima, 0xAB);
}

#[test]
fn tac_reads_unused_bits_high() {
    let t = timer(0xFD);
    assert_eq!(t.read_tac(), 0xFD);
    assert!(t.tac_enable);
    let t = timer(0x03);
    assert_eq!(t.read_tac(), 0xFB);
    assert!(!t.tac_enable);
}

#[test]
fn apu_steps_on_falling_edge_of_bit_12() {
    let mut t = timer(0);
    let mut steps = 0;
    for _ in 0..2048 {
        let (_, apu) = t.step(false);
        if apu {
            steps += 1;
        }
    }
    // the counter went 0 -> 8192: bit 12 fell once
    assert_eq!(steps, 1);
}

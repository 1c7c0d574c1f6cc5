use ceres_core::cpu::alu;

const Z: u16 = 0x80;
const N: u16 = 0x40;
const H: u16 = 0x20;
const C: u16 = 0x10;

fn af(a: u8, f: u16) -> u16 {
    (a as u16) << 8 | f
}

#[test]
fn add_sets_half_carry_and_carry() {
    assert_eq!(alu::add(af(0x3A, 0), 0xC6), af(0x00, Z | H | C));
    assert_eq!(alu::add(af(0x3C, 0), 0xFF), af(0x3B, H | C));
    assert_eq!(alu::add(af(0x3C, 0), 0x12), af(0x4E, 0));
}

#[test]
fn adc_adds_the_carry() {
    assert_eq!(alu::adc(af(0xE1, C), 0x0F), af(0xF1, H));
    assert_eq!(alu::adc(af(0xE1, C), 0x3B), af(0x1D, C));
    assert_eq!(alu::adc(af(0xE1, C), 0x1E), af(0x00, Z | H | C));
}

#[test]
fn sub_and_cp_flags() {
    assert_eq!(alu::sub(af(0x3E, 0), 0x3E), af(0x00, Z | N));
    assert_eq!(alu::sub(af(0x3E, 0), 0x0F), af(0x2F, N | H));
    assert_eq!(alu::sub(af(0x3E, 0), 0x40), af(0xFE, N | C));
    assert_eq!(alu::cp(af(0x3C, 0), 0x2F), af(0x3C, N | H));
    assert_eq!(alu::cp(af(0x3C, 0), 0x3C), af(0x3C, Z | N));
    assert_eq!(alu::cp(af(0x3C, 0), 0x40), af(0x3C, N | C));
}

#[test]
fn sbc_subtracts_the_carry() {
    assert_eq!(alu::sbc(af(0x3B, C), 0x2A), af(0x10, N));
    assert_eq!(alu::sbc(af(0x3B, C), 0x3A), af(0x00, Z | N));
    assert_eq!(alu::sbc(af(0x3B, C), 0x4F), af(0xEB, N | H | C));
}

#[test]
fn logic_ops() {
    assert_eq!(alu::and(af(0x5A, C), 0x3F), af(0x1A, H));
    assert_eq!(alu::and(af(0x5A, 0), 0x00), af(0x00, Z | H));
    assert_eq!(alu::or(af(0x5A, C), 0x0F), af(0x5F, 0));
    assert_eq!(alu::xor(af(0xFF, C), 0xFF), af(0x00, Z));
    assert_eq!(alu::xor(af(0xFF, 0), 0x0F), af(0xF0, 0));
}

#[test]
fn inc_and_dec_keep_the_carry() {
    assert_eq!(alu::inc8(af(0x12, C), 0xFF), (0x00, af(0x12, Z | H | C)));
    assert_eq!(alu::inc8(af(0x12, 0), 0x50), (0x51, af(0x12, 0)));
    assert_eq!(alu::dec8(af(0x12, C), 0x01), (0x00, af(0x12, Z | N | C)));
    assert_eq!(alu::dec8(af(0x12, 0), 0x00), (0xFF, af(0x12, N | H)));
}

#[test]
fn accumulator_rotations() {
    assert_eq!(alu::rlca(af(0x85, 0)), af(0x0B, C));
    assert_eq!(alu::rrca(af(0x3B, 0)), af(0x9D, C));
    assert_eq!(alu::rla(af(0x95, C)), af(0x2B, C));
    assert_eq!(alu::rra(af(0x81, 0)), af(0x40, C));
}

#[test]
fn daa_after_addition_and_subtraction() {
    // 0x45 + 0x38 = 0x7D, adjusted to 83
    let a = alu::add(af(0x45, 0), 0x38);
    assert_eq!(alu::daa(a), af(0x83, 0));
    // 0x83 - 0x38 = 0x4B, adjusted to 45
    let s = alu::sub(af(0x83, 0), 0x38);
    assert_eq!(alu::daa(s) >> 8, 0x45);
    // 0x99 + 0x01 gives 00 with carry
    let o = alu::add(af(0x99, 0), 0x01);
    assert_eq!(alu::daa(o), af(0x00, Z | C));
}

#[test]
fn cpl_ccf_scf() {
    assert_eq!(alu::cpl(af(0x35, 0)), af(0xCA, N | H));
    assert_eq!(alu::ccf(af(0x35, C | N | H)), af(0x35, 0));
    assert_eq!(alu::ccf(af(0x35, Z)), af(0x35, Z | C));
    assert_eq!(alu::scf(af(0x35, N)), af(0x35, C));
}

#[test]
fn sixteen_bit_additions() {
    assert_eq!(alu::add_hl(af(0, Z), 0x8A23, 0x0605), (0x9028, af(0, Z | H)));
    assert_eq!(alu::add_hl(af(0, 0), 0x8A23, 0x8A23), (0x1446, af(0, H | C)));
    assert_eq!(alu::add_sp(af(0, Z), 0xFFF8, 0x02), (0xFFFA, af(0, 0)));
    // offsets are signed
    assert_eq!(alu::add_sp(af(0, 0), 0x0005, 0xFE).0, 0x0003);
}

#[test]
fn cb_shifts() {
    assert_eq!(alu::cb_shift(0, af(0, 0), 0x85), (0x0B, af(0, C)));
    assert_eq!(alu::cb_shift(1, af(0, 0), 0x01), (0x80, af(0, C)));
    assert_eq!(alu::cb_shift(2, af(0, 0), 0x80), (0x00, af(0, Z | C)));
    assert_eq!(alu::cb_shift(3, af(0, 0), 0x01), (0x00, af(0, Z | C)));
    assert_eq!(alu::cb_shift(4, af(0, 0), 0xFF), (0xFE, af(0, C)));
    assert_eq!(alu::cb_shift(5, af(0, 0), 0x8A), (0xC5, af(0, 0)));
    assert_eq!(alu::cb_shift(6, af(0, 0), 0xF1), (0x1F, af(0, 0)));
    assert_eq!(alu::cb_shift(6, af(0, 0), 0x00), (0x00, af(0, Z)));
    assert_eq!(alu::cb_shift(7, af(0, 0), 0x01), (0x00, af(0, Z | C)));
}

#[test]
fn swap_twice_gives_the_byte_back() {
    for v in 0..=255u8 {
        let (once, f) = alu::cb_shift(6, 0, v);
        assert_eq!(alu::cb_shift(6, f, once).0, v);
    }
}

#[test]
fn rotate_left_then_right_gives_the_byte_back() {
    for v in 0..=255u8 {
        let (l, f) = alu::cb_shift(0, 0, v);
        assert_eq!(alu::cb_shift(1, f, l).0, v);
        let (l, f) = alu::cb_shift(2, C, v);
        let (r, f2) = alu::cb_shift(3, f, l);
        assert_eq!(r, v);
        assert_eq!(f2 & C, C);
    }
}

#[test]
fn cp_sets_the_flags_of_sub() {
    for a in [0u8, 1, 0x0F, 0x10, 0x80, 0xFF] {
        for v in [0u8, 1, 0x0F, 0x10, 0x80, 0xFF] {
            assert_eq!(alu::cp(af(a, 0), v) & 0xFF, alu::sub(af(a, 0), v) & 0xFF);
        }
    }
}

#[test]
fn xor_a_with_itself_clears_it() {
    assert_eq!(alu::xor(af(0x5C, C | H), 0x5C), Z);
}

#[test]
fn add_then_sub_gives_the_accumulator_back() {
    let s = alu::add(af(0xF0, 0), 0x20);
    assert_eq!(alu::sub(s, 0x20) >> 8, 0xF0);
}

#[test]
fn bit_and_conditions() {
    assert_eq!(alu::bit(af(0x12, C), 7, 0x80), af(0x12, H | C));
    assert_eq!(alu::bit(af(0x12, 0), 4, 0xEF), af(0x12, Z | H));
    assert!(alu::condition(af(0, 0), 0xC2));
    assert!(!alu::condition(af(0, Z), 0xC2));
    assert!(alu::condition(af(0, Z), 0xCA));
    assert!(alu::condition(af(0, 0), 0xD2));
    assert!(alu::condition(af(0, C), 0xDA));
}

use marty_core::cpu::alu::{math_op16, math_op8, parity8};
use marty_core::cpu::bcd::{aaa, aad, aam, aas, daa, das};
use marty_core::cpu::instruction::Mnemonic;
use marty_core::cpu::muldiv::{
    divide_i16, divide_i8, divide_u16, divide_u8, multiply_i16, multiply_i8, multiply_u16,
    multiply_u8,
};
use marty_core::cpu::registers::{
    hi8, lo8, reg8to16, register16_lut, word_of, Flag, Flags, Register16, Register8, Registers,
};
use marty_core::cpu::shift::{bitshift_op16, bitshift_op8};

fn flags() -> Flags {
    Flags::new()
}

#[test]
fn add8_sets_carry_overflow_and_aux() {
    let mut f = flags();
    assert_eq!(math_op8(&mut f, Mnemonic::ADD, 0x7F, 0x01), 0x80);
    assert!(f.overflow && f.sign && f.aux_carry && !f.carry && !f.zero);
    assert!(!f.parity);

    let mut f = flags();
    assert_eq!(math_op8(&mut f, Mnemonic::ADD, 0x80, 0x80), 0x00);
    assert!(f.overflow && f.carry && f.zero && !f.sign && !f.aux_carry && f.parity);

    let mut f = flags();
    assert_eq!(math_op8(&mut f, Mnemonic::ADD, 0x12, 0x34), 0x46);
    assert!(!f.overflow && !f.carry && !f.zero && !f.sign && !f.aux_carry);
    // 0x46 = 0100_0110 has three one bits
    assert!(!f.parity);
}

#[test]
fn adc_and_sbb_use_the_carry() {
    let mut f = flags();
    f.carry = true;
    assert_eq!(math_op8(&mut f, Mnemonic::ADC, 0xFF, 0x00), 0x00);
    assert!(f.carry && f.zero && f.aux_carry && !f.overflow);

    let mut f = flags();
    f.carry = true;
    assert_eq!(math_op8(&mut f, Mnemonic::SBB, 0x00, 0x00), 0xFF);
    assert!(f.carry && f.sign && f.aux_carry && !f.overflow && !f.zero && f.parity);

    let mut f = flags();
    f.carry = true;
    assert_eq!(math_op16(&mut f, Mnemonic::ADC, 0x7FFF, 0x0000), 0x8000);
    assert!(f.overflow && f.sign && !f.carry && f.aux_carry);

    let mut f = flags();
    f.carry = true;
    assert_eq!(math_op16(&mut f, Mnemonic::SBB, 0x8000, 0x0000), 0x7FFF);
    assert!(f.overflow && !f.sign && !f.carry && f.aux_carry);
}

#[test]
fn sub_cmp_and_neg() {
    let mut f = flags();
    assert_eq!(math_op8(&mut f, Mnemonic::SUB, 0x10, 0x20), 0xF0);
    assert!(f.carry && f.sign && !f.overflow && !f.zero && !f.aux_carry && f.parity);

    let mut f = flags();
    assert_eq!(math_op8(&mut f, Mnemonic::CMP, 0x80, 0x01), 0x7F);
    assert!(!f.carry && !f.sign && f.overflow && f.aux_carry);

    let mut f = flags();
    assert_eq!(math_op8(&mut f, Mnemonic::NEG, 0x01, 0x55), 0xFF);
    assert!(f.carry && f.sign && f.aux_carry && !f.overflow);

    let mut f = flags();
    assert_eq!(math_op8(&mut f, Mnemonic::NEG, 0x80, 0), 0x80);
    assert!(f.carry && f.overflow);

    let mut f = flags();
    assert_eq!(math_op8(&mut f, Mnemonic::NEG, 0x00, 0), 0x00);
    assert!(!f.carry && f.zero);

    let mut f = flags();
    assert_eq!(math_op16(&mut f, Mnemonic::SUB, 0x0000, 0x0001), 0xFFFF);
    assert!(f.carry && f.sign && f.aux_carry && f.parity);
}

#[test]
fn logic_ops_clear_carry_and_overflow() {
    for m in [Mnemonic::AND, Mnemonic::OR, Mnemonic::XOR, Mnemonic::TEST] {
        let mut f = flags();
        f.carry = true;
        f.overflow = true;
        f.aux_carry = true;
        let r = math_op8(&mut f, m, 0xF0, 0x3C);
        let expected = match m {
            Mnemonic::AND | Mnemonic::TEST => 0x30,
            Mnemonic::OR => 0xFC,
            _ => 0xCC,
        };
        assert_eq!(r, expected);
        assert!(!f.carry && !f.overflow && !f.aux_carry);
        assert_eq!(f.zero, r == 0);
        assert_eq!(f.sign, r >= 0x80);
        assert_eq!(f.parity, r.count_ones() % 2 == 0);
    }
    let mut f = flags();
    assert_eq!(math_op16(&mut f, Mnemonic::XOR, 0xFFFF, 0xFFFF), 0);
    assert!(f.zero && f.parity && !f.sign);
    let mut f = flags();
    assert_eq!(math_op16(&mut f, Mnemonic::OR, 0x8000, 0x0001), 0x8001);
    // the parity flag looks at the low byte only
    assert!(f.sign && !f.parity);
}

#[test]
fn not_changes_no_flag() {
    let mut f = flags();
    f.carry = true;
    f.zero = true;
    let before = f;
    assert_eq!(math_op8(&mut f, Mnemonic::NOT, 0x0F, 0), 0xF0);
    assert_eq!(f, before);
    assert_eq!(math_op16(&mut f, Mnemonic::NOT, 0x00FF, 0), 0xFF00);
    assert_eq!(f, before);
}

#[test]
fn zero_and_parity_follow_the_result_for_all_byte_pairs() {
    for m in [
        Mnemonic::ADD,
        Mnemonic::ADC,
        Mnemonic::SUB,
        Mnemonic::SBB,
        Mnemonic::CMP,
        Mnemonic::AND,
        Mnemonic::OR,
        Mnemonic::XOR,
        Mnemonic::TEST,
        Mnemonic::NEG,
        Mnemonic::INC,
        Mnemonic::DEC,
    ] {
        for a in (0..=255u8).step_by(5) {
            for b in (0..=255u8).step_by(7) {
                let mut f = flags();
                let r = math_op8(&mut f, m, a, b);
                assert_eq!(f.zero, r == 0);
                assert_eq!(f.parity, r.count_ones() % 2 == 0);
                assert_eq!(f.sign, r & 0x80 != 0);
                let mut g = flags();
                let w = math_op16(&mut g, m, (a as u16) << 8 | b as u16, (b as u16) << 8 | a as u16);
                assert_eq!(g.zero, w == 0);
                assert_eq!(g.parity, (w as u8).count_ones() % 2 == 0);
                assert_eq!(g.sign, w & 0x8000 != 0);
            }
        }
    }
}

#[test]
fn add_and_sub_match_the_wide_arithmetic() {
    for a in (0..=255u8).step_by(3) {
        for b in (0..=255u8).step_by(11) {
            let mut f = flags();
            let r = math_op8(&mut f, Mnemonic::ADD, a, b);
            assert_eq!(r, a.wrapping_add(b));
            assert_eq!(f.carry, a as u16 + b as u16 > 0xFF);
            assert_eq!(f.overflow, (a as i8).checked_add(b as i8).is_none());
            assert_eq!(f.aux_carry, (a & 0xF) + (b & 0xF) > 0xF);
            let mut f = flags();
            let r = math_op8(&mut f, Mnemonic::SUB, a, b);
            assert_eq!(r, a.wrapping_sub(b));
            assert_eq!(f.carry, a < b);
            assert_eq!(f.overflow, (a as i8).checked_sub(b as i8).is_none());
            assert_eq!(f.aux_carry, (a & 0xF) < (b & 0xF));
        }
    }
}

#[test]
fn parity_of_bytes() {
    assert!(parity8(0x00));
    assert!(!parity8(0x01));
    assert!(parity8(0x03));
    assert!(!parity8(0x80));
    assert!(parity8(0xFF));
    for v in 0..=255u8 {
        assert_eq!(parity8(v), v.count_ones() % 2 == 0);
    }
}

#[test]
fn shifts_by_one() {
    let mut f = flags();
    assert_eq!(bitshift_op8(&mut f, Mnemonic::SHL, 0x81, 1), 0x02);
    assert!(f.carry && f.overflow && !f.zero && !f.sign);
    let mut f = flags();
    assert_eq!(bitshift_op8(&mut f, Mnemonic::SHR, 0x81, 1), 0x40);
    assert!(f.carry && f.overflow && !f.sign);
    let mut f = flags();
    assert_eq!(bitshift_op8(&mut f, Mnemonic::SAR, 0x81, 1), 0xC0);
    assert!(f.carry && !f.overflow && f.sign);
    let mut f = flags();
    assert_eq!(bitshift_op16(&mut f, Mnemonic::SHL, 0x4000, 1), 0x8000);
    assert!(!f.carry && f.overflow && f.sign);
    let mut f = flags();
    assert_eq!(bitshift_op16(&mut f, Mnemonic::SAR, 0x8001, 1), 0xC000);
    assert!(f.carry && f.sign && f.parity);
}

#[test]
fn rotates_by_one() {
    let mut f = flags();
    assert_eq!(bitshift_op8(&mut f, Mnemonic::ROL, 0x81, 1), 0x03);
    assert!(f.carry && f.overflow);
    let mut f = flags();
    assert_eq!(bitshift_op8(&mut f, Mnemonic::ROR, 0x01, 1), 0x80);
    assert!(f.carry && f.overflow);
    let mut f = flags();
    f.carry = true;
    assert_eq!(bitshift_op8(&mut f, Mnemonic::RCL, 0x40, 1), 0x81);
    assert!(!f.carry && f.overflow);
    let mut f = flags();
    f.carry = true;
    assert_eq!(bitshift_op8(&mut f, Mnemonic::RCR, 0x01, 1), 0x80);
    assert!(f.carry && f.overflow);
    let mut f = flags();
    assert_eq!(bitshift_op16(&mut f, Mnemonic::ROL, 0x8000, 1), 0x0001);
    assert!(f.carry);
    let mut f = flags();
    assert_eq!(bitshift_op16(&mut f, Mnemonic::RCR, 0x0001, 1), 0x0000);
    assert!(f.carry);
}

#[test]
fn rotates_leave_zero_sign_and_parity_alone() {
    let mut f = flags();
    f.zero = true;
    f.sign = true;
    f.parity = true;
    bitshift_op8(&mut f, Mnemonic::ROL, 0x12, 3);
    assert!(f.zero && f.sign && f.parity);
}

#[test]
fn shifts_by_a_count() {
    for v in [0x00u8, 0x01, 0x5A, 0x80, 0xFF] {
        for count in 0..=9u8 {
            let mut f = flags();
            let r = bitshift_op8(&mut f, Mnemonic::SHL, v, count);
            let expected = if count >= 8 { 0 } else { v << count };
            assert_eq!(r, expected);
            let mut f = flags();
            let r = bitshift_op8(&mut f, Mnemonic::SHR, v, count);
            let expected = if count >= 8 { 0 } else { v >> count };
            assert_eq!(r, expected);
            let mut f = flags();
            let r = bitshift_op8(&mut f, Mnemonic::SAR, v, count);
            let expected = if count >= 8 { ((v as i8) >> 7) as u8 } else { ((v as i8) >> count) as u8 };
            assert_eq!(r, expected);
            let mut f = flags();
            let r = bitshift_op8(&mut f, Mnemonic::ROL, v, count);
            assert_eq!(r, v.rotate_left(count as u32));
            let mut f = flags();
            let r = bitshift_op8(&mut f, Mnemonic::ROR, v, count);
            assert_eq!(r, v.rotate_right(count as u32));
        }
    }
    let mut f = flags();
    assert_eq!(bitshift_op16(&mut f, Mnemonic::SHL, 0x1234, 4), 0x2340);
    assert!(f.carry);
    let mut f = flags();
    assert_eq!(bitshift_op16(&mut f, Mnemonic::ROR, 0x1234, 4), 0x4123);
    let mut f = flags();
    f.carry = true;
    // nine bits go round: 1_0000_0001 rotated left by 9 is itself
    assert_eq!(bitshift_op8(&mut f, Mnemonic::RCL, 0x01, 9), 0x01);
    assert!(f.carry);
}

#[test]
fn a_count_of_zero_changes_nothing() {
    for m in [
        Mnemonic::ROL,
        Mnemonic::ROR,
        Mnemonic::RCL,
        Mnemonic::RCR,
        Mnemonic::SHL,
        Mnemonic::SHR,
        Mnemonic::SAR,
    ] {
        let mut f = flags();
        f.carry = true;
        f.overflow = true;
        f.zero = true;
        let before = f;
        assert_eq!(bitshift_op8(&mut f, m, 0xA5, 0), 0xA5);
        assert_eq!(f, before);
        assert_eq!(bitshift_op16(&mut f, m, 0xA5A5, 0), 0xA5A5);
        assert_eq!(f, before);
    }
}

#[test]
fn flag_word_round_trip() {
    let mut f = flags();
    assert_eq!(f.load_flags(), 0xF002);
    f.set_flag(Flag::Carry);
    f.set_flag(Flag::Zero);
    f.set_flag(Flag::Interrupt);
    assert_eq!(f.load_flags(), 0xF002 | 0x0001 | 0x0040 | 0x0200);
    assert!(f.get_flag(Flag::Zero));
    f.clear_flag(Flag::Zero);
    assert!(!f.get_flag(Flag::Zero));
    let mut g = flags();
    g.store_flags(0x0FD5);
    assert!(g.carry && g.parity && g.aux_carry && g.zero && g.sign);
    assert!(g.trap && g.interrupt && g.direction && g.overflow);
    assert_eq!(g.load_flags(), 0xFFD7);
    for word in [0x0000u16, 0x0001, 0x0895, 0xFFFF, 0x0400] {
        let mut h = flags();
        h.store_flags(word);
        let stored = h.load_flags();
        let mut k = flags();
        k.store_flags(stored);
        assert_eq!(h, k);
        assert_eq!(stored & 0x0FD5, word & 0x0FD5);
    }
    let mut l = flags();
    l.overflow = true;
    l.store_low_byte(0xD5);
    assert!(l.carry && l.parity && l.aux_carry && l.zero && l.sign && l.overflow);
    l.store_low_byte(0x00);
    assert!(!l.carry && !l.parity && !l.aux_carry && !l.zero && !l.sign && l.overflow);
}

#[test]
fn register_halves() {
    let mut r = Registers::new();
    r.set_register16(Register16::BX, 0x1234);
    assert_eq!(r.get_register8(Register8::BL), 0x34);
    assert_eq!(r.get_register8(Register8::BH), 0x12);
    r.set_register8(Register8::BH, 0xAB);
    assert_eq!(r.bx, 0xAB34);
    r.set_register8(Register8::BL, 0xCD);
    assert_eq!(r.bx, 0xABCD);
    r.set_register8(Register8::AL, 0x11);
    r.set_register8(Register8::AH, 0x22);
    r.set_register8(Register8::CL, 0x33);
    r.set_register8(Register8::CH, 0x44);
    r.set_register8(Register8::DL, 0x55);
    r.set_register8(Register8::DH, 0x66);
    assert_eq!((r.ax, r.cx, r.dx, r.bx), (0x2211, 0x4433, 0x6655, 0xABCD));
    assert_eq!(r.al(), 0x11);
    assert_eq!(r.ah(), 0x22);
    assert_eq!(r.cl(), 0x33);
    r.set_register16(Register16::InvalidRegister, 0x9999);
    assert_eq!(r.get_register16(Register16::InvalidRegister), 0);
    assert_eq!((r.ax, r.cx, r.dx, r.bx), (0x2211, 0x4433, 0x6655, 0xABCD));
    assert_eq!(lo8(0xABCD), 0xCD);
    assert_eq!(hi8(0xABCD), 0xAB);
    assert_eq!(word_of(0xAB, 0xCD), 0xABCD);
    assert_eq!(reg8to16(Register8::DH), Register16::DX);
    assert_eq!(register16_lut(4), Register16::SP);
    assert_eq!(register16_lut(7), Register16::DI);
}

#[test]
fn multiply_and_divide_on_registers() {
    let mut r = Registers::new();
    r.ax = 0x00FF;
    multiply_u8(&mut r, 0xFF);
    assert_eq!(r.ax, 0xFE01);
    assert!(r.flags.carry && r.flags.overflow);

    r.ax = 0x0080; // -128
    multiply_i8(&mut r, 0x80); // * -128
    assert_eq!(r.ax, 0x4000);
    assert!(r.flags.carry && r.flags.overflow);

    r.ax = 0x00FF; // -1
    multiply_i8(&mut r, 0x7F); // * 127
    assert_eq!(r.ax, (-127i16) as u16);
    assert!(!r.flags.carry && !r.flags.overflow);

    r.ax = 0xFFFF;
    multiply_u16(&mut r, 0xFFFF);
    assert_eq!((r.dx, r.ax), (0xFFFE, 0x0001));

    r.ax = 0x8000;
    multiply_i16(&mut r, 0x8000);
    assert_eq!((r.dx, r.ax), (0x4000, 0x0000));

    r.ax = 0xFFFF; // -1
    multiply_i16(&mut r, 0x0001);
    assert_eq!((r.dx, r.ax), (0xFFFF, 0xFFFF));
    assert!(!r.flags.carry && !r.flags.overflow);

    let mut r = Registers::new();
    r.ax = 0x00FF;
    assert!(divide_u8(&mut r, 0x01));
    assert_eq!(r.ax, 0x00FF);
    r.ax = 0x0100;
    assert!(!divide_u8(&mut r, 0x01));
    assert_eq!(r.ax, 0x0100);
    assert!(!divide_u8(&mut r, 0));

    r.ax = 0x007F;
    assert!(divide_i8(&mut r, 0xFF)); // 127 / -1 = -127
    assert_eq!(r.ax, 0x0081);
    r.ax = 0x0080;
    assert!(!divide_i8(&mut r, 0x01)); // 128 does not fit
    assert_eq!(r.ax, 0x0080);
    r.ax = (-7i16) as u16;
    assert!(divide_i8(&mut r, 0x02)); // -7 / 2 = -3 remainder -1
    assert_eq!(r.ax, 0xFFFD);

    r.dx = 0x0001;
    r.ax = 0x0000;
    assert!(!divide_u16(&mut r, 0x0001));
    assert_eq!((r.dx, r.ax), (0x0001, 0x0000));
    assert!(divide_u16(&mut r, 0x0002));
    assert_eq!((r.dx, r.ax), (0x0000, 0x8000));

    r.dx = 0xFFFF;
    r.ax = 0x8000; // -32768
    assert!(!divide_i16(&mut r, 0x0001));
    assert_eq!((r.dx, r.ax), (0xFFFF, 0x8000));
    r.ax = 0x8001; // -32767
    assert!(divide_i16(&mut r, 0xFFFF)); // / -1 = 32767
    assert_eq!((r.dx, r.ax), (0x0000, 0x7FFF));
    assert!(!divide_i16(&mut r, 0));
}

#[test]
fn bcd_adjustments() {
    let mut r = Registers::new();
    r.ax = 0x00AE;
    r.flags.carry = false;
    r.flags.aux_carry = false;
    daa(&mut r);
    // 0xAE: low digit above nine adds 6, old value above 0x99 adds 0x60
    assert_eq!(r.ax, 0x0014);
    assert!(r.flags.carry && r.flags.aux_carry);

    let mut r = Registers::new();
    r.ax = 0x0003;
    r.flags.carry = false;
    r.flags.aux_carry = true;
    das(&mut r);
    // 3 - 6 borrows
    assert_eq!(r.ax, 0x00FD);
    assert!(r.flags.carry && r.flags.aux_carry && r.flags.sign);

    let mut r = Registers::new();
    r.ax = 0xFF0A;
    aaa(&mut r);
    assert_eq!(r.ax, 0x0000);
    let mut r = Registers::new();
    r.ax = 0x0005;
    aaa(&mut r);
    assert_eq!(r.ax, 0x0005);
    assert!(!r.flags.carry && !r.flags.aux_carry);

    let mut r = Registers::new();
    r.ax = 0x0005;
    r.flags.aux_carry = true;
    aas(&mut r);
    assert_eq!(r.ax, 0xFF0F);
    assert!(r.flags.carry);

    let mut r = Registers::new();
    r.ax = 0x12FF;
    aam(&mut r, 16);
    assert_eq!(r.ax, 0x0F0F);
    let mut r = Registers::new();
    r.ax = 0x0909;
    aad(&mut r, 10);
    assert_eq!(r.ax, 99);
    let mut r = Registers::new();
    r.ax = 0xFFFF;
    aad(&mut r, 0xFF);
    // 255 + 255 * 255 = 65280 = 0xFF00
    assert_eq!(r.ax, 0x0000);
    assert!(r.flags.zero);
}

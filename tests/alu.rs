use rustboy::alu::{alu_add, alu_add_hl, alu_cp, alu_dec, alu_inc, alu_or, alu_sub, carry_add, carry_sub};
use rustboy::registers::{Flag, Registers};

#[test]
fn alu_test_alu_cp() {
    let mut reg = Registers::new();
    reg.a = 0b11010010;
    let n: u8 = 0b00101001;
    alu_cp(&mut reg, n);
    assert!(!reg.get_flag(Flag::Z));
    assert!(reg.get_flag(Flag::N));
    assert!(reg.get_flag(Flag::H));
    assert!(!reg.get_flag(Flag::C));
}

#[test]
fn alu_test_alu_cp_2() {
    let mut reg = Registers::new();
    reg.a = 0b01011001;
    let n: u8 = 0b10000100;
    alu_cp(&mut reg, n);
    assert!(!reg.get_flag(Flag::Z));
    assert!(reg.get_flag(Flag::N));
    assert!(!reg.get_flag(Flag::H));
    assert!(reg.get_flag(Flag::C));
}

#[test]
fn alu_test_alu_add_hl() {
    let mut reg = Registers::new();
    reg.set_hl(0x0FFF);
    let n = 0x0FFE;
    alu_add_hl(&mut reg, n);
    assert!(!reg.get_flag(Flag::N));
    assert!(reg.get_flag(Flag::H));
    assert!(!reg.get_flag(Flag::C));
}

#[test]
fn alu_test_alu_add_hl_2() {
    let mut reg = Registers::new();
    reg.set_hl(0xF000);
    let n = 0xFFFF;
    alu_add_hl(&mut reg, n);
    assert!(!reg.get_flag(Flag::N));
    assert!(!reg.get_flag(Flag::H));
    assert!(reg.get_flag(Flag::C));
}

#[test]
fn add_hl_stores_wrapped_sum_and_keeps_zero() {
    let mut reg = Registers::new();
    reg.set_flag(Flag::Z, true);
    reg.set_hl(0xF000);
    alu_add_hl(&mut reg, 0xFFFF);
    assert_eq!(reg.hl(), 0xEFFF);
    assert!(reg.get_flag(Flag::Z));
}

#[test]
fn carry_add_exhaustive() {
    for a in 0..=255u8 {
        for b in 0..=255u8 {
            let (r, h, c) = carry_add(a, b);
            let sum = a as u16 + b as u16;
            assert_eq!(r, sum as u8);
            assert_eq!(c, sum > 255);
            assert_eq!(h, (a & 0xF) + (b & 0xF) > 0xF);
        }
    }
}

#[test]
fn carry_sub_exhaustive() {
    for a in 0..=255u8 {
        for b in 0..=255u8 {
            let (r, h, c) = carry_sub(a, b);
            assert_eq!(r, a.wrapping_sub(b));
            assert_eq!(c, a < b);
            assert_eq!(h, (a & 0xF) < (b & 0xF));
        }
    }
}

#[test]
fn carry_add_values() {
    assert_eq!(carry_add(0x0F, 0x01), (0x10, true, false));
    assert_eq!(carry_add(0xFF, 0x01), (0x00, true, true));
    assert_eq!(carry_add(0x12, 0x34), (0x46, false, false));
}

#[test]
fn carry_sub_values() {
    assert_eq!(carry_sub(0x10, 0x01), (0x0F, true, false));
    assert_eq!(carry_sub(0x00, 0x01), (0xFF, true, true));
    assert_eq!(carry_sub(0x46, 0x34), (0x12, false, false));
}

#[test]
fn add_sets_a_and_flags() {
    let mut reg = Registers::new();
    reg.a = 0xF0;
    alu_add(&mut reg, 0x10);
    assert_eq!(reg.a, 0x00);
    assert!(reg.get_flag(Flag::Z));
    assert!(!reg.get_flag(Flag::N));
    assert!(!reg.get_flag(Flag::H));
    assert!(reg.get_flag(Flag::C));
}

#[test]
fn sub_sets_a_and_flags() {
    let mut reg = Registers::new();
    reg.a = 0x10;
    alu_sub(&mut reg, 0x01);
    assert_eq!(reg.a, 0x0F);
    assert!(!reg.get_flag(Flag::Z));
    assert!(reg.get_flag(Flag::N));
    assert!(reg.get_flag(Flag::H));
    assert!(!reg.get_flag(Flag::C));
}

#[test]
fn inc_keeps_carry_set() {
    let mut reg = Registers::new();
    reg.set_flag(Flag::C, true);
    let r = alu_inc(&mut reg, 0xFF);
    assert_eq!(r, 0x00);
    assert!(reg.get_flag(Flag::C));
    assert!(reg.get_flag(Flag::Z));
    assert!(reg.get_flag(Flag::H));
    assert!(!reg.get_flag(Flag::N));
}

#[test]
fn dec_keeps_carry_set() {
    let mut reg = Registers::new();
    reg.set_flag(Flag::C, true);
    let r = alu_dec(&mut reg, 0x01);
    assert_eq!(r, 0x00);
    assert!(reg.get_flag(Flag::C));
    assert!(reg.get_flag(Flag::Z));
    assert!(!reg.get_flag(Flag::H));
    assert!(reg.get_flag(Flag::N));
}

#[test]
fn dec_keeps_carry_clear() {
    let mut reg = Registers::new();
    reg.set_flag(Flag::C, false);
    let r = alu_dec(&mut reg, 0x00);
    assert_eq!(r, 0xFF);
    assert!(!reg.get_flag(Flag::C));
    assert!(reg.get_flag(Flag::H));
}

#[test]
fn or_clears_half_carry_and_carry() {
    let mut reg = Registers::new();
    reg.a = 0x00;
    reg.f = 0xF0;
    alu_or(&mut reg, 0x00);
    assert_eq!(reg.a, 0x00);
    assert!(reg.get_flag(Flag::Z));
    assert!(!reg.get_flag(Flag::N));
    assert!(!reg.get_flag(Flag::H));
    assert!(!reg.get_flag(Flag::C));
    alu_or(&mut reg, 0x5A);
    assert_eq!(reg.a, 0x5A);
    assert!(!reg.get_flag(Flag::Z));
}

#[test]
fn cp_keeps_accumulator() {
    let mut reg = Registers::new();
    reg.a = 0x42;
    alu_cp(&mut reg, 0x42);
    assert_eq!(reg.a, 0x42);
    assert!(reg.get_flag(Flag::Z));
}

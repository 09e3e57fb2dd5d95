use rustboy::cpu::{call_instruction, next_byte, next_word, signed_add, step};
use rustboy::fault::{AccessKind, Fault};
use rustboy::instruction::{decode, Instruction};
use rustboy::mmu::{read_byte, read_word, Memory};
use rustboy::registers::{Flag, Pair, Registers};

fn machine(program: &[u8]) -> (Registers, Box<Memory>) {
    let reg = Registers::new();
    let mut mem: Box<Memory> = Box::new([0; 65536]);
    for (i, b) in program.iter().enumerate() {
        mem[0x0100 + i] = *b;
    }
    (reg, mem)
}

#[test]
fn load_bc_immediate_end_to_end() {
    let (mut reg, mut mem) = machine(&[0x01, 0x45, 0x23]);
    let cycles = step(&mut reg, &mut mem[..]);
    assert_eq!(cycles, Ok(3));
    assert_eq!(reg.bc(), 0x2345);
    assert_eq!(reg.pc, 0x0103);
}

#[test]
fn unsupported_opcode_leaves_state_unchanged() {
    let (mut reg, mut mem) = machine(&[0x3E, 0x42]);
    let before_reg = reg;
    let before_mem = mem.clone();
    let res = step(&mut reg, &mut mem[..]);
    assert_eq!(res, Err(Fault::UnsupportedOpcode { opcode: 0x3E, address: 0x0100 }));
    assert_eq!(reg, before_reg);
    assert!(mem[..] == before_mem[..]);
}

#[test]
fn call_instruction_reports_opcode_address() {
    let (mut reg, mut mem) = machine(&[]);
    reg.pc = 0x0201;
    let before = reg;
    let res = call_instruction(0xFC, &mut reg, &mut mem[..]);
    assert_eq!(res, Err(Fault::UnsupportedOpcode { opcode: 0xFC, address: 0x0200 }));
    assert_eq!(reg, before);
}

#[test]
fn next_byte_and_word_advance_the_counter() {
    let (mut reg, mut mem) = machine(&[0x12, 0x34, 0x56]);
    assert_eq!(next_byte(&mut reg, &mut mem[..]), 0x12);
    assert_eq!(reg.pc, 0x0101);
    assert_eq!(next_word(&mut reg, &mem[..]), 0x5634);
    assert_eq!(reg.pc, 0x0103);
}

#[test]
fn signed_add_wraps_both_ways() {
    assert_eq!(signed_add(0x0100, -2), 0x00FE);
    assert_eq!(signed_add(0x0000, -1), 0xFFFF);
    assert_eq!(signed_add(0xFFFF, 1), 0x0000);
    assert_eq!(signed_add(0x1000, 127), 0x107F);
}

#[test]
fn relative_jump_is_from_the_next_instruction() {
    let (mut reg, mut mem) = machine(&[0x18, 0xFE]);
    assert_eq!(step(&mut reg, &mut mem[..]), Ok(3));
    assert_eq!(reg.pc, 0x0100);
    let (mut reg, mut mem) = machine(&[0x18, 0x05]);
    assert_eq!(step(&mut reg, &mut mem[..]), Ok(3));
    assert_eq!(reg.pc, 0x0107);
}

#[test]
fn conditional_relative_jump_taken_and_not_taken() {
    let (mut reg, mut mem) = machine(&[0x20, 0x10]);
    reg.set_flag(Flag::Z, false);
    assert_eq!(step(&mut reg, &mut mem[..]), Ok(3));
    assert_eq!(reg.pc, 0x0112);
    let (mut reg, mut mem) = machine(&[0x20, 0x10]);
    reg.set_flag(Flag::Z, true);
    assert_eq!(step(&mut reg, &mut mem[..]), Ok(2));
    assert_eq!(reg.pc, 0x0102);
}

#[test]
fn jump_if_carry_skips_its_operand_when_not_taken() {
    let (mut reg, mut mem) = machine(&[0x38, 0x10]);
    reg.set_flag(Flag::C, false);
    assert_eq!(step(&mut reg, &mut mem[..]), Ok(2));
    assert_eq!(reg.pc, 0x0102);
    let (mut reg, mut mem) = machine(&[0x38, 0xF0]);
    reg.set_flag(Flag::C, true);
    assert_eq!(step(&mut reg, &mut mem[..]), Ok(3));
    assert_eq!(reg.pc, 0x00F2);
}

#[test]
fn absolute_jumps() {
    let (mut reg, mut mem) = machine(&[0xC3, 0x50, 0x01]);
    assert_eq!(step(&mut reg, &mut mem[..]), Ok(4));
    assert_eq!(reg.pc, 0x0150);
    let (mut reg, mut mem) = machine(&[0xD2, 0x50, 0x01]);
    reg.set_flag(Flag::C, false);
    assert_eq!(step(&mut reg, &mut mem[..]), Ok(4));
    assert_eq!(reg.pc, 0x0150);
    let (mut reg, mut mem) = machine(&[0xD2, 0x50, 0x01]);
    reg.set_flag(Flag::C, true);
    assert_eq!(step(&mut reg, &mut mem[..]), Ok(3));
    assert_eq!(reg.pc, 0x0103);
}

#[test]
fn rlca_rotates_bit_seven_into_carry() {
    let (mut reg, mut mem) = machine(&[0x07]);
    reg.a = 0b1000_0101;
    assert_eq!(step(&mut reg, &mut mem[..]), Ok(1));
    assert_eq!(reg.a, 0b0000_1011);
    assert!(reg.get_flag(Flag::C));
    assert!(!reg.get_flag(Flag::Z));
    assert!(!reg.get_flag(Flag::N));
    assert!(!reg.get_flag(Flag::H));
}

#[test]
fn rra_rotates_through_carry() {
    let (mut reg, mut mem) = machine(&[0x1F, 0x1F]);
    reg.a = 0b0000_0011;
    reg.set_flag(Flag::C, false);
    assert_eq!(step(&mut reg, &mut mem[..]), Ok(1));
    assert_eq!(reg.a, 0b0000_0001);
    assert!(reg.get_flag(Flag::C));
    assert_eq!(step(&mut reg, &mut mem[..]), Ok(1));
    assert_eq!(reg.a, 0b1000_0000);
    assert!(reg.get_flag(Flag::C));
    assert!(!reg.get_flag(Flag::Z));
}

#[test]
fn xor_a_clears_accumulator() {
    let (mut reg, mut mem) = machine(&[0xAF]);
    reg.a = 0x5A;
    reg.f = 0x70;
    assert_eq!(step(&mut reg, &mut mem[..]), Ok(1));
    assert_eq!(reg.a, 0);
    assert_eq!(reg.f, 0x80);
}

#[test]
fn store_hl_decrements_before_writing() {
    let (mut reg, mut mem) = machine(&[0x32]);
    reg.set_hl(0xC010);
    reg.a = 0x77;
    assert_eq!(step(&mut reg, &mut mem[..]), Ok(2));
    assert_eq!(reg.hl(), 0xC00F);
    assert_eq!(read_byte(0xC00F, &mem[..]), 0x77);
    assert_eq!(read_byte(0xC010, &mem[..]), 0x00);
}

#[test]
fn store_hl_decrement_wraps_through_zero() {
    let (mut reg, mut mem) = machine(&[0x32]);
    reg.set_hl(0x0000);
    reg.a = 0x33;
    assert_eq!(step(&mut reg, &mut mem[..]), Ok(2));
    assert_eq!(reg.hl(), 0xFFFF);
    assert_eq!(read_byte(0xFFFF, &mem[..]), 0x33);
}

#[test]
fn forbidden_store_faults_before_any_change() {
    let (mut reg, mut mem) = machine(&[0x32]);
    reg.set_hl(0xE001);
    let before = reg;
    assert_eq!(
        step(&mut reg, &mut mem[..]),
        Err(Fault::ForbiddenMemoryAccess { address: 0xE000, kind: AccessKind::Write })
    );
    assert_eq!(reg, before);
    assert_eq!(read_byte(0xE000, &mem[..]), 0x00);
}

#[test]
fn operand_fetch_from_forbidden_window_faults() {
    let (mut reg, mut mem) = machine(&[]);
    reg.pc = 0xDFFF;
    mem[0xDFFF] = 0x01;
    let before = reg;
    assert_eq!(
        step(&mut reg, &mut mem[..]),
        Err(Fault::ForbiddenMemoryAccess { address: 0xE000, kind: AccessKind::Read })
    );
    assert_eq!(reg, before);
}

#[test]
fn store_sp_writes_little_endian() {
    let (mut reg, mut mem) = machine(&[0x08, 0x00, 0xC0]);
    reg.sp = 0xBEEF;
    assert_eq!(step(&mut reg, &mut mem[..]), Ok(5));
    assert_eq!(read_word(0xC000, &mem[..]), 0xBEEF);
    assert_eq!(reg.pc, 0x0103);
}

#[test]
fn load_and_store_through_bc() {
    let (mut reg, mut mem) = machine(&[0x02, 0x3E]);
    reg.set_bc(0xC100);
    reg.a = 0x99;
    assert_eq!(step(&mut reg, &mut mem[..]), Ok(2));
    assert_eq!(read_byte(0xC100, &mem[..]), 0x99);
    let (mut reg, mut mem) = machine(&[0x0A]);
    mem[0xC100] = 0x44;
    reg.set_bc(0xC100);
    assert_eq!(step(&mut reg, &mut mem[..]), Ok(2));
    assert_eq!(reg.a, 0x44);
}

#[test]
fn inc_and_dec_register_keep_carry() {
    let (mut reg, mut mem) = machine(&[0x04, 0x05, 0x05]);
    reg.b = 0xFF;
    reg.set_flag(Flag::C, true);
    assert_eq!(step(&mut reg, &mut mem[..]), Ok(1));
    assert_eq!(reg.b, 0x00);
    assert!(reg.get_flag(Flag::Z));
    assert!(reg.get_flag(Flag::C));
    assert_eq!(step(&mut reg, &mut mem[..]), Ok(1));
    assert_eq!(reg.b, 0xFF);
    assert!(reg.get_flag(Flag::N));
    assert!(reg.get_flag(Flag::H));
    assert!(reg.get_flag(Flag::C));
}

#[test]
fn inc_pair_wraps() {
    let (mut reg, mut mem) = machine(&[0x03, 0x23]);
    reg.set_bc(0xFFFF);
    reg.set_hl(0x00FF);
    assert_eq!(step(&mut reg, &mut mem[..]), Ok(2));
    assert_eq!(reg.bc(), 0x0000);
    assert_eq!(step(&mut reg, &mut mem[..]), Ok(2));
    assert_eq!(reg.hl(), 0x0100);
}

#[test]
fn register_loads_and_arithmetic() {
    let (mut reg, mut mem) = machine(&[0x06, 0x10, 0x16, 0x05, 0x78, 0x8A, 0x1E, 0x20, 0x93]);
    for _ in 0..6 {
        assert!(step(&mut reg, &mut mem[..]).is_ok());
    }
    assert_eq!(reg.b, 0x10);
    assert_eq!(reg.d, 0x05);
    assert_eq!(reg.e, 0x20);
    assert_eq!(reg.a, 0xF5);
    assert!(reg.get_flag(Flag::N));
    assert!(reg.get_flag(Flag::C));
    assert_eq!(reg.pc, 0x0109);
}

#[test]
fn load_sp_and_add_hl() {
    let (mut reg, mut mem) = machine(&[0x31, 0xF0, 0xFF, 0x21, 0x00, 0x80, 0x29]);
    for _ in 0..3 {
        assert!(step(&mut reg, &mut mem[..]).is_ok());
    }
    assert_eq!(reg.sp, 0xFFF0);
    assert_eq!(reg.hl(), 0x0000);
    assert!(reg.get_flag(Flag::C));
}

#[test]
fn decode_gives_operand_lengths() {
    assert_eq!(decode(0x01), Some(Instruction::LoadPairImm(Pair::BC)));
    assert_eq!(decode(0x3E), None);
    assert_eq!(decode(0x01).map(|i| i.operand_len()), Some(2));
    assert_eq!(decode(0x18).map(|i| i.operand_len()), Some(1));
    assert_eq!(decode(0x00).map(|i| i.operand_len()), Some(0));
}

use vstd::prelude::*;
use crate::registers::{Flag, Pair, Reg8, Registers};

verus! {

/// A flag condition of a conditional jump.
#[derive(Clone, Copy, Debug, PartialEq, Eq, Structural)]
pub enum Cond {
    /// Zero clear.
    NZ,
    /// Carry set.
    C,
    /// Carry clear.
    NC,
}

pub open spec fn spec_holds(cond: Cond, r: Registers) -> bool {
    match cond {
        Cond::NZ => !r.flag(Flag::Z),
        Cond::C => r.flag(Flag::C),
        Cond::NC => !r.flag(Flag::C),
    }
}

/// Whether `cond` holds in `r`.
pub fn holds(cond: Cond, r: &Registers) -> (b: bool)
    ensures
        b == spec_holds(cond, *r),
{
    match cond {
        Cond::NZ => !r.get_flag(Flag::Z),
        Cond::C => r.get_flag(Flag::C),
        Cond::NC => !r.get_flag(Flag::C),
    }
}

/// The instruction forms of the table. Each fixes how many operand bytes
/// follow the opcode.
#[derive(Clone, Copy, Debug, PartialEq, Eq, Structural)]
pub enum Instruction {
    /// NOP
    Nop,
    /// STOP
    Stop,
    /// LD rr, d16
    LoadPairImm(Pair),
    /// LD r, d8
    LoadRegImm(Reg8),
    /// LD dst, src
    LoadRegReg(Reg8, Reg8),
    /// LD (BC), A
    StoreAtBc,
    /// LD A, (BC)
    LoadFromBc,
    /// LD (a16), SP
    StoreSpAtImm,
    /// LD (HL-), A: HL is decremented before the store.
    StoreAtHlDec,
    /// LD (HL), A
    StoreAtHl,
    /// INC rr
    IncPair(Pair),
    /// INC r
    IncReg(Reg8),
    /// DEC r
    DecReg(Reg8),
    /// RLCA
    Rlca,
    /// RRA
    Rra,
    /// ADD HL, rr
    AddHl(Pair),
    /// ADD A, r
    Add(Reg8),
    /// SUB r
    Sub(Reg8),
    /// OR r
    Or(Reg8),
    /// CP r
    Cp(Reg8),
    /// XOR A
    XorSelf,
    /// JR r8
    JumpRelative,
    /// JR cc, r8
    JumpRelativeIf(Cond),
    /// JP a16
    Jump,
    /// JP cc, a16
    JumpIf(Cond),
}

impl Instruction {
    pub open spec fn spec_operand_len(self) -> u8 {
        match self {
            Instruction::LoadPairImm(_) | Instruction::StoreSpAtImm | Instruction::Jump
            | Instruction::JumpIf(_) => 2,
            Instruction::LoadRegImm(_) | Instruction::JumpRelative
            | Instruction::JumpRelativeIf(_) => 1,
            _ => 0,
        }
    }

    /// Number of operand bytes after the opcode: 0, 1 or 2.
    pub fn operand_len(self) -> (n: u8)
        ensures
            n == self.spec_operand_len(),
            n <= 2,
    {
        match self {
            Instruction::LoadPairImm(_) | Instruction::StoreSpAtImm | Instruction::Jump
            | Instruction::JumpIf(_) => 2,
            Instruction::LoadRegImm(_) | Instruction::JumpRelative
            | Instruction::JumpRelativeIf(_) => 1,
            _ => 0,
        }
    }
}

/// The instruction table: the form of each opcode that has an entry.
pub open spec fn spec_decode(opcode: u8) -> Option<Instruction> {
    match opcode {
        0x00 => Some(Instruction::Nop),
        0x01 => Some(Instruction::LoadPairImm(Pair::BC)),
        0x02 => Some(Instruction::StoreAtBc),
        0x03 => Some(Instruction::IncPair(Pair::BC)),
        0x04 => Some(Instruction::IncReg(Reg8::B)),
        0x05 => Some(Instruction::DecReg(Reg8::B)),
        0x06 => Some(Instruction::LoadRegImm(Reg8::B)),
        0x07 => Some(Instruction::Rlca),
        0x08 => Some(Instruction::StoreSpAtImm),
        0x0A => Some(Instruction::LoadFromBc),
        0x0C => Some(Instruction::IncReg(Reg8::C)),
        0x0D => Some(Instruction::DecReg(Reg8::D)),
        0x0E => Some(Instruction::LoadRegImm(Reg8::C)),
        0x10 => Some(Instruction::Stop),
        0x11 => Some(Instruction::LoadPairImm(Pair::DE)),
        0x14 => Some(Instruction::IncReg(Reg8::D)),
        0x15 => Some(Instruction::DecReg(Reg8::D)),
        0x16 => Some(Instruction::LoadRegImm(Reg8::D)),
        0x18 => Some(Instruction::JumpRelative),
        0x19 => Some(Instruction::AddHl(Pair::DE)),
        0x1D => Some(Instruction::DecReg(Reg8::E)),
        0x1E => Some(Instruction::LoadRegImm(Reg8::E)),
        0x1F => Some(Instruction::Rra),
        0x20 => Some(Instruction::JumpRelativeIf(Cond::NZ)),
        0x21 => Some(Instruction::LoadPairImm(Pair::HL)),
        0x23 => Some(Instruction::IncPair(Pair::HL)),
        0x25 => Some(Instruction::DecReg(Reg8::H)),
        0x29 => Some(Instruction::AddHl(Pair::HL)),
        0x2C => Some(Instruction::IncReg(Reg8::L)),
        0x31 => Some(Instruction::LoadPairImm(Pair::SP)),
        0x32 => Some(Instruction::StoreAtHlDec),
        0x38 => Some(Instruction::JumpRelativeIf(Cond::C)),
        0x41 => Some(Instruction::LoadRegReg(Reg8::B, Reg8::C)),
        0x67 => Some(Instruction::LoadRegReg(Reg8::H, Reg8::A)),
        0x77 => Some(Instruction::StoreAtHl),
        0x78 => Some(Instruction::LoadRegReg(Reg8::A, Reg8::B)),
        0x79 => Some(Instruction::LoadRegReg(Reg8::A, Reg8::C)),
        0x7B => Some(Instruction::LoadRegReg(Reg8::A, Reg8::E)),
        0x7C => Some(Instruction::LoadRegReg(Reg8::A, Reg8::H)),
        0x7F => Some(Instruction::LoadRegReg(Reg8::A, Reg8::A)),
        0x8A => Some(Instruction::Add(Reg8::D)),
        0x93 => Some(Instruction::Sub(Reg8::E)),
        0xAF => Some(Instruction::XorSelf),
        0xB0 => Some(Instruction::Or(Reg8::B)),
        0xBF => Some(Instruction::Cp(Reg8::A)),
        0xC3 => Some(Instruction::Jump),
        0xD2 => Some(Instruction::JumpIf(Cond::NC)),
        _ => None,
    }
}

/// Looks an opcode up in the instruction table.
pub fn decode(opcode: u8) -> (r: Option<Instruction>)
    ensures
        r == spec_decode(opcode),
{
    match opcode {
        0x00 => Some(Instruction::Nop),
        0x01 => Some(Instruction::LoadPairImm(Pair::BC)),
        0x02 => Some(Instruction::StoreAtBc),
        0x03 => Some(Instruction::IncPair(Pair::BC)),
        0x04 => Some(Instruction::IncReg(Reg8::B)),
        0x05 => Some(Instruction::DecReg(Reg8::B)),
        0x06 => Some(Instruction::LoadRegImm(Reg8::B)),
        0x07 => Some(Instruction::Rlca),
        0x08 => Some(Instruction::StoreSpAtImm),
        0x0A => Some(Instruction::LoadFromBc),
        0x0C => Some(Instruction::IncReg(Reg8::C)),
        0x0D => Some(Instruction::DecReg(Reg8::D)),
        0x0E => Some(Instruction::LoadRegImm(Reg8::C)),
        0x10 => Some(Instruction::Stop),
        0x11 => Some(Instruction::LoadPairImm(Pair::DE)),
        0x14 => Some(Instruction::IncReg(Reg8::D)),
        0x15 => Some(Instruction::DecReg(Reg8::D)),
        0x16 => Some(Instruction::LoadRegImm(Reg8::D)),
        0x18 => Some(Instruction::JumpRelative),
        0x19 => Some(Instruction::AddHl(Pair::DE)),
        0x1D => Some(Instruction::DecReg(Reg8::E)),
        0x1E => Some(Instruction::LoadRegImm(Reg8::E)),
        0x1F => Some(Instruction::Rra),
        0x20 => Some(Instruction::JumpRelativeIf(Cond::NZ)),
        0x21 => Some(Instruction::LoadPairImm(Pair::HL)),
        0x23 => Some(Instruction::IncPair(Pair::HL)),
        0x25 => Some(Instruction::DecReg(Reg8::H)),
        0x29 => Some(Instruction::AddHl(Pair::HL)),
        0x2C => Some(Instruction::IncReg(Reg8::L)),
        0x31 => Some(Instruction::LoadPairImm(Pair::SP)),
        0x32 => Some(Instruction::StoreAtHlDec),
        0x38 => Some(Instruction::JumpRelativeIf(Cond::C)),
        0x41 => Some(Instruction::LoadRegReg(Reg8::B, Reg8::C)),
        0x67 => Some(Instruction::LoadRegReg(Reg8::H, Reg8::A)),
        0x77 => Some(Instruction::StoreAtHl),
        0x78 => Some(Instruction::LoadRegReg(Reg8::A, Reg8::B)),
        0x79 => Some(Instruction::LoadRegReg(Reg8::A, Reg8::C)),
        0x7B => Some(Instruction::LoadRegReg(Reg8::A, Reg8::E)),
        0x7C => Some(Instruction::LoadRegReg(Reg8::A, Reg8::H)),
        0x7F => Some(Instruction::LoadRegReg(Reg8::A, Reg8::A)),
        0x8A => Some(Instruction::Add(Reg8::D)),
        0x93 => Some(Instruction::Sub(Reg8::E)),
        0xAF => Some(Instruction::XorSelf),
        0xB0 => Some(Instruction::Or(Reg8::B)),
        0xBF => Some(Instruction::Cp(Reg8::A)),
        0xC3 => Some(Instruction::Jump),
        0xD2 => Some(Instruction::JumpIf(Cond::NC)),
        _ => None,
    }
}

} // verus!

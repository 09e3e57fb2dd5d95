use vstd::prelude::*;
use crate::alu::{
    add8, add_a, add_hl, alu_add, alu_add_hl, alu_cp, alu_dec, alu_inc, alu_or, alu_sub, cp_a,
    dec_flags, inc_flags, or_a, sub8, sub_a,
};
use crate::fault::{AccessKind, Fault};
use crate::instruction::{Instruction, decode, holds, spec_decode, spec_holds};
use crate::mmu::{
    MEMORY_SIZE, forbidden, is_forbidden, next_address, read_byte, read_word, with_word, word_at,
    write_byte, write_word,
};
use crate::registers::{Flag, Registers};

verus! {

/// What an instruction leaves behind: registers, memory and its cost in
/// machine cycles.
pub type Outcome = Result<(Registers, Seq<u8>, u32), Fault>;

/// The address before `adr`, wrapping from 0x0000 to 0xFFFF.
pub open spec fn prev_address(adr: u16) -> u16 {
    ((adr + 0xFFFF) % 0x10000) as u16
}

/// A byte read as a two's-complement signed value.
pub open spec fn signed_byte(d: u8) -> int {
    if d < 128 {
        d as int
    } else {
        d as int - 256
    }
}

/// The target of a relative jump: `pc` plus the signed displacement,
/// wrapping at 16 bits.
pub open spec fn relative_target(pc: u16, d: u8) -> u16 {
    (pc as int + signed_byte(d)) as u16
}

/// RLCA: A rotated left, bit 7 goes to bit 0 and to Carry; Zero, Subtract
/// and Half-carry are cleared.
pub open spec fn rlca(r: Registers) -> Registers {
    r.with_flags(false, false, false, r.a >> 7u8 == 1).with_a((r.a << 1u8) | (r.a >> 7u8))
}

/// RRA: A rotated right through Carry, the old Carry enters bit 7 and bit 0
/// goes to Carry; Zero, Subtract and Half-carry are cleared.
pub open spec fn rra(r: Registers) -> Registers {
    let top: u8 = if r.flag(Flag::C) {
        0x80
    } else {
        0
    };
    r.with_flags(false, false, false, r.a & 1 == 1).with_a((r.a >> 1u8) | top)
}

/// Effect of storing A at `adr`, a forbidden address being a fault.
pub open spec fn store_a(r: Registers, m: Seq<u8>, adr: u16) -> Outcome {
    if forbidden(adr) {
        Err(Fault::ForbiddenMemoryAccess { address: adr, kind: AccessKind::Write })
    } else {
        Ok((r, m.update(adr as int, r.a), 2))
    }
}

/// Effect of one instruction whose operand is `w` (zero when it has none,
/// the byte when it has one), on registers whose program counter is already
/// past the operand.
#[verifier::opaque]
pub open spec fn spec_execute(ins: Instruction, w: u16, r: Registers, m: Seq<u8>) -> Outcome {
    match ins {
        Instruction::Nop => Ok((r, m, 1)),
        Instruction::Stop => Ok((r, m, 1)),
        Instruction::LoadPairImm(p) => Ok((r.with_pair(p, w), m, 3)),
        Instruction::LoadRegImm(x) => Ok((r.with_reg8(x, w as u8), m, 2)),
        Instruction::LoadRegReg(dst, src) => Ok((r.with_reg8(dst, r.reg8(src)), m, 1)),
        Instruction::StoreAtBc => store_a(r, m, r.spec_bc()),
        Instruction::LoadFromBc => {
            let adr = r.spec_bc();
            if forbidden(adr) {
                Err(Fault::ForbiddenMemoryAccess { address: adr, kind: AccessKind::Read })
            } else {
                Ok((r.with_a(m[adr as int]), m, 2))
            }
        },
        Instruction::StoreSpAtImm => {
            if forbidden(w) {
                Err(Fault::ForbiddenMemoryAccess { address: w, kind: AccessKind::Write })
            } else if forbidden(next_address(w)) {
                Err(
                    Fault::ForbiddenMemoryAccess {
                        address: next_address(w),
                        kind: AccessKind::Write,
                    },
                )
            } else {
                Ok((r, with_word(m, w, r.sp), 5))
            }
        },
        Instruction::StoreAtHlDec => {
            let adr = prev_address(r.spec_hl());
            match store_a(r, m, adr) {
                Ok((r2, m2, c)) => Ok((r2.with_hl(adr), m2, c)),
                Err(e) => Err(e),
            }
        },
        Instruction::StoreAtHl => store_a(r, m, r.spec_hl()),
        Instruction::IncPair(p) => Ok((r.with_pair(p, next_address(r.pair(p))), m, 2)),
        Instruction::IncReg(x) => Ok(
            (inc_flags(r, r.reg8(x)).with_reg8(x, add8(r.reg8(x), 1).0), m, 1),
        ),
        Instruction::DecReg(x) => Ok(
            (dec_flags(r, r.reg8(x)).with_reg8(x, sub8(r.reg8(x), 1).0), m, 1),
        ),
        Instruction::Rlca => Ok((rlca(r), m, 1)),
        Instruction::Rra => Ok((rra(r), m, 1)),
        Instruction::AddHl(p) => Ok((add_hl(r, r.pair(p)), m, 2)),
        Instruction::Add(x) => Ok((add_a(r, r.reg8(x)), m, 1)),
        Instruction::Sub(x) => Ok((sub_a(r, r.reg8(x)), m, 1)),
        Instruction::Or(x) => Ok((or_a(r, r.reg8(x)), m, 1)),
        Instruction::Cp(x) => Ok((cp_a(r, r.reg8(x)), m, 1)),
        Instruction::XorSelf => Ok((r.with_flags(true, false, false, false).with_a(0), m, 1)),
        Instruction::JumpRelative => Ok((r.with_pc(relative_target(r.pc, w as u8)), m, 3)),
        Instruction::JumpRelativeIf(cond) => {
            if spec_holds(cond, r) {
                Ok((r.with_pc(relative_target(r.pc, w as u8)), m, 3))
            } else {
                Ok((r, m, 2))
            }
        },
        Instruction::Jump => Ok((r.with_pc(w), m, 4)),
        Instruction::JumpIf(cond) => {
            if spec_holds(cond, r) {
                Ok((r.with_pc(w), m, 4))
            } else {
                Ok((r, m, 3))
            }
        },
    }
}

/// Effect of the instruction `opcode` on registers whose program counter is
/// already past the opcode: table lookup, operand fetch, then execution.
pub open spec fn spec_dispatch(opcode: u8, r: Registers, m: Seq<u8>) -> Outcome {
    match spec_decode(opcode) {
        None => Err(Fault::UnsupportedOpcode { opcode, address: prev_address(r.pc) }),
        Some(ins) => {
            let len = ins.spec_operand_len();
            let first = r.pc;
            let second = next_address(first);
            if len >= 1 && forbidden(first) {
                Err(Fault::ForbiddenMemoryAccess { address: first, kind: AccessKind::Read })
            } else if len == 2 && forbidden(second) {
                Err(Fault::ForbiddenMemoryAccess { address: second, kind: AccessKind::Read })
            } else if len == 0 {
                spec_execute(ins, 0, r, m)
            } else if len == 1 {
                spec_execute(ins, m[first as int] as u16, r.with_pc(second), m)
            } else {
                spec_execute(ins, word_at(m, first), r.with_pc(next_address(second)), m)
            }
        },
    }
}

/// Effect of one fetch-decode-execute cycle from the program counter.
pub open spec fn spec_step(r: Registers, m: Seq<u8>) -> Outcome {
    if forbidden(r.pc) {
        Err(Fault::ForbiddenMemoryAccess { address: r.pc, kind: AccessKind::Read })
    } else {
        spec_dispatch(m[r.pc as int], r.with_pc(next_address(r.pc)), m)
    }
}

/// Whether a result, the registers and the memory after a call agree with
/// the outcome: on a fault both are as they were before.
pub open spec fn matches_outcome(
    out: Outcome,
    res: Result<u32, Fault>,
    r0: Registers,
    m0: Seq<u8>,
    r1: Registers,
    m1: Seq<u8>,
) -> bool {
    match out {
        Ok((r, m, cycles)) => res == Ok::<u32, Fault>(cycles) && r1 == r && m1 == m,
        Err(e) => res == Err::<u32, Fault>(e) && r1 == r0 && m1 == m0,
    }
}

/// Adds a signed displacement to a 16-bit value, wrapping at 16 bits.
pub fn signed_add(v: u16, rhs: i8) -> (r: u16)
    ensures
        r == (v as int + rhs as int) as u16,
{
    ((v as i32) + (rhs as i32)) as u16
}

/// Gets the byte at the program counter and moves the counter past it.
pub fn next_byte(reg: &mut Registers, mem: &mut [u8]) -> (byte: u8)
    requires
        old(reg).pc < old(mem)@.len(),
    ensures
        byte == old(mem)@[old(reg).pc as int],
        *final(reg) == old(reg).with_pc(next_address(old(reg).pc)),
        final(mem)@ == old(mem)@,
{
    let byte = read_byte(reg.pc, mem);
    proof {
        let pc = reg.pc;
        assert(pc.wrapping_add(1) == ((pc + 1) % 0x10000) as u16) by (bit_vector);
    }
    reg.pc = reg.pc.wrapping_add(1);
    byte
}

/// Gets the little-endian word at the program counter and moves the counter
/// past it.
pub fn next_word(reg: &mut Registers, mem: &[u8]) -> (word: u16)
    requires
        mem@.len() == MEMORY_SIZE,
    ensures
        word == word_at(mem@, old(reg).pc),
        *final(reg) == old(reg).with_pc(next_address(next_address(old(reg).pc))),
{
    let word = read_word(reg.pc, mem);
    proof {
        let pc = reg.pc;
        assert(pc.wrapping_add(2) == ((((pc + 1) % 0x10000) as u16 + 1) % 0x10000) as u16)
            by (bit_vector);
    }
    reg.pc = reg.pc.wrapping_add(2);
    word
}

/// Runs one instruction form. On a fault neither the registers nor the
/// memory change.
pub fn execute(ins: Instruction, w: u16, reg: &mut Registers, mem: &mut [u8]) -> (res: Result<
    u32,
    Fault,
>)
    requires
        old(mem)@.len() == MEMORY_SIZE,
    ensures
        matches_outcome(
            spec_execute(ins, w, *old(reg), old(mem)@),
            res,
            *old(reg),
            old(mem)@,
            *final(reg),
            final(mem)@,
        ),
        res is Ok ==> res->Ok_0 >= 1,
{
    proof {
        reveal(spec_execute);
    }
    match ins {
        Instruction::Nop => Ok(1),
        Instruction::Stop => Ok(1),
        Instruction::LoadPairImm(p) => {
            reg.set_pair(p, w);
            Ok(3)
        },
        Instruction::LoadRegImm(x) => {
            reg.set8(x, w as u8);
            Ok(2)
        },
        Instruction::LoadRegReg(dst, src) => {
            let v = reg.get8(src);
            reg.set8(dst, v);
            Ok(1)
        },
        Instruction::StoreAtBc => {
            match write_byte(reg.bc(), reg.a, mem) {
                Ok(()) => Ok(2),
                Err(e) => Err(e),
            }
        },
        Instruction::LoadFromBc => {
            let adr = reg.bc();
            if is_forbidden(adr) {
                return Err(Fault::ForbiddenMemoryAccess { address: adr, kind: AccessKind::Read });
            }
            reg.a = read_byte(adr, mem);
            Ok(2)
        },
        Instruction::StoreSpAtImm => {
            match write_word(w, reg.sp, mem) {
                Ok(()) => Ok(5),
                Err(e) => Err(e),
            }
        },
        Instruction::StoreAtHlDec => {
            let adr = reg.hl().wrapping_sub(1);
            proof {
                let hl = reg.spec_hl();
                assert(hl.wrapping_sub(1) == ((hl + 0xFFFF) % 0x10000) as u16) by (bit_vector);
            }
            match write_byte(adr, reg.a, mem) {
                Ok(()) => {
                    reg.set_hl(adr);
                    Ok(2)
                },
                Err(e) => Err(e),
            }
        },
        Instruction::StoreAtHl => {
            match write_byte(reg.hl(), reg.a, mem) {
                Ok(()) => Ok(2),
                Err(e) => Err(e),
            }
        },
        Instruction::IncPair(p) => {
            let v = reg.get_pair(p);
            proof {
                assert(v.wrapping_add(1) == ((v + 1) % 0x10000) as u16) by (bit_vector);
            }
            reg.set_pair(p, v.wrapping_add(1));
            Ok(2)
        },
        Instruction::IncReg(x) => {
            let n = reg.get8(x);
            let v = alu_inc(reg, n);
            reg.set8(x, v);
            Ok(1)
        },
        Instruction::DecReg(x) => {
            let n = reg.get8(x);
            let v = alu_dec(reg, n);
            reg.set8(x, v);
            Ok(1)
        },
        Instruction::Rlca => {
            let a = reg.a;
            let c = a >> 7;
            reg.set_flag(Flag::Z, false);
            reg.set_flag(Flag::N, false);
            reg.set_flag(Flag::H, false);
            reg.set_flag(Flag::C, c == 1);
            reg.a = (a << 1) | c;
            Ok(1)
        },
        Instruction::Rra => {
            let a = reg.a;
            let top: u8 = if reg.get_flag(Flag::C) {
                0x80
            } else {
                0
            };
            reg.set_flag(Flag::Z, false);
            reg.set_flag(Flag::N, false);
            reg.set_flag(Flag::H, false);
            reg.set_flag(Flag::C, (a & 0x01) == 0x01);
            reg.a = (a >> 1) | top;
            Ok(1)
        },
        Instruction::AddHl(p) => {
            let n = reg.get_pair(p);
            alu_add_hl(reg, n);
            Ok(2)
        },
        Instruction::Add(x) => {
            let n = reg.get8(x);
            alu_add(reg, n);
            Ok(1)
        },
        Instruction::Sub(x) => {
            let n = reg.get8(x);
            alu_sub(reg, n);
            Ok(1)
        },
        Instruction::Or(x) => {
            let n = reg.get8(x);
            alu_or(reg, n);
            Ok(1)
        },
        Instruction::Cp(x) => {
            let n = reg.get8(x);
            alu_cp(reg, n);
            Ok(1)
        },
        Instruction::XorSelf => {
            // A ^ A is always zero: the result and the flags are fixed.
            reg.set_flag(Flag::Z, true);
            reg.set_flag(Flag::N, false);
            reg.set_flag(Flag::H, false);
            reg.set_flag(Flag::C, false);
            reg.a = 0;
            Ok(1)
        },
        Instruction::JumpRelative => {
            reg.pc = relative_jump(reg.pc, w as u8);
            Ok(3)
        },
        Instruction::JumpRelativeIf(cond) => {
            if holds(cond, reg) {
                reg.pc = relative_jump(reg.pc, w as u8);
                Ok(3)
            } else {
                Ok(2)
            }
        },
        Instruction::Jump => {
            reg.pc = w;
            Ok(4)
        },
        Instruction::JumpIf(cond) => {
            if holds(cond, reg) {
                reg.pc = w;
                Ok(4)
            } else {
                Ok(3)
            }
        },
    }
}

/// The target of a relative jump by the displacement byte `d`.
fn relative_jump(pc: u16, d: u8) -> (r: u16)
    ensures
        r == relative_target(pc, d),
{
    let s = d as i8;
    proof {
        assert((d < 128 ==> (d as i8) as i32 == d as i32) && (d >= 128 ==> (d as i8) as i32
            + 256 == d as i32)) by (bit_vector);
    }
    signed_add(pc, s)
}

/// Executes the instruction `opcode`, whose byte was fetched already: the
/// program counter stands just past it. Fetches the operand, runs the
/// instruction and returns its cost in machine cycles. An opcode without an
/// entry in the table, or an access to a forbidden address, is a fault that
/// leaves the registers and the memory as they were.
pub fn call_instruction(opcode: u8, reg: &mut Registers, mem: &mut [u8]) -> (res: Result<
    u32,
    Fault,
>)
    requires
        old(mem)@.len() == MEMORY_SIZE,
    ensures
        matches_outcome(
            spec_dispatch(opcode, *old(reg), old(mem)@),
            res,
            *old(reg),
            old(mem)@,
            *final(reg),
            final(mem)@,
        ),
        res is Ok ==> res->Ok_0 >= 1,
{
    let ins = match decode(opcode) {
        Some(ins) => ins,
        None => {
            proof {
                let pc = reg.pc;
                assert(pc.wrapping_sub(1) == ((pc + 0xFFFF) % 0x10000) as u16) by (bit_vector);
            }
            return Err(
                Fault::UnsupportedOpcode { opcode, address: reg.pc.wrapping_sub(1) },
            );
        },
    };
    let len = ins.operand_len();
    let mut next = *reg;
    let w: u16 = if len == 0 {
        0
    } else if len == 1 {
        if is_forbidden(next.pc) {
            return Err(Fault::ForbiddenMemoryAccess { address: next.pc, kind: AccessKind::Read });
        }
        next_byte(&mut next, mem) as u16
    } else {
        let second = next.pc.wrapping_add(1);
        proof {
            let pc = next.pc;
            assert(pc.wrapping_add(1) == ((pc + 1) % 0x10000) as u16) by (bit_vector);
        }
        if is_forbidden(next.pc) {
            return Err(Fault::ForbiddenMemoryAccess { address: next.pc, kind: AccessKind::Read });
        }
        if is_forbidden(second) {
            return Err(Fault::ForbiddenMemoryAccess { address: second, kind: AccessKind::Read });
        }
        next_word(&mut next, mem)
    };
    let res = execute(ins, w, &mut next, mem);
    if res.is_ok() {
        *reg = next;
    }
    res
}

/// One fetch-decode-execute cycle: fetches the opcode at the program
/// counter, runs it and returns its cost in machine cycles. On a fault the
/// registers and the memory are left exactly as before the fetch.
pub fn step(reg: &mut Registers, mem: &mut [u8]) -> (res: Result<u32, Fault>)
    requires
        old(mem)@.len() == MEMORY_SIZE,
    ensures
        matches_outcome(
            spec_step(*old(reg), old(mem)@),
            res,
            *old(reg),
            old(mem)@,
            *final(reg),
            final(mem)@,
        ),
        res is Ok ==> res->Ok_0 >= 1,
        !forbidden(old(reg).pc) && spec_decode(old(mem)@[old(reg).pc as int]) is None ==> res
            == Err::<u32, Fault>(
            Fault::UnsupportedOpcode {
                opcode: old(mem)@[old(reg).pc as int],
                address: old(reg).pc,
            },
        ) && *final(reg) == *old(reg) && final(mem)@ == old(mem)@,
{
    if is_forbidden(reg.pc) {
        return Err(Fault::ForbiddenMemoryAccess { address: reg.pc, kind: AccessKind::Read });
    }
    let mut next = *reg;
    let opcode = next_byte(&mut next, mem);
    let res = call_instruction(opcode, &mut next, mem);
    if res.is_ok() {
        *reg = next;
    }
    proof {
        let pc = old(reg).pc;
        assert(((((pc + 1) % 0x10000) as u16 + 0xFFFF) % 0x10000) as u16 == pc);
    }
    res
}

} // verus!

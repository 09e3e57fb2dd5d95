use vstd::prelude::*;
use crate::registers::{Flag, Registers, flag_in, flag_put, lemma_flag_put};

verus! {

/// 8-bit addition: the wrapped sum, the carry out of bit 3 and the carry
/// out of bit 7.
pub open spec fn add8(a: u8, b: u8) -> (u8, bool, bool) {
    ((a as u16 + b as u16) as u8, (a & 0xF) + (b & 0xF) > 0xF, a as u16 + b as u16 > 0xFF)
}

/// 8-bit subtraction: the wrapped difference, the borrow from bit 4 and the
/// borrow out of bit 7.
pub open spec fn sub8(a: u8, b: u8) -> (u8, bool, bool) {
    ((a as int - b as int) as u8, (a & 0xF) < (b & 0xF), a < b)
}

/// ADD: the sum goes to A; Zero, Half-carry and Carry come from it and
/// Subtract is cleared.
pub open spec fn add_a(r: Registers, n: u8) -> Registers {
    let (v, h, c) = add8(r.a, n);
    r.with_flags(v == 0, false, h, c).with_a(v)
}

/// SUB: as ADD, with the difference and Subtract set.
pub open spec fn sub_a(r: Registers, n: u8) -> Registers {
    let (v, h, c) = sub8(r.a, n);
    r.with_flags(v == 0, true, h, c).with_a(v)
}

/// OR: A | n goes to A; Zero from it, the other three flags cleared.
pub open spec fn or_a(r: Registers, n: u8) -> Registers {
    let v = r.a | n;
    r.with_flags(v == 0, false, false, false).with_a(v)
}

/// CP: the flags of SUB, with A kept.
pub open spec fn cp_a(r: Registers, n: u8) -> Registers {
    let (v, h, c) = sub8(r.a, n);
    r.with_flags(v == 0, true, h, c)
}

/// The flags after INC n: Carry is not touched.
pub open spec fn inc_flags(r: Registers, n: u8) -> Registers {
    let (v, h, _) = add8(n, 1);
    r.with_flag(Flag::Z, v == 0).with_flag(Flag::N, false).with_flag(Flag::H, h)
}

/// The flags after DEC n: Carry is not touched.
pub open spec fn dec_flags(r: Registers, n: u8) -> Registers {
    let (v, h, _) = sub8(n, 1);
    r.with_flag(Flag::Z, v == 0).with_flag(Flag::N, true).with_flag(Flag::H, h)
}

/// ADD HL, n: the wrapped sum goes to HL; Half-carry is the carry out of the
/// low eleven bits, Carry the carry out of bit 15, Subtract is cleared and
/// Zero is kept.
pub open spec fn add_hl(r: Registers, n: u16) -> Registers {
    let hl = r.spec_hl();
    r.with_flag(Flag::N, false).with_flag(Flag::H, (hl & 0x07FF) + (n & 0x07FF) > 0x07FF).with_flag(
        Flag::C,
        hl as u32 + n as u32 > 0xFFFF,
    ).with_hl((hl as u32 + n as u32) as u16)
}

pub fn carry_add(a: u8, b: u8) -> (r: (u8, bool, bool))
    ensures
        r == add8(a, b),
{
    let v = a.wrapping_add(b);
    assert((a & 0x0F) + (b & 0x0F) < 256) by (bit_vector);
    let h = ((a & 0x0F) + (b & 0x0F)) & 0x10 == 0x10;
    let c = (a as u16) + (b as u16) > 0xFF;
    proof {
        assert(a.wrapping_add(b) == (a as u16 + b as u16) as u8) by (bit_vector);
        assert(((((a & 0x0F) + (b & 0x0F)) as u8) & 0x10 == 0x10) == ((a & 0xF) + (b & 0xF) > 0xF))
            by (bit_vector);
    }
    (v, h, c)
}

pub fn carry_sub(a: u8, b: u8) -> (r: (u8, bool, bool))
    ensures
        r == sub8(a, b),
{
    let v = a.wrapping_sub(b);
    let h = (a & 0x0F) < (b & 0x0F);
    let c = a < b;
    proof {
        assert(a.wrapping_sub(b) == (a as int - b as int) as u8) by (bit_vector);
    }
    (v, h, c)
}

/// Stores the result of ADD n in A and sets the flags.
pub fn alu_add(reg: &mut Registers, n: u8)
    ensures
        *final(reg) == add_a(*old(reg), n),
{
    let r = carry_add(reg.a, n);
    reg.set_flag(Flag::Z, r.0 == 0);
    reg.set_flag(Flag::N, false);
    reg.set_flag(Flag::H, r.1);
    reg.set_flag(Flag::C, r.2);
    reg.a = r.0;
}

/// Stores the result of SUB n in A and sets the flags.
pub fn alu_sub(reg: &mut Registers, n: u8)
    ensures
        *final(reg) == sub_a(*old(reg), n),
{
    let r = carry_sub(reg.a, n);
    reg.set_flag(Flag::Z, r.0 == 0);
    reg.set_flag(Flag::N, true);
    reg.set_flag(Flag::H, r.1);
    reg.set_flag(Flag::C, r.2);
    reg.a = r.0;
}

/// Returns n + 1 and sets Zero, Subtract and Half-carry from it; Carry keeps
/// its value.
pub fn alu_inc(reg: &mut Registers, n: u8) -> (r: u8)
    ensures
        r == add8(n, 1).0,
        *final(reg) == inc_flags(*old(reg), n),
        final(reg).flag(Flag::C) == old(reg).flag(Flag::C),
        final(reg).flag(Flag::Z) == (r == 0),
        final(reg).flag(Flag::H) == add8(n, 1).1,
        !final(reg).flag(Flag::N),
{
    let r = carry_add(n, 1);
    reg.set_flag(Flag::Z, r.0 == 0);
    reg.set_flag(Flag::N, false);
    reg.set_flag(Flag::H, r.1);
    proof {
        lemma_three_flags(old(reg).f, r.0 == 0, false, r.1);
    }
    r.0
}

/// Returns n - 1 and sets Zero, Subtract and Half-carry from it; Carry keeps
/// its value.
pub fn alu_dec(reg: &mut Registers, n: u8) -> (r: u8)
    ensures
        r == sub8(n, 1).0,
        *final(reg) == dec_flags(*old(reg), n),
        final(reg).flag(Flag::C) == old(reg).flag(Flag::C),
        final(reg).flag(Flag::Z) == (r == 0),
        final(reg).flag(Flag::H) == sub8(n, 1).1,
        final(reg).flag(Flag::N),
{
    let r = carry_sub(n, 1);
    reg.set_flag(Flag::Z, r.0 == 0);
    reg.set_flag(Flag::N, true);
    reg.set_flag(Flag::H, r.1);
    proof {
        lemma_three_flags(old(reg).f, r.0 == 0, true, r.1);
    }
    r.0
}

/// Stores A | n in A and sets the flags.
pub fn alu_or(reg: &mut Registers, n: u8)
    ensures
        *final(reg) == or_a(*old(reg), n),
{
    let v = reg.a | n;
    reg.set_flag(Flag::Z, v == 0);
    reg.set_flag(Flag::N, false);
    reg.set_flag(Flag::H, false);
    reg.set_flag(Flag::C, false);
    reg.a = v;
}

/// Sets the flags of A - n and keeps A.
pub fn alu_cp(reg: &mut Registers, n: u8)
    ensures
        *final(reg) == cp_a(*old(reg), n),
{
    let r = carry_sub(reg.a, n);
    reg.set_flag(Flag::Z, r.0 == 0);
    reg.set_flag(Flag::N, true);
    reg.set_flag(Flag::H, r.1);
    reg.set_flag(Flag::C, r.2);
}

/// Adds n to HL and sets Subtract, Half-carry and Carry; Zero keeps its
/// value.
pub fn alu_add_hl(reg: &mut Registers, n: u16)
    ensures
        *final(reg) == add_hl(*old(reg), n),
{
    let hl = reg.hl();
    let r = hl.wrapping_add(n);
    assert((hl & 0x07FF) + (n & 0x07FF) < 0x10000) by (bit_vector);
    reg.set_flag(Flag::N, false);
    reg.set_flag(Flag::H, (hl & 0x07FF) + (n & 0x07FF) > 0x07FF);
    reg.set_flag(Flag::C, (hl as u32) + (n as u32) > 0xFFFF);
    proof {
        assert(hl.wrapping_add(n) == (hl as u32 + n as u32) as u16) by (bit_vector);
    }
    reg.set_hl(r);
}

/// After setting Zero, Subtract and Half-carry in turn, each holds its new
/// value and Carry its old one.
proof fn lemma_three_flags(f: u8, z: bool, n: bool, h: bool)
    ensures
        ({
            let g = flag_put(flag_put(flag_put(f, Flag::Z, z), Flag::N, n), Flag::H, h);
            flag_in(g, Flag::Z) == z && flag_in(g, Flag::N) == n && flag_in(g, Flag::H) == h
                && flag_in(g, Flag::C) == flag_in(f, Flag::C)
        }),
{
    let f1 = flag_put(f, Flag::Z, z);
    let f2 = flag_put(f1, Flag::N, n);
    let f3 = flag_put(f2, Flag::H, h);
    lemma_flag_put(f2, Flag::H, h, Flag::Z);
    lemma_flag_put(f2, Flag::H, h, Flag::N);
    lemma_flag_put(f2, Flag::H, h, Flag::H);
    lemma_flag_put(f2, Flag::H, h, Flag::C);
    lemma_flag_put(f1, Flag::N, n, Flag::Z);
    lemma_flag_put(f1, Flag::N, n, Flag::N);
    lemma_flag_put(f1, Flag::N, n, Flag::C);
    lemma_flag_put(f, Flag::Z, z, Flag::Z);
    lemma_flag_put(f, Flag::Z, z, Flag::C);
}

} // verus!

use vstd::prelude::*;

verus! {

/// The register file: eight 8-bit registers, the stack pointer and the
/// program counter.
#[derive(Clone, Copy, Debug, PartialEq, Eq, Structural)]
pub struct Registers {
    pub a: u8,
    pub f: u8,
    pub b: u8,
    pub c: u8,
    pub d: u8,
    pub e: u8,
    pub h: u8,
    pub l: u8,
    pub sp: u16,
    pub pc: u16,
}

/// The four meaningful bits of the flag register `f`.
#[derive(Clone, Copy, Debug, PartialEq, Eq, Structural)]
pub enum Flag {
    /// Zero, bit 7.
    Z,
    /// Subtract, bit 6.
    N,
    /// Half-carry, bit 5.
    H,
    /// Carry, bit 4.
    C,
}

impl Flag {
    /// The bit of `f` that holds this flag.
    pub open spec fn spec_mask(self) -> u8 {
        match self {
            Flag::Z => 0x80,
            Flag::N => 0x40,
            Flag::H => 0x20,
            Flag::C => 0x10,
        }
    }

    #[verifier::when_used_as_spec(spec_mask)]
    pub fn mask(self) -> (r: u8)
        ensures
            r == self.spec_mask(),
    {
        match self {
            Flag::Z => 0x80,
            Flag::N => 0x40,
            Flag::H => 0x20,
            Flag::C => 0x10,
        }
    }
}

/// The 8-bit registers an instruction can name (the flag byte excluded).
#[derive(Clone, Copy, Debug, PartialEq, Eq, Structural)]
pub enum Reg8 {
    A,
    B,
    C,
    D,
    E,
    H,
    L,
}

/// The 16-bit registers an instruction can name.
#[derive(Clone, Copy, Debug, PartialEq, Eq, Structural)]
pub enum Pair {
    BC,
    DE,
    HL,
    SP,
}

/// The 16-bit value of a register pair: `hi` is the upper byte.
pub open spec fn pair_of(hi: u8, lo: u8) -> u16 {
    (hi as int * 256 + lo as int) as u16
}

/// Upper byte of a 16-bit value.
pub open spec fn high_byte(v: u16) -> u8 {
    (v / 256) as u8
}

/// Lower byte of a 16-bit value.
pub open spec fn low_byte(v: u16) -> u8 {
    (v % 256) as u8
}

/// Whether `flag` is set in the flag byte `f`.
pub open spec fn flag_in(f: u8, flag: Flag) -> bool {
    f & flag.mask() != 0
}

/// The flag byte `f` with the bit of `flag` set to `state` and every other
/// bit kept.
pub open spec fn flag_put(f: u8, flag: Flag, state: bool) -> u8 {
    if state {
        f | flag.mask()
    } else {
        f & !flag.mask()
    }
}

impl Registers {
    pub open spec fn spec_bc(self) -> u16 {
        pair_of(self.b, self.c)
    }

    pub open spec fn spec_de(self) -> u16 {
        pair_of(self.d, self.e)
    }

    pub open spec fn spec_hl(self) -> u16 {
        pair_of(self.h, self.l)
    }

    pub open spec fn with_bc(self, v: u16) -> Registers {
        Registers { b: high_byte(v), c: low_byte(v), ..self }
    }

    pub open spec fn with_de(self, v: u16) -> Registers {
        Registers { d: high_byte(v), e: low_byte(v), ..self }
    }

    pub open spec fn with_hl(self, v: u16) -> Registers {
        Registers { h: high_byte(v), l: low_byte(v), ..self }
    }

    pub open spec fn with_a(self, v: u8) -> Registers {
        Registers { a: v, ..self }
    }

    pub open spec fn with_pc(self, v: u16) -> Registers {
        Registers { pc: v, ..self }
    }

    pub open spec fn reg8(self, r: Reg8) -> u8 {
        match r {
            Reg8::A => self.a,
            Reg8::B => self.b,
            Reg8::C => self.c,
            Reg8::D => self.d,
            Reg8::E => self.e,
            Reg8::H => self.h,
            Reg8::L => self.l,
        }
    }

    pub open spec fn with_reg8(self, r: Reg8, v: u8) -> Registers {
        match r {
            Reg8::A => Registers { a: v, ..self },
            Reg8::B => Registers { b: v, ..self },
            Reg8::C => Registers { c: v, ..self },
            Reg8::D => Registers { d: v, ..self },
            Reg8::E => Registers { e: v, ..self },
            Reg8::H => Registers { h: v, ..self },
            Reg8::L => Registers { l: v, ..self },
        }
    }

    pub open spec fn pair(self, p: Pair) -> u16 {
        match p {
            Pair::BC => self.spec_bc(),
            Pair::DE => self.spec_de(),
            Pair::HL => self.spec_hl(),
            Pair::SP => self.sp,
        }
    }

    pub open spec fn with_pair(self, p: Pair, v: u16) -> Registers {
        match p {
            Pair::BC => self.with_bc(v),
            Pair::DE => self.with_de(v),
            Pair::HL => self.with_hl(v),
            Pair::SP => Registers { sp: v, ..self },
        }
    }

    /// Whether `flag` is set.
    pub open spec fn flag(self, flag: Flag) -> bool {
        flag_in(self.f, flag)
    }

    /// The registers with `flag` set to `state` and nothing else changed.
    pub open spec fn with_flag(self, flag: Flag, state: bool) -> Registers {
        Registers { f: flag_put(self.f, flag, state), ..self }
    }

    /// The registers after setting Zero, Subtract, Half-carry and Carry, in
    /// that order.
    pub open spec fn with_flags(self, z: bool, n: bool, h: bool, c: bool) -> Registers {
        self.with_flag(Flag::Z, z).with_flag(Flag::N, n).with_flag(Flag::H, h).with_flag(
            Flag::C,
            c,
        )
    }

    /// The values left by the boot ROM, with execution starting at 0x0100.
    pub fn new() -> (r: Registers)
        ensures
            r == (Registers {
                a: 0x01,
                f: 0x80,
                b: 0x00,
                c: 0x13,
                d: 0x00,
                e: 0xD8,
                h: 0x01,
                l: 0x4D,
                sp: 0xFFFE,
                pc: 0x0100,
            }),
    {
        Registers {
            a: 0x01,
            f: 0x80,
            b: 0x00,
            c: 0x13,
            d: 0x00,
            e: 0xD8,
            h: 0x01,
            l: 0x4D,
            sp: 0xFFFE,
            pc: 0x0100,
        }
    }

    pub fn bc(&self) -> (r: u16)
        ensures
            r == self.spec_bc(),
    {
        join(self.b, self.c)
    }

    pub fn de(&self) -> (r: u16)
        ensures
            r == self.spec_de(),
    {
        join(self.d, self.e)
    }

    pub fn hl(&self) -> (r: u16)
        ensures
            r == self.spec_hl(),
    {
        join(self.h, self.l)
    }

    pub fn set_bc(&mut self, val: u16)
        ensures
            *final(self) == old(self).with_bc(val),
    {
        self.b = upper(val);
        self.c = lower(val);
    }

    pub fn set_de(&mut self, val: u16)
        ensures
            *final(self) == old(self).with_de(val),
    {
        self.d = upper(val);
        self.e = lower(val);
    }

    pub fn set_hl(&mut self, val: u16)
        ensures
            *final(self) == old(self).with_hl(val),
    {
        self.h = upper(val);
        self.l = lower(val);
    }

    /// Reads the 8-bit register `r`.
    pub fn get8(&self, r: Reg8) -> (v: u8)
        ensures
            v == self.reg8(r),
    {
        match r {
            Reg8::A => self.a,
            Reg8::B => self.b,
            Reg8::C => self.c,
            Reg8::D => self.d,
            Reg8::E => self.e,
            Reg8::H => self.h,
            Reg8::L => self.l,
        }
    }

    /// Writes the 8-bit register `r`.
    pub fn set8(&mut self, r: Reg8, v: u8)
        ensures
            *final(self) == old(self).with_reg8(r, v),
    {
        match r {
            Reg8::A => self.a = v,
            Reg8::B => self.b = v,
            Reg8::C => self.c = v,
            Reg8::D => self.d = v,
            Reg8::E => self.e = v,
            Reg8::H => self.h = v,
            Reg8::L => self.l = v,
        }
    }

    /// Reads the 16-bit register `p`.
    pub fn get_pair(&self, p: Pair) -> (v: u16)
        ensures
            v == self.pair(p),
    {
        match p {
            Pair::BC => self.bc(),
            Pair::DE => self.de(),
            Pair::HL => self.hl(),
            Pair::SP => self.sp,
        }
    }

    /// Writes the 16-bit register `p`.
    pub fn set_pair(&mut self, p: Pair, v: u16)
        ensures
            *final(self) == old(self).with_pair(p, v),
    {
        match p {
            Pair::BC => self.set_bc(v),
            Pair::DE => self.set_de(v),
            Pair::HL => self.set_hl(v),
            Pair::SP => self.sp = v,
        }
    }

    /// Sets or clears one flag bit; every other bit of `f` is kept.
    pub fn set_flag(&mut self, flag: Flag, state: bool)
        ensures
            *final(self) == old(self).with_flag(flag, state),
    {
        if state {
            self.f = self.f | flag.mask();
        } else {
            self.f = self.f & !flag.mask();
        }
    }

    pub fn get_flag(&self, flag: Flag) -> (r: bool)
        ensures
            r == self.flag(flag),
    {
        self.f & flag.mask() != 0
    }
}

fn join(hi: u8, lo: u8) -> (r: u16)
    ensures
        r == pair_of(hi, lo),
{
    proof {
        assert(((hi as u16) << 8u16) | (lo as u16) == (hi as int * 256 + lo as int) as u16)
            by (bit_vector);
    }
    ((hi as u16) << 8) | (lo as u16)
}

fn upper(v: u16) -> (r: u8)
    ensures
        r == high_byte(v),
{
    proof {
        assert((v >> 8u16) as u8 == (v / 256) as u8) by (bit_vector);
    }
    (v >> 8) as u8
}

fn lower(v: u16) -> (r: u8)
    ensures
        r == low_byte(v),
{
    proof {
        assert((v & 0xFFu16) as u8 == (v % 256) as u8) by (bit_vector);
    }
    (v & 0x00FF) as u8
}

/// A register pair reads back the 16-bit value it was set to.
pub proof fn lemma_pair_round_trip(r: Registers, p: Pair, v: u16)
    ensures
        r.with_pair(p, v).pair(p) == v,
{
    assert(pair_of(high_byte(v), low_byte(v)) == v);
}

/// Setting a flag changes that flag to the given state and leaves the other
/// three as they were.
pub proof fn lemma_flag_put(f: u8, flag: Flag, state: bool, other: Flag)
    ensures
        flag_in(flag_put(f, flag, state), other) == if other == flag {
            state
        } else {
            flag_in(f, other)
        },
{
    let m = flag.mask();
    let g = other.mask();
    assert(m == g <==> flag == other);
    assert((m == 0x80 || m == 0x40 || m == 0x20 || m == 0x10) && (g == 0x80 || g == 0x40 || g
        == 0x20 || g == 0x10) ==> ((f | m) & g != 0 <==> (m == g || f & g != 0)) && ((f & !m)
        & g != 0 <==> (m != g && f & g != 0))) by (bit_vector);
}

} // verus!

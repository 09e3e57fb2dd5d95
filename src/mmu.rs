use vstd::prelude::*;
use crate::fault::{AccessKind, Fault};
use crate::registers::{high_byte, low_byte};

verus! {

/// The whole 16-bit address space.
pub type Memory = [u8; 65536];

/// Number of bytes of a full memory image.
pub const MEMORY_SIZE: usize = 65536;

/// Address of the cartridge-type byte in the header.
pub const CARTRIDGE_TYPE_ADDRESS: u16 = 0x0147;

/// The named areas of the address space.
#[derive(Clone, Copy, Debug, PartialEq, Eq, Structural)]
pub enum Region {
    Rom,
    Vram,
    ExternalRam,
    Wram,
    Forbidden,
    Oam,
    Io,
    Hram,
    InterruptEnable,
}

pub open spec fn spec_region(adr: u16) -> Region {
    if adr <= 0x7FFF {
        Region::Rom
    } else if adr <= 0x9FFF {
        Region::Vram
    } else if adr <= 0xBFFF {
        Region::ExternalRam
    } else if adr <= 0xDFFF {
        Region::Wram
    } else if adr <= 0xFDFF {
        Region::Forbidden
    } else if adr <= 0xFE9F {
        Region::Oam
    } else if adr <= 0xFEFF {
        Region::Forbidden
    } else if adr <= 0xFF7F {
        Region::Io
    } else if adr <= 0xFFFE {
        Region::Hram
    } else {
        Region::InterruptEnable
    }
}

/// The two windows without hardware backing: the mirror at
/// 0xE000..=0xFDFF and the unusable area at 0xFEA0..=0xFEFF.
pub open spec fn forbidden(adr: u16) -> bool {
    (0xE000 <= adr <= 0xFDFF) || (0xFEA0 <= adr <= 0xFEFF)
}

/// The address after `adr`, wrapping from 0xFFFF to 0x0000.
pub open spec fn next_address(adr: u16) -> u16 {
    ((adr + 1) % 0x10000) as u16
}

/// The little-endian word at `adr`: low byte at `adr`, high byte at the
/// next address.
pub open spec fn word_at(m: Seq<u8>, adr: u16) -> u16 {
    (m[adr as int] as int + 256 * m[next_address(adr) as int] as int) as u16
}

/// `m` after storing `v` little-endian at `adr`.
pub open spec fn with_word(m: Seq<u8>, adr: u16, v: u16) -> Seq<u8> {
    m.update(adr as int, low_byte(v)).update(next_address(adr) as int, high_byte(v))
}

/// The region that holds an address.
pub fn region_of(adr: u16) -> (r: Region)
    ensures
        r == spec_region(adr),
{
    if adr <= 0x7FFF {
        Region::Rom
    } else if adr <= 0x9FFF {
        Region::Vram
    } else if adr <= 0xBFFF {
        Region::ExternalRam
    } else if adr <= 0xDFFF {
        Region::Wram
    } else if adr <= 0xFDFF {
        Region::Forbidden
    } else if adr <= 0xFE9F {
        Region::Oam
    } else if adr <= 0xFEFF {
        Region::Forbidden
    } else if adr <= 0xFF7F {
        Region::Io
    } else if adr <= 0xFFFE {
        Region::Hram
    } else {
        Region::InterruptEnable
    }
}

/// Whether an address lies in a forbidden window.
pub fn is_forbidden(adr: u16) -> (r: bool)
    ensures
        r == forbidden(adr),
        r == (spec_region(adr) == Region::Forbidden),
{
    region_of(adr) == Region::Forbidden
}

/// Reads one byte. Reads never fault: every address is backed by the image.
pub fn read_byte(adr: u16, mem: &[u8]) -> (r: u8)
    requires
        adr < mem@.len(),
    ensures
        r == mem@[adr as int],
{
    mem[adr as usize]
}

/// Writes one byte, unless the address is forbidden: then nothing is
/// written and the fault is returned.
pub fn write_byte(adr: u16, val: u8, mem: &mut [u8]) -> (r: Result<(), Fault>)
    requires
        adr < old(mem)@.len(),
    ensures
        forbidden(adr) ==> r == Err::<(), Fault>(
            Fault::ForbiddenMemoryAccess { address: adr, kind: AccessKind::Write },
        ) && final(mem)@ == old(mem)@,
        !forbidden(adr) ==> r == Ok::<(), Fault>(()) && final(mem)@ == old(mem)@.update(
            adr as int,
            val,
        ),
{
    if is_forbidden(adr) {
        return Err(Fault::ForbiddenMemoryAccess { address: adr, kind: AccessKind::Write });
    }
    mem[adr as usize] = val;
    Ok(())
}

/// Reads the little-endian word at `adr`; at 0xFFFF the high byte comes
/// from 0x0000.
pub fn read_word(adr: u16, mem: &[u8]) -> (r: u16)
    requires
        mem@.len() == MEMORY_SIZE,
    ensures
        r == word_at(mem@, adr),
{
    let lo = mem[adr as usize];
    let hi = mem[adr.wrapping_add(1) as usize];
    proof {
        assert(adr.wrapping_add(1) == ((adr + 1) % 0x10000) as u16) by (bit_vector);
        assert((lo as u16) | ((hi as u16) << 8u16) == (lo as int + 256 * hi as int) as u16)
            by (bit_vector);
    }
    (lo as u16) | ((hi as u16) << 8)
}

/// Writes `val` little-endian at `adr`; at 0xFFFF the high byte goes to
/// 0x0000. If either address is forbidden nothing is written and the fault
/// names the first such address.
pub fn write_word(adr: u16, val: u16, mem: &mut [u8]) -> (r: Result<(), Fault>)
    requires
        old(mem)@.len() == MEMORY_SIZE,
    ensures
        forbidden(adr) ==> r == Err::<(), Fault>(
            Fault::ForbiddenMemoryAccess { address: adr, kind: AccessKind::Write },
        ) && final(mem)@ == old(mem)@,
        !forbidden(adr) && forbidden(next_address(adr)) ==> r == Err::<(), Fault>(
            Fault::ForbiddenMemoryAccess { address: next_address(adr), kind: AccessKind::Write },
        ) && final(mem)@ == old(mem)@,
        !forbidden(adr) && !forbidden(next_address(adr)) ==> r == Ok::<(), Fault>(())
            && final(mem)@ == with_word(old(mem)@, adr, val),
{
    let next = adr.wrapping_add(1);
    proof {
        assert(adr.wrapping_add(1) == ((adr + 1) % 0x10000) as u16) by (bit_vector);
        assert((val & 0xFFu16) as u8 == (val % 256) as u8) by (bit_vector);
        assert((val >> 8u16) as u8 == (val / 256) as u8) by (bit_vector);
    }
    if is_forbidden(adr) {
        return Err(Fault::ForbiddenMemoryAccess { address: adr, kind: AccessKind::Write });
    }
    if is_forbidden(next) {
        return Err(Fault::ForbiddenMemoryAccess { address: next, kind: AccessKind::Write });
    }
    mem[adr as usize] = (val & 0x00FF) as u8;
    mem[next as usize] = (val >> 8) as u8;
    Ok(())
}

/// Accepts an image only when its cartridge-type byte asks for no bank
/// controller.
pub fn check_cartridge(mem: &[u8]) -> (r: Result<(), Fault>)
    requires
        mem@.len() == MEMORY_SIZE,
    ensures
        mem@[CARTRIDGE_TYPE_ADDRESS as int] == 0 ==> r == Ok::<(), Fault>(()),
        mem@[CARTRIDGE_TYPE_ADDRESS as int] != 0 ==> r == Err::<(), Fault>(
            Fault::UnsupportedCartridge { cartridge_type: mem@[CARTRIDGE_TYPE_ADDRESS as int] },
        ),
{
    let t = read_byte(CARTRIDGE_TYPE_ADDRESS, mem);
    if t == 0 {
        Ok(())
    } else {
        Err(Fault::UnsupportedCartridge { cartridge_type: t })
    }
}

/// A word written at an address reads back unchanged, wherever the write
/// succeeds, the top address 0xFFFF included.
pub proof fn lemma_word_round_trip(m: Seq<u8>, adr: u16, v: u16)
    requires
        m.len() == MEMORY_SIZE,
        !forbidden(adr),
        !forbidden(next_address(adr)),
    ensures
        word_at(with_word(m, adr, v), adr) == v,
{
    let w = with_word(m, adr, v);
    assert(next_address(adr) != adr);
    assert(w[adr as int] == low_byte(v));
    assert(w[next_address(adr) as int] == high_byte(v));
}

} // verus!

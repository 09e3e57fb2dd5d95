use vstd::prelude::*;

verus! {

/// Whether a memory access reads or writes.
#[derive(Clone, Copy, Debug, PartialEq, Eq, Structural)]
pub enum AccessKind {
    Read,
    Write,
}

/// The conditions that stop the machine. None of them is recoverable where
/// it occurs; each is handed to the driver.
#[derive(Clone, Copy, Debug, PartialEq, Eq, Structural)]
pub enum Fault {
    /// The opcode has no entry in the instruction table.
    UnsupportedOpcode { opcode: u8, address: u16 },
    /// An access falls in one of the two windows without hardware backing.
    ForbiddenMemoryAccess { address: u16, kind: AccessKind },
    /// The cartridge asks for a bank controller this machine lacks.
    UnsupportedCartridge { cartridge_type: u8 },
}

} // verus!

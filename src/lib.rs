//! Core of an 8-bit CPU interpreter in the style of the Sharp LR35902:
//! register file, memory bus, arithmetic/logic unit and instruction
//! dispatcher, each with a verified contract.

pub mod registers;
pub mod alu;
pub mod fault;
pub mod mmu;
pub mod instruction;
pub mod cpu;

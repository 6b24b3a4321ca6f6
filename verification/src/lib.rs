//! Instruction-execution core of a 6502-family CPU as found in the NES and its
//! regional variants: status flags, register file and stack, addressing modes,
//! the opcode table and the semantics of every opcode, against an abstract bus.
#![allow(non_camel_case_types)]

pub mod base;
pub mod cpu;
pub mod iomap;
pub mod ram;

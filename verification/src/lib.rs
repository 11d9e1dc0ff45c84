//! Execution core of a cycle-aware emulator for a 6502-class 8-bit CPU.
//!
//! The crate is organised leaf first: [`memory`] is the byte-addressable
//! store, [`opcodes`] the opcode metadata table, [`status`] and
//! [`registers`] the flag and register engine, [`addressing`] the
//! addressing-mode resolver, and [`decode`], [`execute`] and [`cpu`] the
//! instruction dispatcher.

pub mod addressing;
pub mod cpu;
pub mod decode;
pub mod error;
pub mod execute;
pub mod instruction;
pub mod memory;
pub mod opcodes;
pub mod registers;
pub mod status;

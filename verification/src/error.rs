//! The fatal conditions that stop the fetch-decode-execute loop.

use vstd::prelude::*;

verus! {

/// Why an instruction could not be executed. Every condition is fatal to the
/// instruction stream: the processor halts at the boundary of the
/// instruction that met it, and nothing is retried.
#[derive(Clone, Copy, Debug, PartialEq, Eq, Structural)]
pub enum CpuError {
    /// The opcode byte has no entry in the metadata table, or its entry names
    /// an instruction that the processor does not have.
    IllegalOpcode { code: u8 },
    /// The table pairs the instruction with an addressing mode that its
    /// semantics cannot support.
    AddressingModeMismatch { code: u8 },
    /// The instruction touched an address outside the memory that is owned.
    MemoryFault { address: u16 },
}

} // verus!

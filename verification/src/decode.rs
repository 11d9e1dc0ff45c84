//! The decode stage: from an opcode byte to the instruction that the
//! metadata table names for it.

use crate::cpu::AddressingMode;
use crate::error::CpuError;
use crate::instruction::Mnemonic;
use crate::opcodes::{entry_of, OpCode, OpCodeTable};
use vstd::prelude::*;

verus! {

/// A decoded instruction: the opcode byte that was fetched, the instruction
/// that the metadata table names for it, and the rest of its metadata.
#[derive(Clone, Copy, Debug, PartialEq, Eq, Structural)]
pub struct Instruction {
    pub code: u8,
    pub mnemonic: Mnemonic,
    pub mode: AddressingMode,
    pub len: u8,
    pub cycles: u8,
}

/// The instruction that the byte `code` encodes under a metadata table with
/// the contents `table`.
///
/// A byte without an entry is an illegal opcode, and so is one whose entry
/// names no instruction of the processor. An entry that pairs an instruction
/// with a mode that its semantics cannot support is a mismatch.
pub open spec fn decode_spec(table: Map<u8, OpCode>, code: u8) -> Result<Instruction, CpuError> {
    match entry_of(table, code) {
        None => Err(CpuError::IllegalOpcode { code }),
        Some(opcode) => match Mnemonic::spec_from_name(opcode.mnemonic@) {
            None => Err(CpuError::IllegalOpcode { code }),
            Some(mnemonic) => if mnemonic.spec_supports(opcode.mode) {
                Ok(
                    Instruction {
                        code,
                        mnemonic,
                        mode: opcode.mode,
                        len: opcode.len,
                        cycles: opcode.cycles,
                    },
                )
            } else {
                Err(CpuError::AddressingModeMismatch { code })
            },
        },
    }
}

/// Decodes the opcode byte `code` by the metadata `table`.
pub fn decode(table: &OpCodeTable, code: u8) -> (instruction: Result<Instruction, CpuError>)
    ensures
        instruction == decode_spec(table@, code),
{
    match table.lookup(code) {
        None => Err(CpuError::IllegalOpcode { code }),
        Some(opcode) => match Mnemonic::from_name(opcode.mnemonic) {
            None => Err(CpuError::IllegalOpcode { code }),
            Some(mnemonic) => if mnemonic.supports(opcode.mode) {
                Ok(
                    Instruction {
                        code,
                        mnemonic,
                        mode: opcode.mode,
                        len: opcode.len,
                        cycles: opcode.cycles,
                    },
                )
            } else {
                Err(CpuError::AddressingModeMismatch { code })
            },
        },
    }
}

/// A decoded instruction carries the byte that was fetched and the
/// metadata of its entry, and its mode is one that its semantics support.
pub proof fn lemma_decoded_is_supported(table: Map<u8, OpCode>, code: u8)
    ensures
        decode_spec(table, code) matches Ok(instruction) ==> {
            &&& table.contains_key(code)
            &&& instruction.code == code
            &&& instruction.mode == table[code].mode
            &&& instruction.len == table[code].len
            &&& instruction.cycles == table[code].cycles
            &&& instruction.mnemonic.spec_name() == table[code].mnemonic@
            &&& instruction.mnemonic.spec_supports(instruction.mode)
        },
        !table.contains_key(code) ==> decode_spec(table, code) == Err::<Instruction, CpuError>(
            CpuError::IllegalOpcode { code },
        ),
{
    if decode_spec(table, code) is Ok {
        let instruction = decode_spec(table, code)->Ok_0;
        assert(instruction.mnemonic.spec_name() =~= table[code].mnemonic@);
    }
}

} // verus!

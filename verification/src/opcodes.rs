//! Opcode metadata: what the dispatcher has to know of an opcode byte before
//! it can execute the instruction.

use crate::cpu::AddressingMode;
use std::collections::HashMap;
use vstd::prelude::*;

verus! {

/// The metadata of one opcode: the instruction it encodes, the number of
/// bytes the instruction takes, its base cost in cycles and the way it
/// finds its operand.
#[derive(Clone, Copy, Debug)]
pub struct OpCode {
    pub code: u8,
    pub mnemonic: &'static str,
    pub len: u8,
    pub cycles: u8,
    pub mode: AddressingMode,
}

impl OpCode {
    /// The metadata of the opcode `code`.
    pub fn new(code: u8, mnemonic: &'static str, len: u8, cycles: u8, mode: AddressingMode) -> (opcode:
        Self)
        ensures
            opcode == (OpCode { code, mnemonic, len, cycles, mode }),
    {
        OpCode { code: code, mnemonic: mnemonic, len: len, cycles: cycles, mode: mode }
    }
}

/// The entry of the documented instruction set for `code`, if it has one.
/// Cycle counts are base costs: a page crossing may add to them.
pub open spec fn standard_entry(code: u8) -> Option<OpCode> {
    match code {
        0x00 => Some(OpCode { code: 0x00, mnemonic: "BRK", len: 1, cycles: 7, mode: AddressingMode::Implicit }),
        0xaa => Some(OpCode { code: 0xaa, mnemonic: "TAX", len: 1, cycles: 2, mode: AddressingMode::Implicit }),
        0xe8 => Some(OpCode { code: 0xe8, mnemonic: "INX", len: 1, cycles: 2, mode: AddressingMode::Implicit }),
        0xa9 => Some(OpCode { code: 0xa9, mnemonic: "LDA", len: 2, cycles: 2, mode: AddressingMode::Immediate }),
        0xa5 => Some(OpCode { code: 0xa5, mnemonic: "LDA", len: 2, cycles: 3, mode: AddressingMode::ZeroPage }),
        0xb5 => Some(OpCode { code: 0xb5, mnemonic: "LDA", len: 2, cycles: 4, mode: AddressingMode::ZeroPageX }),
        0xad => Some(OpCode { code: 0xad, mnemonic: "LDA", len: 3, cycles: 4, mode: AddressingMode::Absolute }),
        0xbd => Some(OpCode { code: 0xbd, mnemonic: "LDA", len: 3, cycles: 4, mode: AddressingMode::AbsoluteX }),
        0xb9 => Some(OpCode { code: 0xb9, mnemonic: "LDA", len: 3, cycles: 4, mode: AddressingMode::AbsoluteY }),
        0xa1 => Some(OpCode { code: 0xa1, mnemonic: "LDA", len: 2, cycles: 6, mode: AddressingMode::IndirectX }),
        0xb1 => Some(OpCode { code: 0xb1, mnemonic: "LDA", len: 2, cycles: 5, mode: AddressingMode::IndirectY }),
        0xa2 => Some(OpCode { code: 0xa2, mnemonic: "LDX", len: 2, cycles: 2, mode: AddressingMode::Immediate }),
        0xa6 => Some(OpCode { code: 0xa6, mnemonic: "LDX", len: 2, cycles: 3, mode: AddressingMode::ZeroPage }),
        0xb6 => Some(OpCode { code: 0xb6, mnemonic: "LDX", len: 2, cycles: 4, mode: AddressingMode::ZeroPageY }),
        0xae => Some(OpCode { code: 0xae, mnemonic: "LDX", len: 3, cycles: 4, mode: AddressingMode::Absolute }),
        0xbe => Some(OpCode { code: 0xbe, mnemonic: "LDX", len: 3, cycles: 4, mode: AddressingMode::AbsoluteY }),
        0xa0 => Some(OpCode { code: 0xa0, mnemonic: "LDY", len: 2, cycles: 2, mode: AddressingMode::Immediate }),
        0xa4 => Some(OpCode { code: 0xa4, mnemonic: "LDY", len: 2, cycles: 3, mode: AddressingMode::ZeroPage }),
        0xb4 => Some(OpCode { code: 0xb4, mnemonic: "LDY", len: 2, cycles: 4, mode: AddressingMode::ZeroPageX }),
        0xac => Some(OpCode { code: 0xac, mnemonic: "LDY", len: 3, cycles: 4, mode: AddressingMode::Absolute }),
        0xbc => Some(OpCode { code: 0xbc, mnemonic: "LDY", len: 3, cycles: 4, mode: AddressingMode::AbsoluteX }),
        0x85 => Some(OpCode { code: 0x85, mnemonic: "STA", len: 2, cycles: 3, mode: AddressingMode::ZeroPage }),
        0x95 => Some(OpCode { code: 0x95, mnemonic: "STA", len: 2, cycles: 4, mode: AddressingMode::ZeroPageX }),
        0x8d => Some(OpCode { code: 0x8d, mnemonic: "STA", len: 3, cycles: 4, mode: AddressingMode::Absolute }),
        0x9d => Some(OpCode { code: 0x9d, mnemonic: "STA", len: 3, cycles: 5, mode: AddressingMode::AbsoluteX }),
        0x99 => Some(OpCode { code: 0x99, mnemonic: "STA", len: 3, cycles: 5, mode: AddressingMode::AbsoluteY }),
        0x81 => Some(OpCode { code: 0x81, mnemonic: "STA", len: 2, cycles: 6, mode: AddressingMode::IndirectX }),
        0x91 => Some(OpCode { code: 0x91, mnemonic: "STA", len: 2, cycles: 6, mode: AddressingMode::IndirectY }),
        0xc9 => Some(OpCode { code: 0xc9, mnemonic: "CMP", len: 2, cycles: 2, mode: AddressingMode::Immediate }),
        0xc5 => Some(OpCode { code: 0xc5, mnemonic: "CMP", len: 2, cycles: 3, mode: AddressingMode::ZeroPage }),
        0xd5 => Some(OpCode { code: 0xd5, mnemonic: "CMP", len: 2, cycles: 4, mode: AddressingMode::ZeroPageX }),
        0xcd => Some(OpCode { code: 0xcd, mnemonic: "CMP", len: 3, cycles: 4, mode: AddressingMode::Absolute }),
        0xdd => Some(OpCode { code: 0xdd, mnemonic: "CMP", len: 3, cycles: 4, mode: AddressingMode::AbsoluteX }),
        0xd9 => Some(OpCode { code: 0xd9, mnemonic: "CMP", len: 3, cycles: 4, mode: AddressingMode::AbsoluteY }),
        0xc1 => Some(OpCode { code: 0xc1, mnemonic: "CMP", len: 2, cycles: 6, mode: AddressingMode::IndirectX }),
        0xd1 => Some(OpCode { code: 0xd1, mnemonic: "CMP", len: 2, cycles: 5, mode: AddressingMode::IndirectY }),
        0xe0 => Some(OpCode { code: 0xe0, mnemonic: "CPX", len: 2, cycles: 2, mode: AddressingMode::Immediate }),
        0xe4 => Some(OpCode { code: 0xe4, mnemonic: "CPX", len: 2, cycles: 3, mode: AddressingMode::ZeroPage }),
        0xec => Some(OpCode { code: 0xec, mnemonic: "CPX", len: 3, cycles: 4, mode: AddressingMode::Absolute }),
        0xc0 => Some(OpCode { code: 0xc0, mnemonic: "CPY", len: 2, cycles: 2, mode: AddressingMode::Immediate }),
        0xc4 => Some(OpCode { code: 0xc4, mnemonic: "CPY", len: 2, cycles: 3, mode: AddressingMode::ZeroPage }),
        0xcc => Some(OpCode { code: 0xcc, mnemonic: "CPY", len: 3, cycles: 4, mode: AddressingMode::Absolute }),
        0x69 => Some(OpCode { code: 0x69, mnemonic: "ADC", len: 2, cycles: 2, mode: AddressingMode::Immediate }),
        0x65 => Some(OpCode { code: 0x65, mnemonic: "ADC", len: 2, cycles: 3, mode: AddressingMode::ZeroPage }),
        0x75 => Some(OpCode { code: 0x75, mnemonic: "ADC", len: 2, cycles: 4, mode: AddressingMode::ZeroPageX }),
        0x6d => Some(OpCode { code: 0x6d, mnemonic: "ADC", len: 3, cycles: 4, mode: AddressingMode::Absolute }),
        0x7d => Some(OpCode { code: 0x7d, mnemonic: "ADC", len: 3, cycles: 4, mode: AddressingMode::AbsoluteX }),
        0x79 => Some(OpCode { code: 0x79, mnemonic: "ADC", len: 3, cycles: 4, mode: AddressingMode::AbsoluteY }),
        0x61 => Some(OpCode { code: 0x61, mnemonic: "ADC", len: 2, cycles: 6, mode: AddressingMode::IndirectX }),
        0x71 => Some(OpCode { code: 0x71, mnemonic: "ADC", len: 2, cycles: 5, mode: AddressingMode::IndirectY }),
        _ => None,
    }
}

/// A table from opcode byte to metadata, built once and handed to the
/// dispatcher. A byte without an entry is an illegal opcode, which is not the
/// same as an entry that costs nothing.
///
/// Its view is the map from the bytes that have an entry to their metadata.
pub struct OpCodeTable {
    entries: HashMap<u8, OpCode>,
}

impl View for OpCodeTable {
    type V = Map<u8, OpCode>;

    closed spec fn view(&self) -> Map<u8, OpCode> {
        self.entries@
    }
}

/// The entry that a table with the contents `entries` holds for `code`, if
/// any.
pub open spec fn entry_of(entries: Map<u8, OpCode>, code: u8) -> Option<OpCode> {
    if entries.contains_key(code) {
        Some(entries[code])
    } else {
        None
    }
}

/// Whether every entry of `entries` is filed under its own opcode byte.
pub open spec fn filed_by_code(entries: Map<u8, OpCode>) -> bool {
    forall|code: u8| #[trigger] entries.contains_key(code) ==> entries[code].code == code
}

impl OpCodeTable {
    /// A table without entries: every byte is an illegal opcode.
    pub fn new() -> (table: OpCodeTable)
        ensures
            table@ == Map::<u8, OpCode>::empty(),
    {
        OpCodeTable { entries: HashMap::new() }
    }

    /// Files `opcode` under its opcode byte, in place of the entry that the
    /// byte had, and returns that entry.
    pub fn insert(&mut self, opcode: OpCode) -> (previous: Option<OpCode>)
        ensures
            final(self)@ == old(self)@.insert(opcode.code, opcode),
            previous == entry_of(old(self)@, opcode.code),
            filed_by_code(old(self)@) ==> filed_by_code(final(self)@),
    {
        broadcast use vstd::std_specs::hash::group_hash_axioms;

        self.entries.insert(opcode.code, opcode)
    }

    /// The entry for `code`, or nothing where the byte has none.
    pub fn lookup(&self, code: u8) -> (entry: Option<OpCode>)
        ensures
            entry == entry_of(self@, code),
    {
        broadcast use vstd::std_specs::hash::group_hash_axioms;

        match self.entries.get(&code) {
            Some(opcode) => Some(*opcode),
            None => None,
        }
    }

    /// The number of bytes that have an entry.
    pub fn len(&self) -> (count: usize)
        ensures
            count == self@.len(),
    {
        broadcast use vstd::std_specs::hash::group_hash_axioms;

        self.entries.len()
    }

    /// The table of the documented instruction set.
    pub fn standard() -> (table: OpCodeTable)
        ensures
            forall|code: u8| #[trigger] entry_of(table@, code) == standard_entry(code),
            filed_by_code(table@),
    {
        let mut table = OpCodeTable::new();
        table.insert(OpCode::new(0x00, "BRK", 1, 7, AddressingMode::Implicit));
        table.insert(OpCode::new(0xaa, "TAX", 1, 2, AddressingMode::Implicit));
        table.insert(OpCode::new(0xe8, "INX", 1, 2, AddressingMode::Implicit));
        table.insert(OpCode::new(0xa9, "LDA", 2, 2, AddressingMode::Immediate));
        table.insert(OpCode::new(0xa5, "LDA", 2, 3, AddressingMode::ZeroPage));
        table.insert(OpCode::new(0xb5, "LDA", 2, 4, AddressingMode::ZeroPageX));
        table.insert(OpCode::new(0xad, "LDA", 3, 4, AddressingMode::Absolute));
        table.insert(OpCode::new(0xbd, "LDA", 3, 4, AddressingMode::AbsoluteX));
        table.insert(OpCode::new(0xb9, "LDA", 3, 4, AddressingMode::AbsoluteY));
        table.insert(OpCode::new(0xa1, "LDA", 2, 6, AddressingMode::IndirectX));
        table.insert(OpCode::new(0xb1, "LDA", 2, 5, AddressingMode::IndirectY));
        table.insert(OpCode::new(0xa2, "LDX", 2, 2, AddressingMode::Immediate));
        table.insert(OpCode::new(0xa6, "LDX", 2, 3, AddressingMode::ZeroPage));
        table.insert(OpCode::new(0xb6, "LDX", 2, 4, AddressingMode::ZeroPageY));
        table.insert(OpCode::new(0xae, "LDX", 3, 4, AddressingMode::Absolute));
        table.insert(OpCode::new(0xbe, "LDX", 3, 4, AddressingMode::AbsoluteY));
        table.insert(OpCode::new(0xa0, "LDY", 2, 2, AddressingMode::Immediate));
        table.insert(OpCode::new(0xa4, "LDY", 2, 3, AddressingMode::ZeroPage));
        table.insert(OpCode::new(0xb4, "LDY", 2, 4, AddressingMode::ZeroPageX));
        table.insert(OpCode::new(0xac, "LDY", 3, 4, AddressingMode::Absolute));
        table.insert(OpCode::new(0xbc, "LDY", 3, 4, AddressingMode::AbsoluteX));
        table.insert(OpCode::new(0x85, "STA", 2, 3, AddressingMode::ZeroPage));
        table.insert(OpCode::new(0x95, "STA", 2, 4, AddressingMode::ZeroPageX));
        table.insert(OpCode::new(0x8d, "STA", 3, 4, AddressingMode::Absolute));
        table.insert(OpCode::new(0x9d, "STA", 3, 5, AddressingMode::AbsoluteX));
        table.insert(OpCode::new(0x99, "STA", 3, 5, AddressingMode::AbsoluteY));
        table.insert(OpCode::new(0x81, "STA", 2, 6, AddressingMode::IndirectX));
        table.insert(OpCode::new(0x91, "STA", 2, 6, AddressingMode::IndirectY));
        table.insert(OpCode::new(0xc9, "CMP", 2, 2, AddressingMode::Immediate));
        table.insert(OpCode::new(0xc5, "CMP", 2, 3, AddressingMode::ZeroPage));
        table.insert(OpCode::new(0xd5, "CMP", 2, 4, AddressingMode::ZeroPageX));
        table.insert(OpCode::new(0xcd, "CMP", 3, 4, AddressingMode::Absolute));
        table.insert(OpCode::new(0xdd, "CMP", 3, 4, AddressingMode::AbsoluteX));
        table.insert(OpCode::new(0xd9, "CMP", 3, 4, AddressingMode::AbsoluteY));
        table.insert(OpCode::new(0xc1, "CMP", 2, 6, AddressingMode::IndirectX));
        table.insert(OpCode::new(0xd1, "CMP", 2, 5, AddressingMode::IndirectY));
        table.insert(OpCode::new(0xe0, "CPX", 2, 2, AddressingMode::Immediate));
        table.insert(OpCode::new(0xe4, "CPX", 2, 3, AddressingMode::ZeroPage));
        table.insert(OpCode::new(0xec, "CPX", 3, 4, AddressingMode::Absolute));
        table.insert(OpCode::new(0xc0, "CPY", 2, 2, AddressingMode::Immediate));
        table.insert(OpCode::new(0xc4, "CPY", 2, 3, AddressingMode::ZeroPage));
        table.insert(OpCode::new(0xcc, "CPY", 3, 4, AddressingMode::Absolute));
        table.insert(OpCode::new(0x69, "ADC", 2, 2, AddressingMode::Immediate));
        table.insert(OpCode::new(0x65, "ADC", 2, 3, AddressingMode::ZeroPage));
        table.insert(OpCode::new(0x75, "ADC", 2, 4, AddressingMode::ZeroPageX));
        table.insert(OpCode::new(0x6d, "ADC", 3, 4, AddressingMode::Absolute));
        table.insert(OpCode::new(0x7d, "ADC", 3, 4, AddressingMode::AbsoluteX));
        table.insert(OpCode::new(0x79, "ADC", 3, 4, AddressingMode::AbsoluteY));
        table.insert(OpCode::new(0x61, "ADC", 2, 6, AddressingMode::IndirectX));
        table.insert(OpCode::new(0x71, "ADC", 2, 5, AddressingMode::IndirectY));
        table
    }
}

} // verus!

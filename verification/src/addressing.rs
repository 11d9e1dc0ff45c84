//! The addressing-mode resolver: from a mode and the bytes that follow the
//! opcode to the effective address of the operand.

use crate::cpu::AddressingMode;
use crate::error::CpuError;
use crate::memory::{following, read_at, read_pair_at, read_word_at, Memory};
use vstd::prelude::*;

verus! {

/// The address that an instruction operates on, and whether finding it
/// crossed a page boundary.
#[derive(Clone, Copy, Debug, PartialEq, Eq, Structural)]
pub struct EffectiveAddress {
    pub address: u16,
    pub page_crossed: bool,
}

/// The 256-byte page that holds `address`.
pub open spec fn page_of(address: u16) -> u16 {
    address / 0x100
}

/// The page-zero address `base` plus `index`, wrapping within page zero.
pub open spec fn zero_page_indexed(base: u8, index: u8) -> u16 {
    ((base + index) % 0x100) as u16
}

/// The address `base` plus `index`, wrapping at the end of the address
/// space.
pub open spec fn indexed(base: u16, index: u8) -> u16 {
    ((base + index) % 0x10000) as u16
}

/// The operand at `base` plus `index`: the page is crossed where the sum
/// lies in another page than `base`.
pub open spec fn indexed_operand(base: u16, index: u8) -> EffectiveAddress {
    EffectiveAddress {
        address: indexed(base, index),
        page_crossed: page_of(indexed(base, index)) != page_of(base),
    }
}

/// An operand at `address` that was found without crossing a page.
pub open spec fn plain_operand(address: u16) -> EffectiveAddress {
    EffectiveAddress { address, page_crossed: false }
}

/// The little-endian pointer stored in page zero at `location`: its high
/// byte is read from the next location of page zero, wrapping from `0xFF`
/// to `0x00`.
pub open spec fn read_zero_page_pointer(bytes: Seq<u8>, location: u16) -> Result<u16, CpuError> {
    read_pair_at(bytes, location, zero_page_indexed(location as u8, 1))
}

/// The operand of an instruction whose operand bytes start at
/// `program_counter`, in a memory that holds `bytes`: nothing for the
/// implicit mode, else the effective address and whether a page was
/// crossed, or the fault of the first byte read outside the memory.
pub open spec fn resolve_spec(
    mode: AddressingMode,
    program_counter: u16,
    index_x: u8,
    index_y: u8,
    bytes: Seq<u8>,
) -> Result<Option<EffectiveAddress>, CpuError> {
    match mode {
        AddressingMode::Implicit => Ok(None),
        AddressingMode::Immediate => Ok(Some(plain_operand(program_counter))),
        AddressingMode::ZeroPage => match read_at(bytes, program_counter) {
            Err(fault) => Err(fault),
            Ok(base) => Ok(Some(plain_operand(base as u16))),
        },
        AddressingMode::ZeroPageX => match read_at(bytes, program_counter) {
            Err(fault) => Err(fault),
            Ok(base) => Ok(Some(plain_operand(zero_page_indexed(base, index_x)))),
        },
        AddressingMode::ZeroPageY => match read_at(bytes, program_counter) {
            Err(fault) => Err(fault),
            Ok(base) => Ok(Some(plain_operand(zero_page_indexed(base, index_y)))),
        },
        AddressingMode::Absolute => match read_word_at(bytes, program_counter) {
            Err(fault) => Err(fault),
            Ok(base) => Ok(Some(plain_operand(base))),
        },
        AddressingMode::AbsoluteX => match read_word_at(bytes, program_counter) {
            Err(fault) => Err(fault),
            Ok(base) => Ok(Some(indexed_operand(base, index_x))),
        },
        AddressingMode::AbsoluteY => match read_word_at(bytes, program_counter) {
            Err(fault) => Err(fault),
            Ok(base) => Ok(Some(indexed_operand(base, index_y))),
        },
        AddressingMode::IndirectX => match read_at(bytes, program_counter) {
            Err(fault) => Err(fault),
            Ok(base) => match read_zero_page_pointer(bytes, zero_page_indexed(base, index_x)) {
                Err(fault) => Err(fault),
                Ok(address) => Ok(Some(plain_operand(address))),
            },
        },
        AddressingMode::IndirectY => match read_at(bytes, program_counter) {
            Err(fault) => Err(fault),
            Ok(base) => match read_zero_page_pointer(bytes, base as u16) {
                Err(fault) => Err(fault),
                Ok(pointer) => Ok(Some(indexed_operand(pointer, index_y))),
            },
        },
    }
}

/// The address from which an indirect jump through `pointer` takes the high
/// byte of its target: the address after `pointer`, but the start of the
/// same page where `pointer` is the last byte of its page.
pub open spec fn indirect_high_address(pointer: u16) -> u16 {
    if pointer % 0x100 == 0xff {
        (pointer - 0xff) as u16
    } else {
        (pointer + 1) as u16
    }
}

/// The target of an indirect jump through `pointer` in a memory that holds
/// `bytes`.
pub open spec fn indirect_jump_spec(bytes: Seq<u8>, pointer: u16) -> Result<u16, CpuError> {
    read_pair_at(bytes, pointer, indirect_high_address(pointer))
}

proof fn lemma_page_bits(base: u16, address: u16)
    by (bit_vector)
    ensures
        ((base & 0xff00) != (address & 0xff00)) == (base / 0x100 != address / 0x100),
        (base & 0x00ff == 0x00ff) == (base % 0x100 == 0xff),
        base & 0x00ff == 0x00ff ==> base & 0xff00 == base - 0xff,
{
}

/// Whether two addresses lie in the same page.
pub fn same_page(first: u16, second: u16) -> (same: bool)
    ensures
        same == (page_of(first) == page_of(second)),
{
    proof {
        lemma_page_bits(first, second);
    }
    (first & 0xff00) == (second & 0xff00)
}

fn zero_page_add(base: u8, index: u8) -> (address: u16)
    ensures
        address == zero_page_indexed(base, index),
{
    base.wrapping_add(index) as u16
}

fn index_address(base: u16, index: u8) -> (operand: EffectiveAddress)
    ensures
        operand == indexed_operand(base, index),
{
    let address = base.wrapping_add(index as u16);
    EffectiveAddress { address, page_crossed: !same_page(address, base) }
}

fn zero_page_pointer(memory: &Memory, location: u8) -> (pointer: Result<u16, CpuError>)
    ensures
        pointer == read_zero_page_pointer(memory@, location as u16),
{
    memory.try_read_pair(location as u16, location.wrapping_add(1) as u16)
}

/// Finds the operand of an instruction.
///
/// `program_counter` is the address of the byte after the opcode. The
/// result is nothing for the implicit mode, which has no operand, else the
/// effective address and whether finding it crossed a page boundary. Where
/// a byte that the mode reads lies outside the memory, the result is the
/// fault of the first such byte.
pub fn resolve(
    mode: AddressingMode,
    program_counter: u16,
    index_x: u8,
    index_y: u8,
    memory: &Memory,
) -> (operand: Result<Option<EffectiveAddress>, CpuError>)
    ensures
        operand == resolve_spec(mode, program_counter, index_x, index_y, memory@),
{
    match mode {
        AddressingMode::Implicit => Ok(None),
        AddressingMode::Immediate => Ok(
            Some(EffectiveAddress { address: program_counter, page_crossed: false }),
        ),
        AddressingMode::ZeroPage => {
            let base = memory.try_read_byte(program_counter)?;
            Ok(Some(EffectiveAddress { address: base as u16, page_crossed: false }))
        },
        AddressingMode::ZeroPageX => {
            let base = memory.try_read_byte(program_counter)?;
            Ok(
                Some(
                    EffectiveAddress { address: zero_page_add(base, index_x), page_crossed: false },
                ),
            )
        },
        AddressingMode::ZeroPageY => {
            let base = memory.try_read_byte(program_counter)?;
            Ok(
                Some(
                    EffectiveAddress { address: zero_page_add(base, index_y), page_crossed: false },
                ),
            )
        },
        AddressingMode::Absolute => {
            let base = memory.try_read_word(program_counter)?;
            Ok(Some(EffectiveAddress { address: base, page_crossed: false }))
        },
        AddressingMode::AbsoluteX => {
            let base = memory.try_read_word(program_counter)?;
            Ok(Some(index_address(base, index_x)))
        },
        AddressingMode::AbsoluteY => {
            let base = memory.try_read_word(program_counter)?;
            Ok(Some(index_address(base, index_y)))
        },
        AddressingMode::IndirectX => {
            let base = memory.try_read_byte(program_counter)?;
            let address = zero_page_pointer(memory, base.wrapping_add(index_x))?;
            Ok(Some(EffectiveAddress { address, page_crossed: false }))
        },
        AddressingMode::IndirectY => {
            let base = memory.try_read_byte(program_counter)?;
            let pointer = zero_page_pointer(memory, base)?;
            Ok(Some(index_address(pointer, index_y)))
        },
    }
}

/// Finds the target of an indirect jump through `pointer`.
///
/// The low byte of the target is read from `pointer`. The high byte is read
/// from the address after it, except where `pointer` is the last byte of a
/// page: there the processor does not carry into the page number, and the
/// high byte comes from the first byte of the same page.
pub fn resolve_indirect_jump(memory: &Memory, pointer: u16) -> (target: Result<u16, CpuError>)
    ensures
        target == indirect_jump_spec(memory@, pointer),
{
    proof {
        lemma_page_bits(pointer, pointer);
    }
    let high_address = if pointer & 0x00ff == 0x00ff {
        pointer & 0xff00
    } else {
        pointer + 1
    };
    memory.try_read_pair(pointer, high_address)
}

/// Resolving twice against memories with identical contents finds the same
/// operand: the effective address and the page-cross flag depend on nothing
/// but the mode, the program counter, the index registers and the bytes in
/// memory.
pub proof fn lemma_resolve_deterministic(
    mode: AddressingMode,
    program_counter: u16,
    index_x: u8,
    index_y: u8,
    first: Memory,
    second: Memory,
)
    requires
        first@ == second@,
    ensures
        resolve_spec(mode, program_counter, index_x, index_y, first@) == resolve_spec(
            mode,
            program_counter,
            index_x,
            index_y,
            second@,
        ),
{
}

/// Resolving consults nothing but the two bytes at the program counter and
/// page zero: memories of the same size that agree there give the same
/// operand, whatever else they hold.
pub proof fn lemma_resolve_reads_operand_and_page_zero(
    mode: AddressingMode,
    program_counter: u16,
    index_x: u8,
    index_y: u8,
    first: Seq<u8>,
    second: Seq<u8>,
)
    requires
        first.len() == second.len(),
        program_counter < first.len() ==> first[program_counter as int]
            == second[program_counter as int],
        following(program_counter) < first.len() ==> first[following(program_counter) as int]
            == second[following(program_counter) as int],
        forall|address: int|
            0 <= address < 0x100 && address < first.len() ==> first[address] == second[address],
    ensures
        resolve_spec(mode, program_counter, index_x, index_y, first) == resolve_spec(
            mode,
            program_counter,
            index_x,
            index_y,
            second,
        ),
{
}

/// Only the indexed absolute modes and the indirect mode indexed by Y can
/// cross a page: no other mode ever reports a crossing. The implicit mode,
/// and no other, has no operand.
pub proof fn lemma_page_cross_modes(
    mode: AddressingMode,
    program_counter: u16,
    index_x: u8,
    index_y: u8,
    bytes: Seq<u8>,
)
    ensures
        resolve_spec(mode, program_counter, index_x, index_y, bytes) matches Ok(Some(operand))
            && operand.page_crossed ==> mode == AddressingMode::AbsoluteX || mode
            == AddressingMode::AbsoluteY || mode == AddressingMode::IndirectY,
        mode == AddressingMode::Implicit <==> resolve_spec(
            mode,
            program_counter,
            index_x,
            index_y,
            bytes,
        ) == Ok::<Option<EffectiveAddress>, CpuError>(None),
{
}

/// An indexed absolute operand lies `index` bytes after the base address,
/// and the page is crossed exactly where adding the index to the low byte
/// of the base carries.
pub proof fn lemma_page_cross_is_carry(base: u16, index: u8)
    ensures
        indexed_operand(base, index).address == (base + index) % 0x10000,
        indexed_operand(base, index).page_crossed <==> base % 0x100 + index >= 0x100,
{
}

/// The indexed-indirect mode stays in page zero: the pointer is the
/// operand byte plus X taken modulo 256, its low byte is read there and its
/// high byte at the next location of page zero, wrapping from `0xFF` to
/// `0x00`, and no page crossing is reported.
pub proof fn lemma_indirect_x_stays_in_page_zero(
    program_counter: u16,
    index_x: u8,
    index_y: u8,
    bytes: Seq<u8>,
)
    ensures
        resolve_spec(AddressingMode::IndirectX, program_counter, index_x, index_y, bytes) matches Ok(
            Some(found),
        ) ==> {
            let base = bytes[program_counter as int];
            let low_at = (base + index_x) % 0x100;
            let high_at = (base + index_x + 1) % 0x100;
            &&& program_counter < bytes.len()
            &&& low_at < bytes.len()
            &&& high_at < bytes.len()
            &&& found.address == bytes[low_at] + 0x100 * bytes[high_at]
            &&& !found.page_crossed
        },
{
}

/// An indirect jump through a pointer that is not the last byte of its page
/// reads an ordinary little-endian word; through one that is, it reads the
/// high byte of its target from the first byte of the same page.
pub proof fn lemma_indirect_jump_wraps_in_page(bytes: Seq<u8>, pointer: u16)
    ensures
        pointer % 0x100 != 0xff ==> indirect_jump_spec(bytes, pointer) == read_word_at(
            bytes,
            pointer,
        ),
        pointer % 0x100 == 0xff ==> indirect_jump_spec(bytes, pointer) == read_pair_at(
            bytes,
            pointer,
            (page_of(pointer) * 0x100) as u16,
        ),
{
}

} // verus!

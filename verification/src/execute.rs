//! The execute stage: what each class of instruction does to registers and
//! memory, where it leaves the program counter and what it costs.

use crate::addressing::{
    indirect_jump_spec, page_of, resolve_indirect_jump, same_page, EffectiveAddress,
};
use crate::decode::Instruction;
use crate::error::CpuError;
use crate::instruction::{InstructionClass, Mnemonic};
use crate::memory::{following, make_word, read_at, read_word_at, word, write_at, Memory};
use crate::registers::{
    advanced, decremented, incremented, lemma_effects_keep_program_counter, RegisterState,
    Registers,
};
use crate::status::{signed, Flags, Status};
use vstd::prelude::*;

verus! {

/// The first address of the page that holds the stack.
pub const STACK_PAGE: u16 = 0x0100;

/// The registers after an instruction, with what it cost and whether it
/// halted the processor.
#[derive(Clone, Copy, Debug)]
pub struct Executed {
    pub registers: Registers,
    pub cycles_spent: u64,
    pub halted: bool,
}

/// The mathematical model of an executed instruction: the registers and the
/// memory after it, what it cost and whether it halted the processor.
pub struct Effect {
    pub registers: RegisterState,
    pub memory: Seq<u8>,
    pub cycles_spent: u64,
    pub halted: bool,
}

/// The address in the stack page that the stack pointer points at.
pub open spec fn stack_address(stack_pointer: u8) -> u16 {
    (STACK_PAGE + stack_pointer) as u16
}

/// The high byte of an address: its page.
pub open spec fn high_byte(address: u16) -> u8 {
    (address / 0x100) as u8
}

/// The low byte of an address: its place within its page.
pub open spec fn low_byte(address: u16) -> u8 {
    (address % 0x100) as u8
}

/// The address before `address`, wrapping from `0x0000` to `0xFFFF`.
pub open spec fn preceding(address: u16) -> u16 {
    if address == 0 {
        0xffff
    } else {
        (address - 1) as u16
    }
}

/// The address that lies `offset`, read as a signed byte, away from
/// `address`, wrapping at both ends of the address space.
pub open spec fn displaced(address: u16, offset: u8) -> u16 {
    ((address + signed(offset)) % 0x10000) as u16
}

/// A push of `value`: the byte goes to the address that the stack pointer
/// points at, and the stack pointer moves one down, wrapping within the
/// stack page.
pub open spec fn push_spec(registers: RegisterState, bytes: Seq<u8>, value: u8) -> Result<
    (RegisterState, Seq<u8>),
    CpuError,
> {
    match write_at(bytes, stack_address(registers.stack_pointer), value) {
        Err(fault) => Err(fault),
        Ok(written) => Ok(
            (
                RegisterState { stack_pointer: decremented(registers.stack_pointer), ..registers },
                written,
            ),
        ),
    }
}

/// A pull: the stack pointer moves one up, wrapping within the stack page,
/// and the byte comes from the address that it then points at.
pub open spec fn pull_spec(registers: RegisterState, bytes: Seq<u8>) -> Result<
    (RegisterState, u8),
    CpuError,
> {
    match read_at(bytes, stack_address(incremented(registers.stack_pointer))) {
        Err(fault) => Err(fault),
        Ok(value) => Ok(
            (
                RegisterState { stack_pointer: incremented(registers.stack_pointer), ..registers },
                value,
            ),
        ),
    }
}

/// A pull of a little-endian word: the low byte is pulled first.
pub open spec fn pull_word_spec(registers: RegisterState, bytes: Seq<u8>) -> Result<
    (RegisterState, u16),
    CpuError,
> {
    match pull_spec(registers, bytes) {
        Err(fault) => Err(fault),
        Ok((after_low, low)) => match pull_spec(after_low, bytes) {
            Err(fault) => Err(fault),
            Ok((after_high, high)) => Ok((after_high, word(low, high))),
        },
    }
}

/// A push of a word: the high byte is pushed first, so that a pull finds
/// the low byte first.
pub open spec fn push_word_spec(registers: RegisterState, bytes: Seq<u8>, value: u16) -> Result<
    (RegisterState, Seq<u8>),
    CpuError,
> {
    match push_spec(registers, bytes, high_byte(value)) {
        Err(fault) => Err(fault),
        Ok((after_high, written)) => push_spec(after_high, written, low_byte(value)),
    }
}

/// What an instruction costs that reads its operand: its base cycles, and
/// one cycle more where the operand was found across a page boundary.
pub open spec fn read_cycles(instruction: Instruction, page_crossed: bool) -> u64 {
    if page_crossed {
        (instruction.cycles + 1) as u64
    } else {
        instruction.cycles as u64
    }
}

/// What a branch costs: its base cycles, one cycle more where it is taken,
/// and one more again where the target lies in another page than the
/// instruction that follows the branch.
pub open spec fn branch_cycles(instruction: Instruction, taken: bool, next: u16, target: u16) -> u64 {
    if !taken {
        instruction.cycles as u64
    } else if page_of(target) == page_of(next) {
        (instruction.cycles + 1) as u64
    } else {
        (instruction.cycles + 2) as u64
    }
}

/// An instruction that completed without halting the processor.
pub open spec fn completed(registers: RegisterState, memory: Seq<u8>, cycles_spent: u64) -> Effect {
    Effect { registers, memory, cycles_spent, halted: false }
}

/// An instruction that works on registers alone: its effect on the
/// registers, then the program counter moves to the next instruction.
pub open spec fn implied_spec(registers: RegisterState, bytes: Seq<u8>, instruction: Instruction) -> Effect {
    completed(
        registers.after_implied(instruction.mnemonic).advance(instruction.len),
        bytes,
        instruction.cycles as u64,
    )
}

/// An instruction that halts: its effect on the registers, the program
/// counter left after the opcode, and the processor halted.
pub open spec fn halt_spec(registers: RegisterState, bytes: Seq<u8>, instruction: Instruction) -> Effect {
    Effect {
        registers: registers.after_implied(instruction.mnemonic).advance(1),
        memory: bytes,
        cycles_spent: instruction.cycles as u64,
        halted: true,
    }
}

/// An instruction that reads the operand at `found`: its effect on the
/// registers, and one cycle more than its base cost where a page was
/// crossed.
pub open spec fn read_spec(
    registers: RegisterState,
    bytes: Seq<u8>,
    instruction: Instruction,
    found: EffectiveAddress,
) -> Result<Effect, CpuError> {
    match read_at(bytes, found.address) {
        Err(fault) => Err(fault),
        Ok(value) => Ok(
            completed(
                registers.after_read(instruction.mnemonic, value).advance(instruction.len),
                bytes,
                read_cycles(instruction, found.page_crossed),
            ),
        ),
    }
}

/// An instruction that writes the operand at `found`: one byte of memory
/// changes, no register but the program counter does, and the cost is the
/// base cost whether a page was crossed or not.
pub open spec fn write_spec(
    registers: RegisterState,
    bytes: Seq<u8>,
    instruction: Instruction,
    found: EffectiveAddress,
) -> Result<Effect, CpuError> {
    match write_at(bytes, found.address, registers.stored_value(instruction.mnemonic)) {
        Err(fault) => Err(fault),
        Ok(written) => Ok(
            completed(
                registers.advance(instruction.len),
                written,
                instruction.cycles as u64,
            ),
        ),
    }
}

/// An instruction that modifies its operand: the one in memory at the
/// effective address, or the accumulator where there is no such address.
pub open spec fn modify_spec(
    registers: RegisterState,
    bytes: Seq<u8>,
    instruction: Instruction,
    operand: Option<EffectiveAddress>,
) -> Result<Effect, CpuError> {
    match operand {
        None => Ok(
            completed(
                registers.after_modify_accumulator(instruction.mnemonic).advance(instruction.len),
                bytes,
                instruction.cycles as u64,
            ),
        ),
        Some(found) => match read_at(bytes, found.address) {
            Err(fault) => Err(fault),
            Ok(value) => Ok(
                completed(
                    registers.after_modify(instruction.mnemonic, value).advance(instruction.len),
                    bytes.update(
                        found.address as int,
                        registers.modified_value(instruction.mnemonic, value),
                    ),
                    instruction.cycles as u64,
                ),
            ),
        },
    }
}

/// A branch whose signed offset is the byte at `found`: where the branch is
/// taken the program counter moves by the offset from the instruction that
/// follows, else it moves to that instruction.
pub open spec fn branch_spec(
    registers: RegisterState,
    bytes: Seq<u8>,
    instruction: Instruction,
    found: EffectiveAddress,
) -> Result<Effect, CpuError> {
    match read_at(bytes, found.address) {
        Err(fault) => Err(fault),
        Ok(offset) => {
            let next = advanced(registers.program_counter, instruction.len);
            let taken = registers.branch_taken(instruction.mnemonic);
            let target = if taken {
                displaced(next, offset)
            } else {
                next
            };
            Ok(
                completed(
                    registers.jump(target),
                    bytes,
                    branch_cycles(instruction, taken, next, target),
                ),
            )
        },
    }
}

/// A jump: to the effective address where the mode found one, else through
/// the pointer that follows the opcode, as an indirect jump reads it.
pub open spec fn jump_spec(
    registers: RegisterState,
    bytes: Seq<u8>,
    instruction: Instruction,
    operand: Option<EffectiveAddress>,
) -> Result<Effect, CpuError> {
    match operand {
        Some(found) => Ok(
            completed(registers.jump(found.address), bytes, instruction.cycles as u64),
        ),
        None => match read_word_at(bytes, following(registers.program_counter)) {
            Err(fault) => Err(fault),
            Ok(pointer) => match indirect_jump_spec(bytes, pointer) {
                Err(fault) => Err(fault),
                Ok(target) => Ok(completed(registers.jump(target), bytes, instruction.cycles as u64)),
            },
        },
    }
}

/// A call of the subroutine at `found`: the address of the last byte of the
/// call is pushed, high byte first, and the program counter moves to the
/// subroutine.
pub open spec fn call_spec(
    registers: RegisterState,
    bytes: Seq<u8>,
    instruction: Instruction,
    found: EffectiveAddress,
) -> Result<Effect, CpuError> {
    match push_word_spec(
        registers,
        bytes,
        preceding(advanced(registers.program_counter, instruction.len)),
    ) {
        Err(fault) => Err(fault),
        Ok((pushed, written)) => Ok(
            completed(pushed.jump(found.address), written, instruction.cycles as u64),
        ),
    }
}

/// A return. From a subroutine: the address that the call pushed is
/// pulled, and the program counter moves to the address after it. From an
/// interrupt: the status is pulled, with Break left clear, then the program
/// counter.
pub open spec fn return_spec(registers: RegisterState, bytes: Seq<u8>, instruction: Instruction) -> Result<
    Effect,
    CpuError,
> {
    if instruction.mnemonic == Mnemonic::Rti {
        match pull_spec(registers, bytes) {
            Err(fault) => Err(fault),
            Ok((after_status, status)) => match pull_word_spec(after_status, bytes) {
                Err(fault) => Err(fault),
                Ok((pulled, target)) => Ok(
                    completed(
                        RegisterState { flags: Flags::pulled(status), ..pulled }.jump(target),
                        bytes,
                        instruction.cycles as u64,
                    ),
                ),
            },
        }
    } else {
        match pull_word_spec(registers, bytes) {
            Err(fault) => Err(fault),
            Ok((pulled, address)) => Ok(
                completed(pulled.jump(following(address)), bytes, instruction.cycles as u64),
            ),
        }
    }
}

/// A push of a register.
pub open spec fn push_register_spec(
    registers: RegisterState,
    bytes: Seq<u8>,
    instruction: Instruction,
) -> Result<Effect, CpuError> {
    match push_spec(registers, bytes, registers.pushed_value(instruction.mnemonic)) {
        Err(fault) => Err(fault),
        Ok((pushed, written)) => Ok(
            completed(pushed.advance(instruction.len), written, instruction.cycles as u64),
        ),
    }
}

/// A pull of a register.
pub open spec fn pull_register_spec(
    registers: RegisterState,
    bytes: Seq<u8>,
    instruction: Instruction,
) -> Result<Effect, CpuError> {
    match pull_spec(registers, bytes) {
        Err(fault) => Err(fault),
        Ok((pulled, value)) => Ok(
            completed(
                pulled.after_pull(instruction.mnemonic, value).advance(instruction.len),
                bytes,
                instruction.cycles as u64,
            ),
        ),
    }
}

/// The operand that an instruction needs: what its mode found, or a
/// mismatch where the mode found none.
pub open spec fn needed(instruction: Instruction, operand: Option<EffectiveAddress>) -> Result<
    EffectiveAddress,
    CpuError,
> {
    match operand {
        None => Err(CpuError::AddressingModeMismatch { code: instruction.code }),
        Some(found) => Ok(found),
    }
}

/// What executing `instruction` does, where `registers` holds the address
/// of its opcode in the program counter and `operand` is what its
/// addressing mode found.
///
/// An instruction faults where an address that it reads or writes lies
/// outside the memory. An instruction that redirects control sets the
/// program counter itself; every other one leaves it at the instruction
/// that follows.
#[verifier::opaque]
pub open spec fn execute_spec(
    registers: RegisterState,
    bytes: Seq<u8>,
    instruction: Instruction,
    operand: Option<EffectiveAddress>,
) -> Result<Effect, CpuError> {
    match instruction.mnemonic.spec_class() {
        InstructionClass::Implied => Ok(implied_spec(registers, bytes, instruction)),
        InstructionClass::Halts => Ok(halt_spec(registers, bytes, instruction)),
        InstructionClass::Reads => match needed(instruction, operand) {
            Err(error) => Err(error),
            Ok(found) => read_spec(registers, bytes, instruction, found),
        },
        InstructionClass::Writes => match needed(instruction, operand) {
            Err(error) => Err(error),
            Ok(found) => write_spec(registers, bytes, instruction, found),
        },
        InstructionClass::Modifies => modify_spec(registers, bytes, instruction, operand),
        InstructionClass::Branches => match needed(instruction, operand) {
            Err(error) => Err(error),
            Ok(found) => branch_spec(registers, bytes, instruction, found),
        },
        InstructionClass::Jumps => jump_spec(registers, bytes, instruction, operand),
        InstructionClass::Calls => match needed(instruction, operand) {
            Err(error) => Err(error),
            Ok(found) => call_spec(registers, bytes, instruction, found),
        },
        InstructionClass::Returns => return_spec(registers, bytes, instruction),
        InstructionClass::Pushes => push_register_spec(registers, bytes, instruction),
        InstructionClass::Pulls => pull_register_spec(registers, bytes, instruction),
    }
}

proof fn lemma_byte_bits(address: u16)
    by (bit_vector)
    ensures
        (address >> 8) as u8 == address / 0x100,
        (address & 0x00ff) as u8 == address % 0x100,
{
}

fn stack_slot(stack_pointer: u8) -> (address: u16)
    ensures
        address == stack_address(stack_pointer),
{
    STACK_PAGE + stack_pointer as u16
}

fn displace(address: u16, offset: u8) -> (target: u16)
    ensures
        target == displaced(address, offset),
{
    if offset < 0x80 {
        address.wrapping_add(offset as u16)
    } else {
        address.wrapping_sub(0x100 - offset as u16)
    }
}

fn pull(registers: &mut Registers, memory: &Memory) -> (value: Result<u8, CpuError>)
    ensures
        match pull_spec(old(registers)@, memory@) {
            Err(fault) => value == Err::<u8, CpuError>(fault) && final(registers)@ == old(
                registers,
            )@,
            Ok((pulled, byte)) => value == Ok::<u8, CpuError>(byte) && final(registers)@ == pulled,
        },
{
    let stack_pointer = registers.stack_pointer.wrapping_add(1);
    let value = memory.try_read_byte(stack_slot(stack_pointer))?;
    registers.stack_pointer = stack_pointer;
    Ok(value)
}

fn pull_word(registers: &mut Registers, memory: &Memory) -> (value: Result<u16, CpuError>)
    ensures
        match pull_word_spec(old(registers)@, memory@) {
            Err(fault) => value == Err::<u16, CpuError>(fault) && final(registers)@ == old(
                registers,
            )@,
            Ok((pulled, target)) => value == Ok::<u16, CpuError>(target) && final(registers)@
                == pulled,
        },
{
    let mut pulled = *registers;
    let low = pull(&mut pulled, memory)?;
    let high = pull(&mut pulled, memory)?;
    *registers = pulled;
    Ok(make_word(low, high))
}

fn push(registers: &mut Registers, memory: &mut Memory, value: u8) -> (done: Result<(), CpuError>)
    ensures
        match push_spec(old(registers)@, old(memory)@, value) {
            Err(fault) => done == Err::<(), CpuError>(fault) && final(registers)@ == old(
                registers,
            )@ && final(memory)@ == old(memory)@,
            Ok((pushed, written)) => done == Ok::<(), CpuError>(()) && final(registers)@ == pushed
                && final(memory)@ == written,
        },
{
    memory.try_write_byte(stack_slot(registers.stack_pointer), value)?;
    registers.stack_pointer = registers.stack_pointer.wrapping_sub(1);
    Ok(())
}

fn push_word(registers: &mut Registers, memory: &mut Memory, value: u16) -> (done: Result<
    (),
    CpuError,
>)
    ensures
        match push_word_spec(old(registers)@, old(memory)@, value) {
            Err(fault) => done == Err::<(), CpuError>(fault) && final(registers)@ == old(
                registers,
            )@ && final(memory)@ == old(memory)@,
            Ok((pushed, written)) => done == Ok::<(), CpuError>(()) && final(registers)@ == pushed
                && final(memory)@ == written,
        },
{
    proof {
        lemma_byte_bits(value);
    }
    let high_slot = stack_slot(registers.stack_pointer);
    let low_slot = stack_slot(registers.stack_pointer.wrapping_sub(1));
    if !memory.contains(high_slot) {
        return Err(CpuError::MemoryFault { address: high_slot });
    }
    if !memory.contains(low_slot) {
        return Err(CpuError::MemoryFault { address: low_slot });
    }
    memory.write_byte(high_slot, (value >> 8) as u8);
    memory.write_byte(low_slot, (value & 0x00ff) as u8);
    registers.stack_pointer = registers.stack_pointer.wrapping_sub(2);
    Ok(())
}

fn finish(registers: Registers, cycles_spent: u64) -> (executed: Executed)
    ensures
        executed.registers == registers,
        executed.cycles_spent == cycles_spent,
        !executed.halted,
{
    Executed { registers, cycles_spent, halted: false }
}

fn execute_read(
    registers: Registers,
    memory: &Memory,
    instruction: Instruction,
    found: EffectiveAddress,
) -> (executed: Result<Executed, CpuError>)
    ensures
        agrees(executed, memory@, read_spec(registers@, memory@, instruction, found)),
{
    let mut registers = registers;
    let value = memory.try_read_byte(found.address)?;
    registers.apply_read(instruction.mnemonic, value);
    registers.advance(instruction.len);
    let penalty: u64 = if found.page_crossed { 1 } else { 0 };
    Ok(finish(registers, instruction.cycles as u64 + penalty))
}

fn execute_write(
    registers: Registers,
    memory: &mut Memory,
    instruction: Instruction,
    found: EffectiveAddress,
) -> (executed: Result<Executed, CpuError>)
    ensures
        agrees(executed, final(memory)@, write_spec(registers@, old(memory)@, instruction, found)),
        executed is Err ==> final(memory)@ == old(memory)@,
{
    let mut registers = registers;
    memory.try_write_byte(found.address, registers.stored_value(instruction.mnemonic))?;
    registers.advance(instruction.len);
    Ok(finish(registers, instruction.cycles as u64))
}

fn execute_modify(
    registers: Registers,
    memory: &mut Memory,
    instruction: Instruction,
    operand: Option<EffectiveAddress>,
) -> (executed: Result<Executed, CpuError>)
    ensures
        agrees(
            executed,
            final(memory)@,
            modify_spec(registers@, old(memory)@, instruction, operand),
        ),
        executed is Err ==> final(memory)@ == old(memory)@,
{
    let mut registers = registers;
    match operand {
        None => {
            registers.apply_modify_accumulator(instruction.mnemonic);
        },
        Some(found) => {
            let value = memory.try_read_byte(found.address)?;
            let result = registers.apply_modify(instruction.mnemonic, value);
            memory.write_byte(found.address, result);
        },
    }
    registers.advance(instruction.len);
    Ok(finish(registers, instruction.cycles as u64))
}

fn execute_branch(
    registers: Registers,
    memory: &Memory,
    instruction: Instruction,
    found: EffectiveAddress,
) -> (executed: Result<Executed, CpuError>)
    ensures
        agrees(executed, memory@, branch_spec(registers@, memory@, instruction, found)),
{
    let mut registers = registers;
    let offset = memory.try_read_byte(found.address)?;
    let next = registers.program_counter.wrapping_add(instruction.len as u16);
    if registers.branch_taken(instruction.mnemonic) {
        let target = displace(next, offset);
        let penalty: u64 = if same_page(target, next) { 1 } else { 2 };
        registers.jump(target);
        Ok(finish(registers, instruction.cycles as u64 + penalty))
    } else {
        registers.jump(next);
        Ok(finish(registers, instruction.cycles as u64))
    }
}

fn execute_jump(
    registers: Registers,
    memory: &Memory,
    instruction: Instruction,
    operand: Option<EffectiveAddress>,
) -> (executed: Result<Executed, CpuError>)
    ensures
        agrees(executed, memory@, jump_spec(registers@, memory@, instruction, operand)),
{
    let mut registers = registers;
    let target = match operand {
        Some(found) => found.address,
        None => {
            let pointer = memory.try_read_word(registers.program_counter.wrapping_add(1))?;
            resolve_indirect_jump(memory, pointer)?
        },
    };
    registers.jump(target);
    Ok(finish(registers, instruction.cycles as u64))
}

fn execute_call(
    registers: Registers,
    memory: &mut Memory,
    instruction: Instruction,
    found: EffectiveAddress,
) -> (executed: Result<Executed, CpuError>)
    ensures
        agrees(executed, final(memory)@, call_spec(registers@, old(memory)@, instruction, found)),
        executed is Err ==> final(memory)@ == old(memory)@,
{
    let mut registers = registers;
    let last = registers.program_counter.wrapping_add(instruction.len as u16).wrapping_sub(1);
    push_word(&mut registers, memory, last)?;
    registers.jump(found.address);
    Ok(finish(registers, instruction.cycles as u64))
}

fn execute_return(registers: Registers, memory: &Memory, instruction: Instruction) -> (executed:
    Result<Executed, CpuError>)
    ensures
        agrees(executed, memory@, return_spec(registers@, memory@, instruction)),
{
    let mut registers = registers;
    match instruction.mnemonic {
        Mnemonic::Rti => {
            let status = pull(&mut registers, memory)?;
            let target = pull_word(&mut registers, memory)?;
            registers.status = Status::pulled(status);
            registers.jump(target);
        },
        _ => {
            let address = pull_word(&mut registers, memory)?;
            registers.jump(address.wrapping_add(1));
        },
    }
    Ok(finish(registers, instruction.cycles as u64))
}

fn execute_push(registers: Registers, memory: &mut Memory, instruction: Instruction) -> (executed:
    Result<Executed, CpuError>)
    ensures
        agrees(
            executed,
            final(memory)@,
            push_register_spec(registers@, old(memory)@, instruction),
        ),
        executed is Err ==> final(memory)@ == old(memory)@,
{
    let mut registers = registers;
    let value = registers.pushed_value(instruction.mnemonic);
    push(&mut registers, memory, value)?;
    registers.advance(instruction.len);
    Ok(finish(registers, instruction.cycles as u64))
}

fn execute_pull(registers: Registers, memory: &Memory, instruction: Instruction) -> (executed:
    Result<Executed, CpuError>)
    ensures
        agrees(executed, memory@, pull_register_spec(registers@, memory@, instruction)),
{
    let mut registers = registers;
    let value = pull(&mut registers, memory)?;
    registers.apply_pull(instruction.mnemonic, value);
    registers.advance(instruction.len);
    Ok(finish(registers, instruction.cycles as u64))
}

/// Whether what an instruction did, `executed` and the memory `after` it,
/// is what `expected` says: the same error, or the same registers, memory,
/// cost and halt.
pub open spec fn agrees(
    executed: Result<Executed, CpuError>,
    after: Seq<u8>,
    expected: Result<Effect, CpuError>,
) -> bool {
    match expected {
        Err(error) => executed == Err::<Executed, CpuError>(error),
        Ok(effect) => executed matches Ok(done) && done.registers@ == effect.registers
            && done.cycles_spent == effect.cycles_spent && done.halted == effect.halted && after
            == effect.memory,
    }
}

/// Executes a decoded instruction on `registers` and `memory`.
///
/// `registers` holds the address of the opcode in the program counter, and
/// `operand` is what the addressing mode of the instruction found. The
/// result holds the registers after the instruction, what it cost and
/// whether it halted the processor. Where the instruction fails, the memory
/// is as it was.
pub fn execute(
    registers: Registers,
    memory: &mut Memory,
    instruction: Instruction,
    operand: Option<EffectiveAddress>,
) -> (executed: Result<Executed, CpuError>)
    ensures
        agrees(
            executed,
            final(memory)@,
            execute_spec(registers@, old(memory)@, instruction, operand),
        ),
        executed is Err ==> final(memory)@ == old(memory)@,
{
    reveal(execute_spec);
    let mismatch = CpuError::AddressingModeMismatch { code: instruction.code };
    match instruction.mnemonic.class() {
        InstructionClass::Implied => {
            let mut registers = registers;
            registers.apply_implied(instruction.mnemonic);
            registers.advance(instruction.len);
            Ok(finish(registers, instruction.cycles as u64))
        },
        InstructionClass::Halts => {
            let mut registers = registers;
            registers.apply_implied(instruction.mnemonic);
            registers.advance(1);
            Ok(Executed { registers, cycles_spent: instruction.cycles as u64, halted: true })
        },
        InstructionClass::Reads => match operand {
            None => Err(mismatch),
            Some(found) => execute_read(registers, memory, instruction, found),
        },
        InstructionClass::Writes => match operand {
            None => Err(mismatch),
            Some(found) => execute_write(registers, memory, instruction, found),
        },
        InstructionClass::Modifies => execute_modify(registers, memory, instruction, operand),
        InstructionClass::Branches => match operand {
            None => Err(mismatch),
            Some(found) => execute_branch(registers, memory, instruction, found),
        },
        InstructionClass::Jumps => execute_jump(registers, memory, instruction, operand),
        InstructionClass::Calls => match operand {
            None => Err(mismatch),
            Some(found) => execute_call(registers, memory, instruction, found),
        },
        InstructionClass::Returns => execute_return(registers, memory, instruction),
        InstructionClass::Pushes => execute_push(registers, memory, instruction),
        InstructionClass::Pulls => execute_pull(registers, memory, instruction),
    }
}

/// A pull after a push gives the pushed byte back and leaves the stack
/// pointer where it was before the push.
pub proof fn lemma_push_pull_round_trip(registers: RegisterState, bytes: Seq<u8>, value: u8)
    ensures
        push_spec(registers, bytes, value) matches Ok((pushed, written)) ==> pull_spec(
            pushed,
            written,
        ) == Ok::<(RegisterState, u8), CpuError>((registers, value)),
{
}

/// A pull of a word after a push of a word gives the pushed word back and
/// leaves the stack pointer where it was before the push.
pub proof fn lemma_push_pull_word_round_trip(registers: RegisterState, bytes: Seq<u8>, value: u16)
    ensures
        push_word_spec(registers, bytes, value) matches Ok((pushed, written)) ==> pull_word_spec(
            pushed,
            written,
        ) == Ok::<(RegisterState, u16), CpuError>((registers, value)),
{
    if push_word_spec(registers, bytes, value) is Ok {
        let (after_high, written_high) = push_spec(registers, bytes, high_byte(value))->Ok_0;
        let (after_low, written) = push_spec(after_high, written_high, low_byte(value))->Ok_0;
        lemma_push_pull_round_trip(after_high, written_high, low_byte(value));
        lemma_push_pull_round_trip(registers, bytes, high_byte(value));
        assert(stack_address(registers.stack_pointer) != stack_address(after_high.stack_pointer));
        assert(written[stack_address(registers.stack_pointer) as int] == high_byte(value));
        assert(pull_spec(after_high, written) == Ok::<(RegisterState, u8), CpuError>(
            (registers, high_byte(value)),
        ));
        assert(word(low_byte(value), high_byte(value)) == value);
    }
}

/// A return from a subroutine after a call continues at the instruction
/// that follows the call, with the stack pointer where it was before the
/// call and every other register as the call left it.
pub proof fn lemma_call_return_round_trip(
    registers: RegisterState,
    bytes: Seq<u8>,
    call: Instruction,
    found: EffectiveAddress,
    back: Instruction,
)
    requires
        back.mnemonic == Mnemonic::Rts,
    ensures
        call_spec(registers, bytes, call, found) matches Ok(called) ==> {
            &&& called.registers.program_counter == found.address
            &&& return_spec(called.registers, called.memory, back) matches Ok(returned)
            &&& returned.registers == registers.advance(call.len)
            &&& returned.memory == called.memory
        },
{
    let last = preceding(advanced(registers.program_counter, call.len));
    if call_spec(registers, bytes, call, found) is Ok {
        let (pushed, written) = push_word_spec(registers, bytes, last)->Ok_0;
        lemma_push_pull_word_round_trip(registers, bytes, last);
        assert(pull_word_spec(pushed.jump(found.address), written) == Ok::<
            (RegisterState, u16),
            CpuError,
        >((registers.jump(found.address), last)));
        assert(following(last) == advanced(registers.program_counter, call.len));
    }
}

/// What an instruction costs, by its class: a branch costs its base cycles
/// and up to two more; an instruction that reads its operand costs one more
/// than its base cycles exactly where a page was crossed; every other
/// instruction, stores among them, costs its base cycles whatever the
/// addressing mode met.
pub proof fn lemma_cost_by_class(
    registers: RegisterState,
    bytes: Seq<u8>,
    instruction: Instruction,
    operand: Option<EffectiveAddress>,
)
    ensures
        execute_spec(registers, bytes, instruction, operand) matches Ok(effect) ==> {
            let class = instruction.mnemonic.spec_class();
            let crossed = operand matches Some(found) && found.page_crossed;
            &&& class == InstructionClass::Branches ==> instruction.cycles <= effect.cycles_spent
                <= instruction.cycles + 2
            &&& class == InstructionClass::Reads && crossed ==> effect.cycles_spent
                == instruction.cycles + 1
            &&& class == InstructionClass::Reads && !crossed ==> effect.cycles_spent
                == instruction.cycles
            &&& class != InstructionClass::Branches && class != InstructionClass::Reads
                ==> effect.cycles_spent == instruction.cycles
        },
{
    reveal(execute_spec);
}

/// Where an instruction leaves the program counter, by its class: one that
/// does not redirect control leaves it at the instruction that follows,
/// and one that halts leaves it after its opcode.
pub proof fn lemma_program_counter_by_class(
    registers: RegisterState,
    bytes: Seq<u8>,
    instruction: Instruction,
    operand: Option<EffectiveAddress>,
)
    ensures
        execute_spec(registers, bytes, instruction, operand) matches Ok(effect) ==> {
            let class = instruction.mnemonic.spec_class();
            &&& (class == InstructionClass::Implied || class == InstructionClass::Reads || class
                == InstructionClass::Writes || class == InstructionClass::Modifies || class
                == InstructionClass::Pushes || class == InstructionClass::Pulls)
                ==> effect.registers.program_counter == advanced(
                registers.program_counter,
                instruction.len,
            )
            &&& class == InstructionClass::Halts ==> effect.registers.program_counter == following(
                registers.program_counter,
            )
            &&& effect.halted <==> class == InstructionClass::Halts
        },
{
    reveal(execute_spec);
    let mnemonic = instruction.mnemonic;
    lemma_effects_keep_program_counter(registers, mnemonic, 0);
    match mnemonic.spec_class() {
        InstructionClass::Reads => {
            if operand is Some && read_at(bytes, operand->0.address) is Ok {
                lemma_effects_keep_program_counter(
                    registers,
                    mnemonic,
                    read_at(bytes, operand->0.address)->Ok_0,
                );
            }
        },
        InstructionClass::Modifies => {
            if operand is Some && read_at(bytes, operand->0.address) is Ok {
                lemma_effects_keep_program_counter(
                    registers,
                    mnemonic,
                    read_at(bytes, operand->0.address)->Ok_0,
                );
            }
        },
        InstructionClass::Pulls => {
            if pull_spec(registers, bytes) is Ok {
                let (pulled, value) = pull_spec(registers, bytes)->Ok_0;
                lemma_effects_keep_program_counter(pulled, mnemonic, value);
            }
        },
        _ => {},
    }
}

/// What an instruction does to memory, by its class: the size of the
/// memory never changes, and only a store, a modification in memory, a
/// call and a push change any byte.
pub proof fn lemma_memory_by_class(
    registers: RegisterState,
    bytes: Seq<u8>,
    instruction: Instruction,
    operand: Option<EffectiveAddress>,
)
    ensures
        execute_spec(registers, bytes, instruction, operand) matches Ok(effect) ==> {
            let class = instruction.mnemonic.spec_class();
            &&& effect.memory.len() == bytes.len()
            &&& (class != InstructionClass::Writes && class != InstructionClass::Modifies && class
                != InstructionClass::Calls && class != InstructionClass::Pushes) ==> effect.memory
                == bytes
            &&& (class == InstructionClass::Writes || class == InstructionClass::Modifies)
                ==> forall|address: int|
                0 <= address < bytes.len() && !(operand is Some && operand->0.address == address)
                    ==> effect.memory[address] == bytes[address]
        },
{
    reveal(execute_spec);
}

} // verus!

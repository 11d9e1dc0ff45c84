//! The instruction dispatcher: the fetch-decode-execute loop.

use crate::addressing::{resolve, resolve_spec};
use crate::decode::{decode, decode_spec, Instruction};
use crate::error::CpuError;
use crate::execute::{execute, execute_spec, lemma_memory_by_class, Effect};
use crate::memory::{following, read_at, read_word_at, Memory, ADDRESS_SPACE};
use crate::opcodes::{entry_of, standard_entry, OpCode, OpCodeTable};
use crate::registers::{advanced, RegisterState, Registers, RESET_VECTOR};
use crate::status::{Flag, Flags, Status};
use vstd::prelude::*;

verus! {

/// The rule by which an instruction finds its operand.
#[derive(Clone, Copy, Debug, PartialEq, Eq, Structural)]
pub enum AddressingMode {
    /// No operand, or an operand that the instruction itself implies.
    Implicit,
    /// The operand is the byte that follows the opcode.
    Immediate,
    /// The byte that follows the opcode is an address in page zero.
    ZeroPage,
    /// A page-zero address plus X, wrapping within page zero.
    ZeroPageX,
    /// A page-zero address plus Y, wrapping within page zero.
    ZeroPageY,
    /// The two bytes that follow the opcode are a little-endian address.
    Absolute,
    /// An absolute address plus X.
    AbsoluteX,
    /// An absolute address plus Y.
    AbsoluteY,
    /// A page-zero address plus X holds the address of the operand.
    IndirectX,
    /// A page-zero address holds a pointer, and the pointer plus Y is the
    /// address of the operand.
    IndirectY,
}

/// What one step reports to the driver: the cycles that the instruction
/// took, and whether the processor is halted after it.
#[derive(Clone, Copy, Debug, PartialEq, Eq, Structural)]
pub struct StepResult {
    pub cycles_spent: u64,
    pub halted: bool,
}

/// What a run reports to the driver: the cycles and the steps that it took,
/// and whether the processor is halted after it.
#[derive(Clone, Copy, Debug, PartialEq, Eq, Structural)]
pub struct RunResult {
    pub cycles_spent: u64,
    pub steps_taken: u64,
    pub halted: bool,
}

/// The mathematical model of the processor: its registers, the cycles it
/// has counted and whether it is halted.
pub struct CpuState {
    pub registers: RegisterState,
    pub cycles_elapsed: u64,
    pub halted: bool,
}

/// The processor and the memory after a step, and what the step reported.
pub struct StepOutcome {
    pub cpu: CpuState,
    pub memory: Seq<u8>,
    pub result: Result<StepResult, CpuError>,
}

/// The processor and the memory after a run, and what the run reported.
pub struct RunOutcome {
    pub cpu: CpuState,
    pub memory: Seq<u8>,
    pub result: Result<RunResult, CpuError>,
}

/// The sum of two cycle counts, wrapping silently at 64 bits.
pub open spec fn add_cycles(count: u64, more: u64) -> u64 {
    ((count + more) % 0x1_0000_0000_0000_0000) as u64
}

/// The sum of two cycle counts, held at the largest count where it would
/// pass it.
pub open spec fn add_cycles_saturating(count: u64, more: u64) -> u64 {
    if count + more > u64::MAX {
        u64::MAX
    } else {
        (count + more) as u64
    }
}

/// What fetching, decoding, resolving and executing the instruction at the
/// program counter does. The first stage that fails decides the error.
pub open spec fn instruction_spec(
    registers: RegisterState,
    bytes: Seq<u8>,
    table: Map<u8, OpCode>,
) -> Result<Effect, CpuError> {
    match read_at(bytes, registers.program_counter) {
        Err(fault) => Err(fault),
        Ok(code) => match decode_spec(table, code) {
            Err(error) => Err(error),
            Ok(instruction) => match resolve_spec(
                instruction.mode,
                following(registers.program_counter),
                registers.index_x,
                registers.index_y,
                bytes,
            ) {
                Err(fault) => Err(fault),
                Ok(operand) => execute_spec(registers, bytes, instruction, operand),
            },
        },
    }
}

impl CpuState {
    /// The processor as it is built, before its first reset: as after a
    /// reset that found the entry point zero.
    pub open spec fn initial() -> CpuState {
        CpuState { registers: RegisterState::reset(0), cycles_elapsed: 0, halted: false }
    }

    /// This processor, halted.
    pub open spec fn halt(self) -> CpuState {
        CpuState { halted: true, ..self }
    }

    /// The processor and the memory after a reset, and what the reset
    /// reports: the program counter is loaded from the reset vector, the
    /// other registers take their reset values, the cycle count is zero and
    /// the processor runs. Where the reset vector lies outside the memory,
    /// the processor halts as it is.
    pub open spec fn reset(self, bytes: Seq<u8>) -> (CpuState, Result<(), CpuError>) {
        match read_word_at(bytes, RESET_VECTOR) {
            Err(fault) => (self.halt(), Err(fault)),
            Ok(entry) => (
                CpuState { registers: RegisterState::reset(entry), cycles_elapsed: 0, halted: false },
                Ok(()),
            ),
        }
    }

    /// The processor and the memory after one step, and what the step
    /// reports.
    ///
    /// A halted processor stays as it is and reports a step of no cycles.
    /// An instruction that executes leaves its effect and adds its cost to
    /// the cycle count. An instruction that fails halts the processor and
    /// leaves the registers, the cycle count and the memory as they were.
    pub open spec fn step(self, bytes: Seq<u8>, table: Map<u8, OpCode>) -> StepOutcome {
        if self.halted {
            StepOutcome {
                cpu: self,
                memory: bytes,
                result: Ok(StepResult { cycles_spent: 0, halted: true }),
            }
        } else {
            match instruction_spec(self.registers, bytes, table) {
                Err(error) => StepOutcome { cpu: self.halt(), memory: bytes, result: Err(error) },
                Ok(effect) => StepOutcome {
                    cpu: CpuState {
                        registers: effect.registers,
                        cycles_elapsed: add_cycles(self.cycles_elapsed, effect.cycles_spent),
                        halted: effect.halted,
                    },
                    memory: effect.memory,
                    result: Ok(
                        StepResult { cycles_spent: effect.cycles_spent, halted: effect.halted },
                    ),
                },
            }
        }
    }

    /// The processor and the memory after a run that has already spent
    /// `spent` cycles in `taken` steps, and what the run reports.
    ///
    /// The run ends where the processor is halted, where the cycles spent
    /// have reached `cycle_budget` or where the steps taken have reached
    /// `step_budget`. Until then it takes one step after the other, and the
    /// first step that fails ends the run with its error.
    pub open spec fn run(
        self,
        bytes: Seq<u8>,
        table: Map<u8, OpCode>,
        cycle_budget: u64,
        step_budget: u64,
        spent: u64,
        taken: u64,
    ) -> RunOutcome
        decreases step_budget - taken,
    {
        if self.halted || spent >= cycle_budget || taken >= step_budget {
            RunOutcome {
                cpu: self,
                memory: bytes,
                result: Ok(
                    RunResult { cycles_spent: spent, steps_taken: taken, halted: self.halted },
                ),
            }
        } else {
            let next = self.step(bytes, table);
            match next.result {
                Err(error) => RunOutcome { cpu: next.cpu, memory: next.memory, result: Err(error) },
                Ok(stepped) => next.cpu.run(
                    next.memory,
                    table,
                    cycle_budget,
                    step_budget,
                    add_cycles_saturating(spent, stepped.cycles_spent),
                    (taken + 1) as u64,
                ),
            }
        }
    }
}

/// The processor: the register file, the metadata table that it decodes by,
/// the count of the cycles it has spent, and whether it is halted.
///
/// The memory is not part of the processor: each operation that needs it
/// borrows it from the driver.
pub struct Cpu {
    registers: Registers,
    table: OpCodeTable,
    cycles_elapsed: u64,
    halted: bool,
}

impl View for Cpu {
    type V = CpuState;

    closed spec fn view(&self) -> CpuState {
        CpuState {
            registers: self.registers@,
            cycles_elapsed: self.cycles_elapsed,
            halted: self.halted,
        }
    }
}

impl Cpu {
    /// The contents of the metadata table that the processor decodes by.
    pub closed spec fn table(&self) -> Map<u8, OpCode> {
        self.table@
    }

    /// A processor that decodes by `table`. Before it runs a program it
    /// wants a reset, which loads the program counter.
    pub fn new(table: OpCodeTable) -> (cpu: Cpu)
        ensures
            cpu@ == CpuState::initial(),
            cpu.table() == table@,
    {
        Cpu { registers: Registers::reset(0), table, cycles_elapsed: 0, halted: false }
    }

    /// Puts the processor in its reset state: the program counter is loaded
    /// from the reset vector in `memory`, the data registers are zero, the
    /// stack pointer is at its reset value, InterruptDisable is the only
    /// flag set, the cycle count is zero and the processor runs.
    ///
    /// Where the reset vector lies outside the memory, the reset reports the
    /// fault and halts the processor as it is.
    pub fn reset(&mut self, memory: &Memory) -> (done: Result<(), CpuError>)
        ensures
            final(self).table() == old(self).table(),
            (final(self)@, done) == old(self)@.reset(memory@),
    {
        match memory.try_read_word(RESET_VECTOR) {
            Err(fault) => {
                self.halted = true;
                Err(fault)
            },
            Ok(entry) => {
                self.registers = Registers::reset(entry);
                self.cycles_elapsed = 0;
                self.halted = false;
                Ok(())
            },
        }
    }

    fn perform(&mut self, memory: &mut Memory) -> (result: Result<StepResult, CpuError>)
        requires
            !old(self)@.halted,
        ensures
            final(self).table() == old(self).table(),
            match instruction_spec(old(self)@.registers, old(memory)@, old(self).table()) {
                Err(error) => result == Err::<StepResult, CpuError>(error) && final(self)@ == old(
                    self,
                )@ && final(memory)@ == old(memory)@,
                Ok(effect) => result == Ok::<StepResult, CpuError>(
                    StepResult { cycles_spent: effect.cycles_spent, halted: effect.halted },
                ) && final(self)@ == old(self)@.step(old(memory)@, old(self).table()).cpu
                    && final(memory)@ == effect.memory,
            },
    {
        let program_counter = self.registers.program_counter;
        let code = memory.try_read_byte(program_counter)?;
        let instruction = decode(&self.table, code)?;
        let operand = resolve(
            instruction.mode,
            program_counter.wrapping_add(1),
            self.registers.index_x,
            self.registers.index_y,
            memory,
        )?;
        let executed = execute(self.registers, memory, instruction, operand)?;
        self.registers = executed.registers;
        self.cycles_elapsed = self.cycles_elapsed.wrapping_add(executed.cycles_spent);
        self.halted = executed.halted;
        Ok(StepResult { cycles_spent: executed.cycles_spent, halted: executed.halted })
    }

    /// Fetches, decodes and executes one instruction.
    ///
    /// A halted processor does nothing and reports a step of no cycles.
    /// Otherwise the step reads the opcode at the program counter, looks it
    /// up in the metadata table, resolves its operand, performs its effect
    /// on registers and memory, moves the program counter on and adds the
    /// cost of the instruction to the cycle count. Where any of this fails
    /// the step reports the error and halts the processor, and registers,
    /// cycle count and memory are as the last completed instruction left
    /// them.
    pub fn step(&mut self, memory: &mut Memory) -> (result: Result<StepResult, CpuError>)
        ensures
            final(self).table() == old(self).table(),
            final(self)@ == old(self)@.step(old(memory)@, old(self).table()).cpu,
            final(memory)@ == old(self)@.step(old(memory)@, old(self).table()).memory,
            result == old(self)@.step(old(memory)@, old(self).table()).result,
    {
        if self.halted {
            return Ok(StepResult { cycles_spent: 0, halted: true });
        }
        match self.perform(memory) {
            Ok(stepped) => Ok(stepped),
            Err(error) => {
                self.halted = true;
                Err(error)
            },
        }
    }

    /// Executes instructions until the processor is halted or a budget is
    /// used up.
    ///
    /// Before each step the run ends where the processor is halted, where
    /// the cycles spent so far have reached `cycle_budget`, or where
    /// `step_budget` steps have been taken. The last instruction may take
    /// the cycles spent past the budget: instructions are not cut short.
    /// The first step that fails ends the run with its error. The count of
    /// the cycles spent stays at the largest count where it would pass it.
    pub fn run_until(&mut self, memory: &mut Memory, cycle_budget: u64, step_budget: u64) -> (result:
        Result<RunResult, CpuError>)
        ensures
            final(self).table() == old(self).table(),
            final(self)@ == old(self)@.run(
                old(memory)@,
                old(self).table(),
                cycle_budget,
                step_budget,
                0,
                0,
            ).cpu,
            final(memory)@ == old(self)@.run(
                old(memory)@,
                old(self).table(),
                cycle_budget,
                step_budget,
                0,
                0,
            ).memory,
            result == old(self)@.run(
                old(memory)@,
                old(self).table(),
                cycle_budget,
                step_budget,
                0,
                0,
            ).result,
    {
        let mut spent: u64 = 0;
        let mut taken: u64 = 0;
        while !self.halted && spent < cycle_budget && taken < step_budget
            invariant
                self.table() == old(self).table(),
                taken <= step_budget,
                self@.run(memory@, self.table(), cycle_budget, step_budget, spent, taken) == old(
                    self,
                )@.run(old(memory)@, old(self).table(), cycle_budget, step_budget, 0, 0),
            decreases step_budget - taken,
        {
            match self.step(memory) {
                Err(error) => {
                    return Err(error);
                },
                Ok(stepped) => {
                    spent = spent.saturating_add(stepped.cycles_spent);
                    taken = taken + 1;
                },
            }
        }
        Ok(RunResult { cycles_spent: spent, steps_taken: taken, halted: self.halted })
    }

    /// The accumulator.
    pub fn accumulator(&self) -> (value: u8)
        ensures
            value == self@.registers.accumulator,
    {
        self.registers.accumulator
    }

    /// The index register X.
    pub fn index_x(&self) -> (value: u8)
        ensures
            value == self@.registers.index_x,
    {
        self.registers.index_x
    }

    /// The index register Y.
    pub fn index_y(&self) -> (value: u8)
        ensures
            value == self@.registers.index_y,
    {
        self.registers.index_y
    }

    /// The stack pointer: the offset of the next free byte in the stack
    /// page.
    pub fn stack_pointer(&self) -> (value: u8)
        ensures
            value == self@.registers.stack_pointer,
    {
        self.registers.stack_pointer
    }

    /// The program counter: the address of the next opcode.
    pub fn program_counter(&self) -> (value: u16)
        ensures
            value == self@.registers.program_counter,
    {
        self.registers.program_counter
    }

    /// The status register.
    pub fn status(&self) -> (status: Status)
        ensures
            status@ == self@.registers.flags,
    {
        self.registers.status
    }

    /// Whether `flag` is set.
    pub fn flag(&self, flag: Flag) -> (set: bool)
        ensures
            set == self@.registers.flags.get(flag),
    {
        self.registers.status.contains(flag)
    }

    /// The whole register file.
    pub fn registers(&self) -> (registers: Registers)
        ensures
            registers@ == self@.registers,
    {
        self.registers
    }

    /// The cycles spent since the last reset, wrapping silently at 64 bits.
    pub fn cycles_elapsed(&self) -> (cycles: u64)
        ensures
            cycles == self@.cycles_elapsed,
    {
        self.cycles_elapsed
    }

    /// Whether the processor is halted: a halted processor executes nothing
    /// until it is reset.
    pub fn is_halted(&self) -> (halted: bool)
        ensures
            halted == self@.halted,
    {
        self.halted
    }

    /// The metadata table that the processor decodes by.
    pub fn opcodes(&self) -> (table: &OpCodeTable)
        ensures
            table@ == self.table(),
    {
        &self.table
    }
}

/// A step that fails changes nothing but the halt: the registers, the
/// cycle count and the memory are as they were, and the processor is
/// halted.
pub proof fn lemma_failed_step_changes_nothing(
    cpu: CpuState,
    bytes: Seq<u8>,
    table: Map<u8, OpCode>,
)
    ensures
        cpu.step(bytes, table).result is Err ==> cpu.step(bytes, table).cpu == cpu.halt()
            && cpu.step(bytes, table).memory == bytes,
{
}

/// An opcode byte without an entry in the metadata table makes the step
/// report an illegal opcode and leaves every register as it was.
pub proof fn lemma_unknown_opcode_is_illegal(
    cpu: CpuState,
    bytes: Seq<u8>,
    table: Map<u8, OpCode>,
    code: u8,
)
    requires
        !cpu.halted,
        read_at(bytes, cpu.registers.program_counter) == Ok::<u8, CpuError>(code),
        !table.contains_key(code),
    ensures
        cpu.step(bytes, table).result == Err::<StepResult, CpuError>(
            CpuError::IllegalOpcode { code },
        ),
        cpu.step(bytes, table).cpu.registers == cpu.registers,
        cpu.step(bytes, table).cpu.cycles_elapsed == cpu.cycles_elapsed,
        cpu.step(bytes, table).cpu.halted,
        cpu.step(bytes, table).memory == bytes,
{
}

/// A halted processor stays as it is: a step and a run change neither the
/// processor nor the memory and report no cycles.
pub proof fn lemma_halted_is_final(
    cpu: CpuState,
    bytes: Seq<u8>,
    table: Map<u8, OpCode>,
    cycle_budget: u64,
    step_budget: u64,
)
    requires
        cpu.halted,
    ensures
        cpu.step(bytes, table) == (StepOutcome {
            cpu,
            memory: bytes,
            result: Ok(StepResult { cycles_spent: 0, halted: true }),
        }),
        cpu.run(bytes, table, cycle_budget, step_budget, 0, 0) == (RunOutcome {
            cpu,
            memory: bytes,
            result: Ok(RunResult { cycles_spent: 0, steps_taken: 0, halted: true }),
        }),
{
}

/// A step never changes the size of the memory, and the cycle count grows
/// by what the step reports.
pub proof fn lemma_step_accounts(cpu: CpuState, bytes: Seq<u8>, table: Map<u8, OpCode>)
    ensures
        cpu.step(bytes, table).memory.len() == bytes.len(),
        cpu.step(bytes, table).result matches Ok(stepped) ==> cpu.step(
            bytes,
            table,
        ).cpu.cycles_elapsed == add_cycles(cpu.cycles_elapsed, stepped.cycles_spent)
            && stepped.halted == cpu.step(bytes, table).cpu.halted,
{
    if !cpu.halted {
        match read_at(bytes, cpu.registers.program_counter) {
            Err(fault) => {},
            Ok(code) => match decode_spec(table, code) {
                Err(error) => {},
                Ok(instruction) => match resolve_spec(
                    instruction.mode,
                    following(cpu.registers.program_counter),
                    cpu.registers.index_x,
                    cpu.registers.index_y,
                    bytes,
                ) {
                    Err(fault) => {},
                    Ok(operand) => {
                        lemma_memory_by_class(cpu.registers, bytes, instruction, operand);
                    },
                },
            },
        }
    }
}

/// A run that ends without error has stopped for a reason: the processor
/// is halted, the cycles spent have reached the cycle budget, or the steps
/// taken have reached the step budget. It never takes more steps than the
/// step budget, and it never changes the size of the memory.
pub proof fn lemma_run_stops_for_a_reason(
    cpu: CpuState,
    bytes: Seq<u8>,
    table: Map<u8, OpCode>,
    cycle_budget: u64,
    step_budget: u64,
    spent: u64,
    taken: u64,
)
    requires
        taken <= step_budget,
    ensures
        cpu.run(bytes, table, cycle_budget, step_budget, spent, taken).memory.len() == bytes.len(),
        cpu.run(bytes, table, cycle_budget, step_budget, spent, taken).result matches Ok(ran) ==> {
            &&& ran.halted || ran.cycles_spent >= cycle_budget || ran.steps_taken == step_budget
            &&& taken <= ran.steps_taken <= step_budget
            &&& spent <= ran.cycles_spent
            &&& ran.halted == cpu.run(bytes, table, cycle_budget, step_budget, spent, taken).cpu.halted
        },
    decreases step_budget - taken,
{
    if cpu.halted || spent >= cycle_budget || taken >= step_budget {
    } else {
        let next = cpu.step(bytes, table);
        lemma_step_accounts(cpu, bytes, table);
        match next.result {
            Err(error) => {},
            Ok(stepped) => {
                lemma_run_stops_for_a_reason(
                    next.cpu,
                    next.memory,
                    table,
                    cycle_budget,
                    step_budget,
                    add_cycles_saturating(spent, stepped.cycles_spent),
                    (taken + 1) as u64,
                );
            },
        }
    }
}

/// A load of the accumulator in the immediate mode, as the documented
/// instruction set encodes it: the byte after the opcode goes to the
/// accumulator, Zero and Negative describe it, the program counter moves
/// on by two, and the step costs two cycles.
pub proof fn lemma_load_immediate(cpu: CpuState, bytes: Seq<u8>, table: Map<u8, OpCode>, value: u8)
    requires
        !cpu.halted,
        entry_of(table, 0xa9) == standard_entry(0xa9),
        read_at(bytes, cpu.registers.program_counter) == Ok::<u8, CpuError>(0xa9),
        read_at(bytes, following(cpu.registers.program_counter)) == Ok::<u8, CpuError>(value),
    ensures
        cpu.step(bytes, table).result == Ok::<StepResult, CpuError>(
            StepResult { cycles_spent: 2, halted: false },
        ),
        cpu.step(bytes, table).memory == bytes,
        cpu.step(bytes, table).cpu == (CpuState {
            registers: RegisterState {
                accumulator: value,
                program_counter: advanced(cpu.registers.program_counter, 2),
                flags: Flags { zero: value == 0, negative: value >= 0x80, ..cpu.registers.flags },
                ..cpu.registers
            },
            cycles_elapsed: add_cycles(cpu.cycles_elapsed, 2),
            halted: false,
        }),
{
    reveal(execute_spec);
    reveal(RegisterState::after_read);
    reveal_strlit("LDA");
}

/// The documented instruction set is consistent with the processor: each
/// of its entries is filed under its own byte, is one to three bytes long
/// and decodes to an instruction whose semantics support the mode. With
/// that table a byte is illegal exactly where it has no entry, and no byte
/// is a mismatch.
pub proof fn lemma_standard_table_decodes(table: Map<u8, OpCode>, code: u8)
    requires
        entry_of(table, code) == standard_entry(code),
    ensures
        standard_entry(code) matches Some(opcode) ==> opcode.code == code && 1 <= opcode.len <= 3
            && decode_spec(table, code) is Ok,
        standard_entry(code) is None ==> decode_spec(table, code) == Err::<Instruction, CpuError>(
            CpuError::IllegalOpcode { code },
        ),
{
    reveal_strlit("ADC");
    reveal_strlit("BRK");
    reveal_strlit("CMP");
    reveal_strlit("CPX");
    reveal_strlit("CPY");
    reveal_strlit("INX");
    reveal_strlit("LDA");
    reveal_strlit("LDX");
    reveal_strlit("LDY");
    reveal_strlit("STA");
    reveal_strlit("TAX");
}

/// A memory that owns the whole address space never faults: whatever the
/// table and the registers, a step fails only with an illegal opcode or a
/// mismatch.
pub proof fn lemma_full_memory_never_faults(cpu: CpuState, bytes: Seq<u8>, table: Map<u8, OpCode>)
    requires
        bytes.len() == ADDRESS_SPACE,
    ensures
        !(cpu.step(bytes, table).result matches Err(CpuError::MemoryFault { .. })),
        cpu.reset(bytes).1 is Ok,
{
    reveal(execute_spec);
}

} // verus!

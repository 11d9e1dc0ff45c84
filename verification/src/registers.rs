//! The register file, and what each instruction does to it.

use crate::instruction::Mnemonic;
use crate::status::{
    adc_result, rotated_left, rotated_right, sbc_result, shifted_left, shifted_right, Flag, Flags,
    Status,
};
use vstd::prelude::*;

verus! {

/// The value that a reset gives the stack pointer.
pub const STACK_RESET: u8 = 0xfd;

/// The address of the little-endian word from which a reset loads the
/// program counter.
pub const RESET_VECTOR: u16 = 0xfffc;

/// The mathematical model of the register file: the registers as numbers and
/// the status register as one truth value per flag.
pub struct RegisterState {
    pub accumulator: u8,
    pub index_x: u8,
    pub index_y: u8,
    pub stack_pointer: u8,
    pub program_counter: u16,
    pub flags: Flags,
}

/// `value` plus one, wrapping from `0xFF` to `0x00`.
pub open spec fn incremented(value: u8) -> u8 {
    ((value + 1) % 0x100) as u8
}

/// `value` minus one, wrapping from `0x00` to `0xFF`.
pub open spec fn decremented(value: u8) -> u8 {
    ((value - 1) % 0x100) as u8
}

/// The address `distance` bytes after `address`, wrapping at the end of the
/// address space.
pub open spec fn advanced(address: u16, distance: u8) -> u16 {
    ((address + distance) % 0x10000) as u16
}

impl RegisterState {
    /// The registers after a reset that finds `entry` in the reset vector:
    /// the data registers are zero, the stack pointer is at its reset value,
    /// InterruptDisable is the only flag set, and the program counter is
    /// `entry`.
    pub open spec fn reset(entry: u16) -> RegisterState {
        RegisterState {
            accumulator: 0,
            index_x: 0,
            index_y: 0,
            stack_pointer: STACK_RESET,
            program_counter: entry,
            flags: Flags { interrupt_disable: true, ..Flags::none() },
        }
    }

    /// These registers with `value` in the accumulator, recorded in Zero
    /// and Negative.
    pub open spec fn load_accumulator(self, value: u8) -> RegisterState {
        RegisterState {
            accumulator: value,
            flags: self.flags.with_zero_negative(value),
            ..self
        }
    }

    /// These registers with `value` in X, recorded in Zero and Negative.
    pub open spec fn load_x(self, value: u8) -> RegisterState {
        RegisterState { index_x: value, flags: self.flags.with_zero_negative(value), ..self }
    }

    /// These registers with `value` in Y, recorded in Zero and Negative.
    pub open spec fn load_y(self, value: u8) -> RegisterState {
        RegisterState { index_y: value, flags: self.flags.with_zero_negative(value), ..self }
    }

    /// The registers after an instruction that works on registers alone.
    ///
    /// A clear or a set instruction changes its one flag. An increment, a
    /// decrement or a transfer puts the new value in its register and
    /// records it in Zero and Negative, but a transfer to the stack pointer
    /// changes no flag. A break sets the Break flag. Any other instruction
    /// changes nothing.
    #[verifier::opaque]
    pub open spec fn after_implied(self, mnemonic: Mnemonic) -> RegisterState {
        match mnemonic {
            Mnemonic::Clc => RegisterState { flags: self.flags.with(Flag::Carry, false), ..self },
            Mnemonic::Cld => RegisterState { flags: self.flags.with(Flag::Decimal, false), ..self },
            Mnemonic::Cli => RegisterState {
                flags: self.flags.with(Flag::InterruptDisable, false),
                ..self
            },
            Mnemonic::Clv => RegisterState { flags: self.flags.with(Flag::Overflow, false), ..self },
            Mnemonic::Sec => RegisterState { flags: self.flags.with(Flag::Carry, true), ..self },
            Mnemonic::Sed => RegisterState { flags: self.flags.with(Flag::Decimal, true), ..self },
            Mnemonic::Sei => RegisterState {
                flags: self.flags.with(Flag::InterruptDisable, true),
                ..self
            },
            Mnemonic::Brk => RegisterState { flags: self.flags.with(Flag::Break, true), ..self },
            Mnemonic::Dex => self.load_x(decremented(self.index_x)),
            Mnemonic::Dey => self.load_y(decremented(self.index_y)),
            Mnemonic::Inx => self.load_x(incremented(self.index_x)),
            Mnemonic::Iny => self.load_y(incremented(self.index_y)),
            Mnemonic::Tax => self.load_x(self.accumulator),
            Mnemonic::Tay => self.load_y(self.accumulator),
            Mnemonic::Tsx => self.load_x(self.stack_pointer),
            Mnemonic::Txa => self.load_accumulator(self.index_x),
            Mnemonic::Tya => self.load_accumulator(self.index_y),
            Mnemonic::Txs => RegisterState { stack_pointer: self.index_x, ..self },
            _ => self,
        }
    }

    /// The registers after an instruction that reads `operand`.
    ///
    /// A load puts the operand in its register and records it in Zero and
    /// Negative. A logic instruction combines the operand with the
    /// accumulator bit by bit and records the result likewise. A compare
    /// sets Carry, Zero and Negative by its register and the operand, a bit
    /// test sets Zero, Overflow and Negative, and neither changes a
    /// register. An add or a subtract leaves its result in the accumulator
    /// and sets Carry, Overflow, Zero and Negative. Any other instruction
    /// changes nothing.
    #[verifier::opaque]
    pub open spec fn after_read(self, mnemonic: Mnemonic, operand: u8) -> RegisterState {
        match mnemonic {
            Mnemonic::Lda => self.load_accumulator(operand),
            Mnemonic::Ldx => self.load_x(operand),
            Mnemonic::Ldy => self.load_y(operand),
            Mnemonic::And => self.load_accumulator(self.accumulator & operand),
            Mnemonic::Eor => self.load_accumulator(self.accumulator ^ operand),
            Mnemonic::Ora => self.load_accumulator(self.accumulator | operand),
            Mnemonic::Bit => RegisterState {
                flags: self.flags.after_bit_test(self.accumulator, operand),
                ..self
            },
            Mnemonic::Cmp => RegisterState {
                flags: self.flags.after_compare(self.accumulator, operand),
                ..self
            },
            Mnemonic::Cpx => RegisterState {
                flags: self.flags.after_compare(self.index_x, operand),
                ..self
            },
            Mnemonic::Cpy => RegisterState {
                flags: self.flags.after_compare(self.index_y, operand),
                ..self
            },
            Mnemonic::Adc => RegisterState {
                accumulator: adc_result(self.accumulator, operand, self.flags.carry),
                flags: self.flags.after_add(self.accumulator, operand),
                ..self
            },
            Mnemonic::Sbc => RegisterState {
                accumulator: sbc_result(self.accumulator, operand, self.flags.carry),
                flags: self.flags.after_subtract(self.accumulator, operand),
                ..self
            },
            _ => self,
        }
    }

    /// The byte that a store writes: the register that the instruction
    /// names.
    pub open spec fn stored_value(self, mnemonic: Mnemonic) -> u8 {
        match mnemonic {
            Mnemonic::Stx => self.index_x,
            Mnemonic::Sty => self.index_y,
            _ => self.accumulator,
        }
    }

    /// The byte that an instruction which modifies `operand` leaves in its
    /// place.
    pub open spec fn modified_value(self, mnemonic: Mnemonic, operand: u8) -> u8 {
        match mnemonic {
            Mnemonic::Asl => shifted_left(operand),
            Mnemonic::Lsr => shifted_right(operand),
            Mnemonic::Rol => rotated_left(operand, self.flags.carry),
            Mnemonic::Ror => rotated_right(operand, self.flags.carry),
            Mnemonic::Inc => incremented(operand),
            Mnemonic::Dec => decremented(operand),
            _ => operand,
        }
    }

    /// The registers after an instruction that modifies `operand` in
    /// memory: a shift or a rotate sets Carry, Zero and Negative, an
    /// increment or a decrement Zero and Negative, and no register changes.
    pub open spec fn after_modify(self, mnemonic: Mnemonic, operand: u8) -> RegisterState {
        match mnemonic {
            Mnemonic::Asl => RegisterState { flags: self.flags.after_shift_left(operand), ..self },
            Mnemonic::Lsr => RegisterState { flags: self.flags.after_shift_right(operand), ..self },
            Mnemonic::Rol => RegisterState { flags: self.flags.after_rotate_left(operand), ..self },
            Mnemonic::Ror => RegisterState {
                flags: self.flags.after_rotate_right(operand),
                ..self
            },
            Mnemonic::Inc => RegisterState {
                flags: self.flags.with_zero_negative(incremented(operand)),
                ..self
            },
            Mnemonic::Dec => RegisterState {
                flags: self.flags.with_zero_negative(decremented(operand)),
                ..self
            },
            _ => self,
        }
    }

    /// The registers after an instruction that modifies the accumulator:
    /// the flags as for an operand in memory, and the result in the
    /// accumulator.
    pub open spec fn after_modify_accumulator(self, mnemonic: Mnemonic) -> RegisterState {
        RegisterState {
            accumulator: self.modified_value(mnemonic, self.accumulator),
            ..self.after_modify(mnemonic, self.accumulator)
        }
    }

    /// Whether a branch is taken: each branch tests one flag for one value.
    /// No other instruction branches.
    pub open spec fn branch_taken(self, mnemonic: Mnemonic) -> bool {
        match mnemonic {
            Mnemonic::Bcc => !self.flags.carry,
            Mnemonic::Bcs => self.flags.carry,
            Mnemonic::Bne => !self.flags.zero,
            Mnemonic::Beq => self.flags.zero,
            Mnemonic::Bpl => !self.flags.negative,
            Mnemonic::Bmi => self.flags.negative,
            Mnemonic::Bvc => !self.flags.overflow,
            Mnemonic::Bvs => self.flags.overflow,
            _ => false,
        }
    }

    /// The byte that a push puts on the stack: the accumulator, or the
    /// status byte with the Break bit and the unused bit set.
    pub open spec fn pushed_value(self, mnemonic: Mnemonic) -> u8 {
        match mnemonic {
            Mnemonic::Php => self.flags.pushed_bits(),
            _ => self.accumulator,
        }
    }

    /// The registers after a pull of `value` from the stack: a pull of the
    /// accumulator records the value in Zero and Negative, a pull of the
    /// status takes every flag from the value but leaves Break clear.
    pub open spec fn after_pull(self, mnemonic: Mnemonic, value: u8) -> RegisterState {
        match mnemonic {
            Mnemonic::Pla => self.load_accumulator(value),
            Mnemonic::Plp => RegisterState { flags: Flags::pulled(value), ..self },
            _ => self,
        }
    }

    /// These registers with the program counter at `target`.
    pub open spec fn jump(self, target: u16) -> RegisterState {
        RegisterState { program_counter: target, ..self }
    }

    /// These registers with the program counter moved `distance` bytes on.
    pub open spec fn advance(self, distance: u8) -> RegisterState {
        self.jump(advanced(self.program_counter, distance))
    }
}

/// The register file: accumulator, index registers, stack pointer, program
/// counter and status. Every register wraps silently at its width.
#[derive(Clone, Copy, Debug)]
pub struct Registers {
    pub accumulator: u8,
    pub index_x: u8,
    pub index_y: u8,
    pub stack_pointer: u8,
    pub program_counter: u16,
    pub status: Status,
}

impl View for Registers {
    type V = RegisterState;

    open spec fn view(&self) -> RegisterState {
        RegisterState {
            accumulator: self.accumulator,
            index_x: self.index_x,
            index_y: self.index_y,
            stack_pointer: self.stack_pointer,
            program_counter: self.program_counter,
            flags: self.status@,
        }
    }
}

impl Registers {
    /// The register file as a reset leaves it, with `entry` in the program
    /// counter.
    pub fn reset(entry: u16) -> (registers: Registers)
        ensures
            registers@ == RegisterState::reset(entry),
    {
        let mut status = Status::new();
        status.set(Flag::InterruptDisable, true);
        Registers {
            accumulator: 0,
            index_x: 0,
            index_y: 0,
            stack_pointer: STACK_RESET,
            program_counter: entry,
            status,
        }
    }

    /// Puts `value` in the accumulator and records it in Zero and Negative.
    pub fn load_accumulator(&mut self, value: u8)
        ensures
            final(self)@ == old(self)@.load_accumulator(value),
    {
        self.accumulator = value;
        self.status.set_zero_negative(value);
    }

    /// Puts `value` in X and records it in Zero and Negative.
    pub fn load_x(&mut self, value: u8)
        ensures
            final(self)@ == old(self)@.load_x(value),
    {
        self.index_x = value;
        self.status.set_zero_negative(value);
    }

    /// Puts `value` in Y and records it in Zero and Negative.
    pub fn load_y(&mut self, value: u8)
        ensures
            final(self)@ == old(self)@.load_y(value),
    {
        self.index_y = value;
        self.status.set_zero_negative(value);
    }

    /// Performs an instruction that works on registers alone.
    pub fn apply_implied(&mut self, mnemonic: Mnemonic)
        ensures
            final(self)@ == old(self)@.after_implied(mnemonic),
    {
        reveal(RegisterState::after_implied);
        match mnemonic {
            Mnemonic::Clc => self.status.set(Flag::Carry, false),
            Mnemonic::Cld => self.status.set(Flag::Decimal, false),
            Mnemonic::Cli => self.status.set(Flag::InterruptDisable, false),
            Mnemonic::Clv => self.status.set(Flag::Overflow, false),
            Mnemonic::Sec => self.status.set(Flag::Carry, true),
            Mnemonic::Sed => self.status.set(Flag::Decimal, true),
            Mnemonic::Sei => self.status.set(Flag::InterruptDisable, true),
            Mnemonic::Brk => self.status.set(Flag::Break, true),
            Mnemonic::Dex => self.load_x(self.index_x.wrapping_sub(1)),
            Mnemonic::Dey => self.load_y(self.index_y.wrapping_sub(1)),
            Mnemonic::Inx => self.load_x(self.index_x.wrapping_add(1)),
            Mnemonic::Iny => self.load_y(self.index_y.wrapping_add(1)),
            Mnemonic::Tax => self.load_x(self.accumulator),
            Mnemonic::Tay => self.load_y(self.accumulator),
            Mnemonic::Tsx => self.load_x(self.stack_pointer),
            Mnemonic::Txa => self.load_accumulator(self.index_x),
            Mnemonic::Tya => self.load_accumulator(self.index_y),
            Mnemonic::Txs => {
                self.stack_pointer = self.index_x;
            },
            _ => {},
        }
    }

    /// Performs the effect on the registers of an instruction that reads
    /// `operand`.
    pub fn apply_read(&mut self, mnemonic: Mnemonic, operand: u8)
        ensures
            final(self)@ == old(self)@.after_read(mnemonic, operand),
    {
        reveal(RegisterState::after_read);
        match mnemonic {
            Mnemonic::Lda => self.load_accumulator(operand),
            Mnemonic::Ldx => self.load_x(operand),
            Mnemonic::Ldy => self.load_y(operand),
            Mnemonic::And => self.load_accumulator(self.accumulator & operand),
            Mnemonic::Eor => self.load_accumulator(self.accumulator ^ operand),
            Mnemonic::Ora => self.load_accumulator(self.accumulator | operand),
            Mnemonic::Bit => self.status.bit_test(self.accumulator, operand),
            Mnemonic::Cmp => self.status.compare(self.accumulator, operand),
            Mnemonic::Cpx => self.status.compare(self.index_x, operand),
            Mnemonic::Cpy => self.status.compare(self.index_y, operand),
            Mnemonic::Adc => {
                self.accumulator = self.status.add_with_carry(self.accumulator, operand);
            },
            Mnemonic::Sbc => {
                self.accumulator = self.status.subtract_with_carry(self.accumulator, operand);
            },
            _ => {},
        }
    }

    /// The byte that a store writes.
    pub fn stored_value(&self, mnemonic: Mnemonic) -> (value: u8)
        ensures
            value == self@.stored_value(mnemonic),
    {
        match mnemonic {
            Mnemonic::Stx => self.index_x,
            Mnemonic::Sty => self.index_y,
            _ => self.accumulator,
        }
    }

    /// Performs the effect on the flags of an instruction that modifies
    /// `operand`, and returns the byte that takes its place.
    pub fn apply_modify(&mut self, mnemonic: Mnemonic, operand: u8) -> (result: u8)
        ensures
            result == old(self)@.modified_value(mnemonic, operand),
            final(self)@ == old(self)@.after_modify(mnemonic, operand),
    {
        match mnemonic {
            Mnemonic::Asl => self.status.shift_left(operand),
            Mnemonic::Lsr => self.status.shift_right(operand),
            Mnemonic::Rol => self.status.rotate_left(operand),
            Mnemonic::Ror => self.status.rotate_right(operand),
            Mnemonic::Inc => {
                let result = operand.wrapping_add(1);
                self.status.set_zero_negative(result);
                result
            },
            Mnemonic::Dec => {
                let result = operand.wrapping_sub(1);
                self.status.set_zero_negative(result);
                result
            },
            _ => operand,
        }
    }

    /// Performs an instruction that modifies the accumulator.
    pub fn apply_modify_accumulator(&mut self, mnemonic: Mnemonic)
        ensures
            final(self)@ == old(self)@.after_modify_accumulator(mnemonic),
    {
        let result = self.apply_modify(mnemonic, self.accumulator);
        self.accumulator = result;
    }

    /// Whether a branch is taken.
    pub fn branch_taken(&self, mnemonic: Mnemonic) -> (taken: bool)
        ensures
            taken == self@.branch_taken(mnemonic),
    {
        match mnemonic {
            Mnemonic::Bcc => !self.status.contains(Flag::Carry),
            Mnemonic::Bcs => self.status.contains(Flag::Carry),
            Mnemonic::Bne => !self.status.contains(Flag::Zero),
            Mnemonic::Beq => self.status.contains(Flag::Zero),
            Mnemonic::Bpl => !self.status.contains(Flag::Negative),
            Mnemonic::Bmi => self.status.contains(Flag::Negative),
            Mnemonic::Bvc => !self.status.contains(Flag::Overflow),
            Mnemonic::Bvs => self.status.contains(Flag::Overflow),
            _ => false,
        }
    }

    /// The byte that a push puts on the stack.
    pub fn pushed_value(&self, mnemonic: Mnemonic) -> (value: u8)
        ensures
            value == self@.pushed_value(mnemonic),
    {
        match mnemonic {
            Mnemonic::Php => self.status.pushed_bits(),
            _ => self.accumulator,
        }
    }

    /// Performs the effect on the registers of a pull of `value` from the
    /// stack.
    pub fn apply_pull(&mut self, mnemonic: Mnemonic, value: u8)
        ensures
            final(self)@ == old(self)@.after_pull(mnemonic, value),
    {
        match mnemonic {
            Mnemonic::Pla => self.load_accumulator(value),
            Mnemonic::Plp => {
                self.status = Status::pulled(value);
            },
            _ => {},
        }
    }

    /// Sets the program counter to `target`.
    pub fn jump(&mut self, target: u16)
        ensures
            final(self)@ == old(self)@.jump(target),
    {
        self.program_counter = target;
    }

    /// Moves the program counter `distance` bytes on, wrapping at the end of
    /// the address space.
    pub fn advance(&mut self, distance: u8)
        ensures
            final(self)@ == old(self)@.advance(distance),
    {
        self.program_counter = self.program_counter.wrapping_add(distance as u16);
    }
}

/// No effect of an instruction on the registers moves the program
/// counter: only the dispatcher does, when it advances or redirects it.
/// The stack pointer is moved by a transfer from X alone.
pub proof fn lemma_effects_keep_program_counter(
    registers: RegisterState,
    mnemonic: Mnemonic,
    operand: u8,
)
    ensures
        registers.after_implied(mnemonic).program_counter == registers.program_counter,
        registers.after_read(mnemonic, operand).program_counter == registers.program_counter,
        registers.after_modify(mnemonic, operand).program_counter == registers.program_counter,
        registers.after_modify_accumulator(mnemonic).program_counter == registers.program_counter,
        registers.after_pull(mnemonic, operand).program_counter == registers.program_counter,
        registers.after_read(mnemonic, operand).stack_pointer == registers.stack_pointer,
        registers.after_modify(mnemonic, operand).stack_pointer == registers.stack_pointer,
        registers.after_modify_accumulator(mnemonic).stack_pointer == registers.stack_pointer,
        registers.after_pull(mnemonic, operand).stack_pointer == registers.stack_pointer,
        mnemonic != Mnemonic::Txs ==> registers.after_implied(mnemonic).stack_pointer
            == registers.stack_pointer,
{
    reveal(RegisterState::after_implied);
    reveal(RegisterState::after_read);
}

} // verus!

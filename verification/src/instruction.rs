//! The instructions that the processor has, as the metadata table names
//! them, and the per-instruction rules that the dispatcher goes by.

use crate::cpu::AddressingMode;
use vstd::prelude::*;

verus! {

/// An instruction of the processor.
#[derive(Clone, Copy, Debug, PartialEq, Eq, Structural)]
pub enum Mnemonic {
    /// Add memory and Carry to the accumulator.
    Adc,
    /// And memory with the accumulator.
    And,
    /// Shift memory or the accumulator left by one bit.
    Asl,
    /// Branch where Carry is clear.
    Bcc,
    /// Branch where Carry is set.
    Bcs,
    /// Branch where Zero is set.
    Beq,
    /// Test the bits of memory against the accumulator.
    Bit,
    /// Branch where Negative is set.
    Bmi,
    /// Branch where Zero is clear.
    Bne,
    /// Branch where Negative is clear.
    Bpl,
    /// Break: halt the processor.
    Brk,
    /// Branch where Overflow is clear.
    Bvc,
    /// Branch where Overflow is set.
    Bvs,
    /// Clear Carry.
    Clc,
    /// Clear Decimal.
    Cld,
    /// Clear InterruptDisable.
    Cli,
    /// Clear Overflow.
    Clv,
    /// Compare memory with the accumulator.
    Cmp,
    /// Compare memory with X.
    Cpx,
    /// Compare memory with Y.
    Cpy,
    /// Decrement memory.
    Dec,
    /// Decrement X.
    Dex,
    /// Decrement Y.
    Dey,
    /// Exclusive-or memory with the accumulator.
    Eor,
    /// Increment memory.
    Inc,
    /// Increment X.
    Inx,
    /// Increment Y.
    Iny,
    /// Jump: to the operand in the absolute mode, through the pointer that
    /// follows the opcode in the implicit mode.
    Jmp,
    /// Jump to a subroutine.
    Jsr,
    /// Load the accumulator from memory.
    Lda,
    /// Load X from memory.
    Ldx,
    /// Load Y from memory.
    Ldy,
    /// Shift memory or the accumulator right by one bit.
    Lsr,
    /// Do nothing.
    Nop,
    /// Or memory with the accumulator.
    Ora,
    /// Push the accumulator.
    Pha,
    /// Push the status register.
    Php,
    /// Pull the accumulator.
    Pla,
    /// Pull the status register.
    Plp,
    /// Rotate memory or the accumulator left through Carry.
    Rol,
    /// Rotate memory or the accumulator right through Carry.
    Ror,
    /// Return from an interrupt.
    Rti,
    /// Return from a subroutine.
    Rts,
    /// Subtract memory and the borrow from the accumulator.
    Sbc,
    /// Set Carry.
    Sec,
    /// Set Decimal.
    Sed,
    /// Set InterruptDisable.
    Sei,
    /// Store the accumulator to memory.
    Sta,
    /// Store X to memory.
    Stx,
    /// Store Y to memory.
    Sty,
    /// Transfer the accumulator to X.
    Tax,
    /// Transfer the accumulator to Y.
    Tay,
    /// Transfer the stack pointer to X.
    Tsx,
    /// Transfer X to the accumulator.
    Txa,
    /// Transfer X to the stack pointer.
    Txs,
    /// Transfer Y to the accumulator.
    Tya,
}

/// The class of an instruction: what it does with the operand that its
/// addressing mode finds. The class decides the modes that the instruction
/// can be paired with, how the program counter moves and what the
/// instruction costs beyond its base cycles.
#[derive(Clone, Copy, Debug, PartialEq, Eq, Structural)]
pub enum InstructionClass {
    /// The instruction works on registers alone. Its cost is fixed.
    Implied,
    /// The instruction reads its operand. Where finding the operand crosses
    /// a page boundary, the instruction takes one cycle more.
    Reads,
    /// The instruction writes its operand. Its cost is fixed.
    Writes,
    /// The instruction reads its operand, changes it and writes it back; in
    /// the implicit mode a shift or a rotate works on the accumulator. Its
    /// cost is fixed.
    Modifies,
    /// The instruction reads a signed offset and, where its condition
    /// holds, moves the program counter by it. A branch that is taken takes
    /// one cycle more, and one more again where it leaves the page of the
    /// instruction that follows.
    Branches,
    /// The instruction sets the program counter. Its cost is fixed.
    Jumps,
    /// The instruction pushes a return address and sets the program
    /// counter. Its cost is fixed.
    Calls,
    /// The instruction pulls the program counter from the stack. Its cost
    /// is fixed.
    Returns,
    /// The instruction pushes a byte on the stack. Its cost is fixed.
    Pushes,
    /// The instruction pulls a byte from the stack. Its cost is fixed.
    Pulls,
    /// The instruction halts the processor. It has no operand, and it sets
    /// the program counter itself. Its cost is fixed.
    Halts,
}

impl Mnemonic {
    /// The three letters by which the metadata table names the instruction.
    pub open spec fn spec_name(self) -> Seq<char> {
        match self {
            Mnemonic::Adc => seq!['A', 'D', 'C'],
            Mnemonic::And => seq!['A', 'N', 'D'],
            Mnemonic::Asl => seq!['A', 'S', 'L'],
            Mnemonic::Bcc => seq!['B', 'C', 'C'],
            Mnemonic::Bcs => seq!['B', 'C', 'S'],
            Mnemonic::Beq => seq!['B', 'E', 'Q'],
            Mnemonic::Bit => seq!['B', 'I', 'T'],
            Mnemonic::Bmi => seq!['B', 'M', 'I'],
            Mnemonic::Bne => seq!['B', 'N', 'E'],
            Mnemonic::Bpl => seq!['B', 'P', 'L'],
            Mnemonic::Brk => seq!['B', 'R', 'K'],
            Mnemonic::Bvc => seq!['B', 'V', 'C'],
            Mnemonic::Bvs => seq!['B', 'V', 'S'],
            Mnemonic::Clc => seq!['C', 'L', 'C'],
            Mnemonic::Cld => seq!['C', 'L', 'D'],
            Mnemonic::Cli => seq!['C', 'L', 'I'],
            Mnemonic::Clv => seq!['C', 'L', 'V'],
            Mnemonic::Cmp => seq!['C', 'M', 'P'],
            Mnemonic::Cpx => seq!['C', 'P', 'X'],
            Mnemonic::Cpy => seq!['C', 'P', 'Y'],
            Mnemonic::Dec => seq!['D', 'E', 'C'],
            Mnemonic::Dex => seq!['D', 'E', 'X'],
            Mnemonic::Dey => seq!['D', 'E', 'Y'],
            Mnemonic::Eor => seq!['E', 'O', 'R'],
            Mnemonic::Inc => seq!['I', 'N', 'C'],
            Mnemonic::Inx => seq!['I', 'N', 'X'],
            Mnemonic::Iny => seq!['I', 'N', 'Y'],
            Mnemonic::Jmp => seq!['J', 'M', 'P'],
            Mnemonic::Jsr => seq!['J', 'S', 'R'],
            Mnemonic::Lda => seq!['L', 'D', 'A'],
            Mnemonic::Ldx => seq!['L', 'D', 'X'],
            Mnemonic::Ldy => seq!['L', 'D', 'Y'],
            Mnemonic::Lsr => seq!['L', 'S', 'R'],
            Mnemonic::Nop => seq!['N', 'O', 'P'],
            Mnemonic::Ora => seq!['O', 'R', 'A'],
            Mnemonic::Pha => seq!['P', 'H', 'A'],
            Mnemonic::Php => seq!['P', 'H', 'P'],
            Mnemonic::Pla => seq!['P', 'L', 'A'],
            Mnemonic::Plp => seq!['P', 'L', 'P'],
            Mnemonic::Rol => seq!['R', 'O', 'L'],
            Mnemonic::Ror => seq!['R', 'O', 'R'],
            Mnemonic::Rti => seq!['R', 'T', 'I'],
            Mnemonic::Rts => seq!['R', 'T', 'S'],
            Mnemonic::Sbc => seq!['S', 'B', 'C'],
            Mnemonic::Sec => seq!['S', 'E', 'C'],
            Mnemonic::Sed => seq!['S', 'E', 'D'],
            Mnemonic::Sei => seq!['S', 'E', 'I'],
            Mnemonic::Sta => seq!['S', 'T', 'A'],
            Mnemonic::Stx => seq!['S', 'T', 'X'],
            Mnemonic::Sty => seq!['S', 'T', 'Y'],
            Mnemonic::Tax => seq!['T', 'A', 'X'],
            Mnemonic::Tay => seq!['T', 'A', 'Y'],
            Mnemonic::Tsx => seq!['T', 'S', 'X'],
            Mnemonic::Txa => seq!['T', 'X', 'A'],
            Mnemonic::Txs => seq!['T', 'X', 'S'],
            Mnemonic::Tya => seq!['T', 'Y', 'A'],
        }
    }

    /// The instruction that three letters name, if they name one. Names are
    /// in upper case.
    pub open spec fn spec_from_letters(first: char, second: char, third: char) -> Option<Mnemonic> {
        match (first, second, third) {
            ('A', 'D', 'C') => Some(Mnemonic::Adc),
            ('A', 'N', 'D') => Some(Mnemonic::And),
            ('A', 'S', 'L') => Some(Mnemonic::Asl),
            ('B', 'C', 'C') => Some(Mnemonic::Bcc),
            ('B', 'C', 'S') => Some(Mnemonic::Bcs),
            ('B', 'E', 'Q') => Some(Mnemonic::Beq),
            ('B', 'I', 'T') => Some(Mnemonic::Bit),
            ('B', 'M', 'I') => Some(Mnemonic::Bmi),
            ('B', 'N', 'E') => Some(Mnemonic::Bne),
            ('B', 'P', 'L') => Some(Mnemonic::Bpl),
            ('B', 'R', 'K') => Some(Mnemonic::Brk),
            ('B', 'V', 'C') => Some(Mnemonic::Bvc),
            ('B', 'V', 'S') => Some(Mnemonic::Bvs),
            ('C', 'L', 'C') => Some(Mnemonic::Clc),
            ('C', 'L', 'D') => Some(Mnemonic::Cld),
            ('C', 'L', 'I') => Some(Mnemonic::Cli),
            ('C', 'L', 'V') => Some(Mnemonic::Clv),
            ('C', 'M', 'P') => Some(Mnemonic::Cmp),
            ('C', 'P', 'X') => Some(Mnemonic::Cpx),
            ('C', 'P', 'Y') => Some(Mnemonic::Cpy),
            ('D', 'E', 'C') => Some(Mnemonic::Dec),
            ('D', 'E', 'X') => Some(Mnemonic::Dex),
            ('D', 'E', 'Y') => Some(Mnemonic::Dey),
            ('E', 'O', 'R') => Some(Mnemonic::Eor),
            ('I', 'N', 'C') => Some(Mnemonic::Inc),
            ('I', 'N', 'X') => Some(Mnemonic::Inx),
            ('I', 'N', 'Y') => Some(Mnemonic::Iny),
            ('J', 'M', 'P') => Some(Mnemonic::Jmp),
            ('J', 'S', 'R') => Some(Mnemonic::Jsr),
            ('L', 'D', 'A') => Some(Mnemonic::Lda),
            ('L', 'D', 'X') => Some(Mnemonic::Ldx),
            ('L', 'D', 'Y') => Some(Mnemonic::Ldy),
            ('L', 'S', 'R') => Some(Mnemonic::Lsr),
            ('N', 'O', 'P') => Some(Mnemonic::Nop),
            ('O', 'R', 'A') => Some(Mnemonic::Ora),
            ('P', 'H', 'A') => Some(Mnemonic::Pha),
            ('P', 'H', 'P') => Some(Mnemonic::Php),
            ('P', 'L', 'A') => Some(Mnemonic::Pla),
            ('P', 'L', 'P') => Some(Mnemonic::Plp),
            ('R', 'O', 'L') => Some(Mnemonic::Rol),
            ('R', 'O', 'R') => Some(Mnemonic::Ror),
            ('R', 'T', 'I') => Some(Mnemonic::Rti),
            ('R', 'T', 'S') => Some(Mnemonic::Rts),
            ('S', 'B', 'C') => Some(Mnemonic::Sbc),
            ('S', 'E', 'C') => Some(Mnemonic::Sec),
            ('S', 'E', 'D') => Some(Mnemonic::Sed),
            ('S', 'E', 'I') => Some(Mnemonic::Sei),
            ('S', 'T', 'A') => Some(Mnemonic::Sta),
            ('S', 'T', 'X') => Some(Mnemonic::Stx),
            ('S', 'T', 'Y') => Some(Mnemonic::Sty),
            ('T', 'A', 'X') => Some(Mnemonic::Tax),
            ('T', 'A', 'Y') => Some(Mnemonic::Tay),
            ('T', 'S', 'X') => Some(Mnemonic::Tsx),
            ('T', 'X', 'A') => Some(Mnemonic::Txa),
            ('T', 'X', 'S') => Some(Mnemonic::Txs),
            ('T', 'Y', 'A') => Some(Mnemonic::Tya),
            _ => None,
        }
    }

    /// The instruction that `name` names, if it names one.
    pub open spec fn spec_from_name(name: Seq<char>) -> Option<Mnemonic> {
        if name.len() == 3 {
            Mnemonic::spec_from_letters(name[0], name[1], name[2])
        } else {
            None
        }
    }

    /// The three letters by which the metadata table names the instruction.
    pub fn name(self) -> (name: &'static str)
        ensures
            name@ == self.spec_name(),
    {
        proof {
            reveal_strlit("ADC");
            reveal_strlit("AND");
            reveal_strlit("ASL");
            reveal_strlit("BCC");
            reveal_strlit("BCS");
            reveal_strlit("BEQ");
            reveal_strlit("BIT");
            reveal_strlit("BMI");
            reveal_strlit("BNE");
            reveal_strlit("BPL");
            reveal_strlit("BRK");
            reveal_strlit("BVC");
            reveal_strlit("BVS");
            reveal_strlit("CLC");
            reveal_strlit("CLD");
            reveal_strlit("CLI");
            reveal_strlit("CLV");
            reveal_strlit("CMP");
            reveal_strlit("CPX");
            reveal_strlit("CPY");
            reveal_strlit("DEC");
            reveal_strlit("DEX");
            reveal_strlit("DEY");
            reveal_strlit("EOR");
            reveal_strlit("INC");
            reveal_strlit("INX");
            reveal_strlit("INY");
            reveal_strlit("JMP");
            reveal_strlit("JSR");
            reveal_strlit("LDA");
            reveal_strlit("LDX");
            reveal_strlit("LDY");
            reveal_strlit("LSR");
            reveal_strlit("NOP");
            reveal_strlit("ORA");
            reveal_strlit("PHA");
            reveal_strlit("PHP");
            reveal_strlit("PLA");
            reveal_strlit("PLP");
            reveal_strlit("ROL");
            reveal_strlit("ROR");
            reveal_strlit("RTI");
            reveal_strlit("RTS");
            reveal_strlit("SBC");
            reveal_strlit("SEC");
            reveal_strlit("SED");
            reveal_strlit("SEI");
            reveal_strlit("STA");
            reveal_strlit("STX");
            reveal_strlit("STY");
            reveal_strlit("TAX");
            reveal_strlit("TAY");
            reveal_strlit("TSX");
            reveal_strlit("TXA");
            reveal_strlit("TXS");
            reveal_strlit("TYA");
        }
        let name = match self {
            Mnemonic::Adc => "ADC",
            Mnemonic::And => "AND",
            Mnemonic::Asl => "ASL",
            Mnemonic::Bcc => "BCC",
            Mnemonic::Bcs => "BCS",
            Mnemonic::Beq => "BEQ",
            Mnemonic::Bit => "BIT",
            Mnemonic::Bmi => "BMI",
            Mnemonic::Bne => "BNE",
            Mnemonic::Bpl => "BPL",
            Mnemonic::Brk => "BRK",
            Mnemonic::Bvc => "BVC",
            Mnemonic::Bvs => "BVS",
            Mnemonic::Clc => "CLC",
            Mnemonic::Cld => "CLD",
            Mnemonic::Cli => "CLI",
            Mnemonic::Clv => "CLV",
            Mnemonic::Cmp => "CMP",
            Mnemonic::Cpx => "CPX",
            Mnemonic::Cpy => "CPY",
            Mnemonic::Dec => "DEC",
            Mnemonic::Dex => "DEX",
            Mnemonic::Dey => "DEY",
            Mnemonic::Eor => "EOR",
            Mnemonic::Inc => "INC",
            Mnemonic::Inx => "INX",
            Mnemonic::Iny => "INY",
            Mnemonic::Jmp => "JMP",
            Mnemonic::Jsr => "JSR",
            Mnemonic::Lda => "LDA",
            Mnemonic::Ldx => "LDX",
            Mnemonic::Ldy => "LDY",
            Mnemonic::Lsr => "LSR",
            Mnemonic::Nop => "NOP",
            Mnemonic::Ora => "ORA",
            Mnemonic::Pha => "PHA",
            Mnemonic::Php => "PHP",
            Mnemonic::Pla => "PLA",
            Mnemonic::Plp => "PLP",
            Mnemonic::Rol => "ROL",
            Mnemonic::Ror => "ROR",
            Mnemonic::Rti => "RTI",
            Mnemonic::Rts => "RTS",
            Mnemonic::Sbc => "SBC",
            Mnemonic::Sec => "SEC",
            Mnemonic::Sed => "SED",
            Mnemonic::Sei => "SEI",
            Mnemonic::Sta => "STA",
            Mnemonic::Stx => "STX",
            Mnemonic::Sty => "STY",
            Mnemonic::Tax => "TAX",
            Mnemonic::Tay => "TAY",
            Mnemonic::Tsx => "TSX",
            Mnemonic::Txa => "TXA",
            Mnemonic::Txs => "TXS",
            Mnemonic::Tya => "TYA",
        };
        assert(name@ =~= self.spec_name());
        name
    }

    /// The instruction that `name` names, or nothing where the processor has
    /// no instruction of that name.
    pub fn from_name(name: &str) -> (mnemonic: Option<Mnemonic>)
        ensures
            mnemonic == Mnemonic::spec_from_name(name@),
    {
        if name.unicode_len() != 3 {
            return None;
        }
        match (name.get_char(0), name.get_char(1), name.get_char(2)) {
            ('A', 'D', 'C') => Some(Mnemonic::Adc),
            ('A', 'N', 'D') => Some(Mnemonic::And),
            ('A', 'S', 'L') => Some(Mnemonic::Asl),
            ('B', 'C', 'C') => Some(Mnemonic::Bcc),
            ('B', 'C', 'S') => Some(Mnemonic::Bcs),
            ('B', 'E', 'Q') => Some(Mnemonic::Beq),
            ('B', 'I', 'T') => Some(Mnemonic::Bit),
            ('B', 'M', 'I') => Some(Mnemonic::Bmi),
            ('B', 'N', 'E') => Some(Mnemonic::Bne),
            ('B', 'P', 'L') => Some(Mnemonic::Bpl),
            ('B', 'R', 'K') => Some(Mnemonic::Brk),
            ('B', 'V', 'C') => Some(Mnemonic::Bvc),
            ('B', 'V', 'S') => Some(Mnemonic::Bvs),
            ('C', 'L', 'C') => Some(Mnemonic::Clc),
            ('C', 'L', 'D') => Some(Mnemonic::Cld),
            ('C', 'L', 'I') => Some(Mnemonic::Cli),
            ('C', 'L', 'V') => Some(Mnemonic::Clv),
            ('C', 'M', 'P') => Some(Mnemonic::Cmp),
            ('C', 'P', 'X') => Some(Mnemonic::Cpx),
            ('C', 'P', 'Y') => Some(Mnemonic::Cpy),
            ('D', 'E', 'C') => Some(Mnemonic::Dec),
            ('D', 'E', 'X') => Some(Mnemonic::Dex),
            ('D', 'E', 'Y') => Some(Mnemonic::Dey),
            ('E', 'O', 'R') => Some(Mnemonic::Eor),
            ('I', 'N', 'C') => Some(Mnemonic::Inc),
            ('I', 'N', 'X') => Some(Mnemonic::Inx),
            ('I', 'N', 'Y') => Some(Mnemonic::Iny),
            ('J', 'M', 'P') => Some(Mnemonic::Jmp),
            ('J', 'S', 'R') => Some(Mnemonic::Jsr),
            ('L', 'D', 'A') => Some(Mnemonic::Lda),
            ('L', 'D', 'X') => Some(Mnemonic::Ldx),
            ('L', 'D', 'Y') => Some(Mnemonic::Ldy),
            ('L', 'S', 'R') => Some(Mnemonic::Lsr),
            ('N', 'O', 'P') => Some(Mnemonic::Nop),
            ('O', 'R', 'A') => Some(Mnemonic::Ora),
            ('P', 'H', 'A') => Some(Mnemonic::Pha),
            ('P', 'H', 'P') => Some(Mnemonic::Php),
            ('P', 'L', 'A') => Some(Mnemonic::Pla),
            ('P', 'L', 'P') => Some(Mnemonic::Plp),
            ('R', 'O', 'L') => Some(Mnemonic::Rol),
            ('R', 'O', 'R') => Some(Mnemonic::Ror),
            ('R', 'T', 'I') => Some(Mnemonic::Rti),
            ('R', 'T', 'S') => Some(Mnemonic::Rts),
            ('S', 'B', 'C') => Some(Mnemonic::Sbc),
            ('S', 'E', 'C') => Some(Mnemonic::Sec),
            ('S', 'E', 'D') => Some(Mnemonic::Sed),
            ('S', 'E', 'I') => Some(Mnemonic::Sei),
            ('S', 'T', 'A') => Some(Mnemonic::Sta),
            ('S', 'T', 'X') => Some(Mnemonic::Stx),
            ('S', 'T', 'Y') => Some(Mnemonic::Sty),
            ('T', 'A', 'X') => Some(Mnemonic::Tax),
            ('T', 'A', 'Y') => Some(Mnemonic::Tay),
            ('T', 'S', 'X') => Some(Mnemonic::Tsx),
            ('T', 'X', 'A') => Some(Mnemonic::Txa),
            ('T', 'X', 'S') => Some(Mnemonic::Txs),
            ('T', 'Y', 'A') => Some(Mnemonic::Tya),
            _ => None,
        }
    }

    /// The class of the instruction.
    pub open spec fn spec_class(self) -> InstructionClass {
        match self {
            Mnemonic::Clc
            | Mnemonic::Cld
            | Mnemonic::Cli
            | Mnemonic::Clv
            | Mnemonic::Dex
            | Mnemonic::Dey
            | Mnemonic::Inx
            | Mnemonic::Iny
            | Mnemonic::Nop
            | Mnemonic::Sec
            | Mnemonic::Sed
            | Mnemonic::Sei
            | Mnemonic::Tax
            | Mnemonic::Tay
            | Mnemonic::Tsx
            | Mnemonic::Txa
            | Mnemonic::Txs
            | Mnemonic::Tya => InstructionClass::Implied,
            Mnemonic::Adc
            | Mnemonic::And
            | Mnemonic::Bit
            | Mnemonic::Cmp
            | Mnemonic::Cpx
            | Mnemonic::Cpy
            | Mnemonic::Eor
            | Mnemonic::Lda
            | Mnemonic::Ldx
            | Mnemonic::Ldy
            | Mnemonic::Ora
            | Mnemonic::Sbc => InstructionClass::Reads,
            Mnemonic::Sta
            | Mnemonic::Stx
            | Mnemonic::Sty => InstructionClass::Writes,
            Mnemonic::Asl
            | Mnemonic::Dec
            | Mnemonic::Inc
            | Mnemonic::Lsr
            | Mnemonic::Rol
            | Mnemonic::Ror => InstructionClass::Modifies,
            Mnemonic::Bcc
            | Mnemonic::Bcs
            | Mnemonic::Beq
            | Mnemonic::Bmi
            | Mnemonic::Bne
            | Mnemonic::Bpl
            | Mnemonic::Bvc
            | Mnemonic::Bvs => InstructionClass::Branches,
            Mnemonic::Jmp => InstructionClass::Jumps,
            Mnemonic::Jsr => InstructionClass::Calls,
            Mnemonic::Rti
            | Mnemonic::Rts => InstructionClass::Returns,
            Mnemonic::Pha
            | Mnemonic::Php => InstructionClass::Pushes,
            Mnemonic::Pla
            | Mnemonic::Plp => InstructionClass::Pulls,
            Mnemonic::Brk => InstructionClass::Halts,
        }
    }

    /// The class of the instruction.
    #[verifier::when_used_as_spec(spec_class)]
    pub fn class(self) -> (class: InstructionClass)
        ensures
            class == self.spec_class(),
    {
        match self {
            Mnemonic::Clc
            | Mnemonic::Cld
            | Mnemonic::Cli
            | Mnemonic::Clv
            | Mnemonic::Dex
            | Mnemonic::Dey
            | Mnemonic::Inx
            | Mnemonic::Iny
            | Mnemonic::Nop
            | Mnemonic::Sec
            | Mnemonic::Sed
            | Mnemonic::Sei
            | Mnemonic::Tax
            | Mnemonic::Tay
            | Mnemonic::Tsx
            | Mnemonic::Txa
            | Mnemonic::Txs
            | Mnemonic::Tya => InstructionClass::Implied,
            Mnemonic::Adc
            | Mnemonic::And
            | Mnemonic::Bit
            | Mnemonic::Cmp
            | Mnemonic::Cpx
            | Mnemonic::Cpy
            | Mnemonic::Eor
            | Mnemonic::Lda
            | Mnemonic::Ldx
            | Mnemonic::Ldy
            | Mnemonic::Ora
            | Mnemonic::Sbc => InstructionClass::Reads,
            Mnemonic::Sta
            | Mnemonic::Stx
            | Mnemonic::Sty => InstructionClass::Writes,
            Mnemonic::Asl
            | Mnemonic::Dec
            | Mnemonic::Inc
            | Mnemonic::Lsr
            | Mnemonic::Rol
            | Mnemonic::Ror => InstructionClass::Modifies,
            Mnemonic::Bcc
            | Mnemonic::Bcs
            | Mnemonic::Beq
            | Mnemonic::Bmi
            | Mnemonic::Bne
            | Mnemonic::Bpl
            | Mnemonic::Bvc
            | Mnemonic::Bvs => InstructionClass::Branches,
            Mnemonic::Jmp => InstructionClass::Jumps,
            Mnemonic::Jsr => InstructionClass::Calls,
            Mnemonic::Rti
            | Mnemonic::Rts => InstructionClass::Returns,
            Mnemonic::Pha
            | Mnemonic::Php => InstructionClass::Pushes,
            Mnemonic::Pla
            | Mnemonic::Plp => InstructionClass::Pulls,
            Mnemonic::Brk => InstructionClass::Halts,
        }
    }

    /// Whether the instruction, in the implicit mode, works on the
    /// accumulator: the shifts and the rotates do.
    pub open spec fn spec_has_accumulator_form(self) -> bool {
        self == Mnemonic::Asl || self == Mnemonic::Lsr || self == Mnemonic::Rol || self
            == Mnemonic::Ror
    }

    /// Whether the instruction, in the implicit mode, works on the
    /// accumulator.
    #[verifier::when_used_as_spec(spec_has_accumulator_form)]
    pub fn has_accumulator_form(self) -> (has: bool)
        ensures
            has == self.spec_has_accumulator_form(),
    {
        match self {
            Mnemonic::Asl | Mnemonic::Lsr | Mnemonic::Rol | Mnemonic::Ror => true,
            _ => false,
        }
    }

    /// Whether the semantics of the instruction can work with `mode`.
    ///
    /// An instruction without operand in memory takes the implicit mode
    /// only. One that reads its operand takes any mode that finds one, and
    /// one that writes its operand any such mode but the immediate one. One
    /// that modifies its operand takes what a write takes, and the implicit
    /// mode where it has an accumulator form. A branch finds its offset in
    /// the immediate mode, a call its target in the absolute mode, and a
    /// jump its target in the absolute mode or, through a pointer, in the
    /// implicit mode.
    pub open spec fn spec_supports(self, mode: AddressingMode) -> bool {
        match self.spec_class() {
            InstructionClass::Implied
            | InstructionClass::Halts
            | InstructionClass::Returns
            | InstructionClass::Pushes
            | InstructionClass::Pulls => mode == AddressingMode::Implicit,
            InstructionClass::Reads => mode != AddressingMode::Implicit,
            InstructionClass::Writes => mode != AddressingMode::Implicit && mode
                != AddressingMode::Immediate,
            InstructionClass::Modifies => mode != AddressingMode::Immediate && (mode
                != AddressingMode::Implicit || self.spec_has_accumulator_form()),
            InstructionClass::Branches => mode == AddressingMode::Immediate,
            InstructionClass::Jumps => mode == AddressingMode::Absolute || mode
                == AddressingMode::Implicit,
            InstructionClass::Calls => mode == AddressingMode::Absolute,
        }
    }

    /// Whether the semantics of the instruction can work with `mode`.
    #[verifier::when_used_as_spec(spec_supports)]
    pub fn supports(self, mode: AddressingMode) -> (supported: bool)
        ensures
            supported == self.spec_supports(mode),
    {
        match self.class() {
            InstructionClass::Implied
            | InstructionClass::Halts
            | InstructionClass::Returns
            | InstructionClass::Pushes
            | InstructionClass::Pulls => mode == AddressingMode::Implicit,
            InstructionClass::Reads => mode != AddressingMode::Implicit,
            InstructionClass::Writes => mode != AddressingMode::Implicit && mode
                != AddressingMode::Immediate,
            InstructionClass::Modifies => mode != AddressingMode::Immediate && (mode
                != AddressingMode::Implicit || self.has_accumulator_form()),
            InstructionClass::Branches => mode == AddressingMode::Immediate,
            InstructionClass::Jumps => mode == AddressingMode::Absolute || mode
                == AddressingMode::Implicit,
            InstructionClass::Calls => mode == AddressingMode::Absolute,
        }
    }
}

/// Every instruction is found again by its name, and by no other name.
pub proof fn lemma_name_round_trip(mnemonic: Mnemonic, name: Seq<char>)
    ensures
        Mnemonic::spec_from_name(mnemonic.spec_name()) == Some(mnemonic),
        Mnemonic::spec_from_name(name) == Some(mnemonic) ==> name == mnemonic.spec_name(),
{
    if Mnemonic::spec_from_name(name) == Some(mnemonic) {
        assert(name =~= mnemonic.spec_name());
    }
}

} // verus!

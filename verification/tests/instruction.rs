use cpu6502::cpu::AddressingMode;
use cpu6502::instruction::{InstructionClass, Mnemonic};

const ALL: [Mnemonic; 56] = [
    Mnemonic::Adc,
    Mnemonic::And,
    Mnemonic::Asl,
    Mnemonic::Bcc,
    Mnemonic::Bcs,
    Mnemonic::Beq,
    Mnemonic::Bit,
    Mnemonic::Bmi,
    Mnemonic::Bne,
    Mnemonic::Bpl,
    Mnemonic::Brk,
    Mnemonic::Bvc,
    Mnemonic::Bvs,
    Mnemonic::Clc,
    Mnemonic::Cld,
    Mnemonic::Cli,
    Mnemonic::Clv,
    Mnemonic::Cmp,
    Mnemonic::Cpx,
    Mnemonic::Cpy,
    Mnemonic::Dec,
    Mnemonic::Dex,
    Mnemonic::Dey,
    Mnemonic::Eor,
    Mnemonic::Inc,
    Mnemonic::Inx,
    Mnemonic::Iny,
    Mnemonic::Jmp,
    Mnemonic::Jsr,
    Mnemonic::Lda,
    Mnemonic::Ldx,
    Mnemonic::Ldy,
    Mnemonic::Lsr,
    Mnemonic::Nop,
    Mnemonic::Ora,
    Mnemonic::Pha,
    Mnemonic::Php,
    Mnemonic::Pla,
    Mnemonic::Plp,
    Mnemonic::Rol,
    Mnemonic::Ror,
    Mnemonic::Rti,
    Mnemonic::Rts,
    Mnemonic::Sbc,
    Mnemonic::Sec,
    Mnemonic::Sed,
    Mnemonic::Sei,
    Mnemonic::Sta,
    Mnemonic::Stx,
    Mnemonic::Sty,
    Mnemonic::Tax,
    Mnemonic::Tay,
    Mnemonic::Tsx,
    Mnemonic::Txa,
    Mnemonic::Txs,
    Mnemonic::Tya,
];

const MODES: [AddressingMode; 10] = [
    AddressingMode::Implicit,
    AddressingMode::Immediate,
    AddressingMode::ZeroPage,
    AddressingMode::ZeroPageX,
    AddressingMode::ZeroPageY,
    AddressingMode::Absolute,
    AddressingMode::AbsoluteX,
    AddressingMode::AbsoluteY,
    AddressingMode::IndirectX,
    AddressingMode::IndirectY,
];

#[test]
fn every_mnemonic_is_found_by_its_name() {
    for mnemonic in ALL {
        let name = mnemonic.name();
        assert_eq!(name.len(), 3);
        assert_eq!(name, name.to_uppercase());
        assert_eq!(Mnemonic::from_name(name), Some(mnemonic));
    }
}

#[test]
fn names_are_distinct() {
    for (i, first) in ALL.iter().enumerate() {
        for second in &ALL[i + 1..] {
            assert_ne!(first.name(), second.name());
        }
    }
}

#[test]
fn names_are_the_usual_ones() {
    assert_eq!(Mnemonic::Lda.name(), "LDA");
    assert_eq!(Mnemonic::Brk.name(), "BRK");
    assert_eq!(Mnemonic::Cmp.name(), "CMP");
    assert_eq!(Mnemonic::Jsr.name(), "JSR");
    assert_eq!(Mnemonic::from_name("ADC"), Some(Mnemonic::Adc));
    assert_eq!(Mnemonic::from_name("TAX"), Some(Mnemonic::Tax));
    assert_eq!(Mnemonic::from_name("INX"), Some(Mnemonic::Inx));
    assert_eq!(Mnemonic::from_name("STA"), Some(Mnemonic::Sta));
}

#[test]
fn unknown_names_name_nothing() {
    assert_eq!(Mnemonic::from_name(""), None);
    assert_eq!(Mnemonic::from_name("LD"), None);
    assert_eq!(Mnemonic::from_name("LDAX"), None);
    assert_eq!(Mnemonic::from_name("lda"), None);
    assert_eq!(Mnemonic::from_name("Lda"), None);
    assert_eq!(Mnemonic::from_name("XYZ"), None);
    assert_eq!(Mnemonic::from_name("LAX"), None);
    assert_eq!(Mnemonic::from_name("LD\u{c4}"), None);
    assert_eq!(Mnemonic::from_name("\u{4e2d}\u{6587}\u{5b57}"), None);
}

#[test]
fn classes_of_the_documented_instructions() {
    assert_eq!(Mnemonic::Brk.class(), InstructionClass::Halts);
    assert_eq!(Mnemonic::Tax.class(), InstructionClass::Implied);
    assert_eq!(Mnemonic::Inx.class(), InstructionClass::Implied);
    for mnemonic in [
        Mnemonic::Lda,
        Mnemonic::Ldx,
        Mnemonic::Ldy,
        Mnemonic::Cmp,
        Mnemonic::Cpx,
        Mnemonic::Cpy,
        Mnemonic::Adc,
    ] {
        assert_eq!(mnemonic.class(), InstructionClass::Reads);
    }
    assert_eq!(Mnemonic::Sta.class(), InstructionClass::Writes);
}

#[test]
fn classes_of_the_other_instructions() {
    for mnemonic in [Mnemonic::And, Mnemonic::Eor, Mnemonic::Ora, Mnemonic::Bit, Mnemonic::Sbc] {
        assert_eq!(mnemonic.class(), InstructionClass::Reads);
    }
    for mnemonic in [Mnemonic::Stx, Mnemonic::Sty] {
        assert_eq!(mnemonic.class(), InstructionClass::Writes);
    }
    for mnemonic in [
        Mnemonic::Asl,
        Mnemonic::Lsr,
        Mnemonic::Rol,
        Mnemonic::Ror,
        Mnemonic::Inc,
        Mnemonic::Dec,
    ] {
        assert_eq!(mnemonic.class(), InstructionClass::Modifies);
    }
    for mnemonic in [
        Mnemonic::Bcc,
        Mnemonic::Bcs,
        Mnemonic::Beq,
        Mnemonic::Bne,
        Mnemonic::Bmi,
        Mnemonic::Bpl,
        Mnemonic::Bvc,
        Mnemonic::Bvs,
    ] {
        assert_eq!(mnemonic.class(), InstructionClass::Branches);
    }
    assert_eq!(Mnemonic::Jmp.class(), InstructionClass::Jumps);
    assert_eq!(Mnemonic::Jsr.class(), InstructionClass::Calls);
    assert_eq!(Mnemonic::Rts.class(), InstructionClass::Returns);
    assert_eq!(Mnemonic::Rti.class(), InstructionClass::Returns);
    assert_eq!(Mnemonic::Pha.class(), InstructionClass::Pushes);
    assert_eq!(Mnemonic::Php.class(), InstructionClass::Pushes);
    assert_eq!(Mnemonic::Pla.class(), InstructionClass::Pulls);
    assert_eq!(Mnemonic::Plp.class(), InstructionClass::Pulls);
    for mnemonic in [
        Mnemonic::Clc,
        Mnemonic::Sec,
        Mnemonic::Nop,
        Mnemonic::Dex,
        Mnemonic::Iny,
        Mnemonic::Txs,
        Mnemonic::Tya,
    ] {
        assert_eq!(mnemonic.class(), InstructionClass::Implied);
    }
}

#[test]
fn supported_modes_follow_the_class() {
    for mnemonic in ALL {
        for mode in MODES {
            let implicit = mode == AddressingMode::Implicit;
            let immediate = mode == AddressingMode::Immediate;
            let expected = match mnemonic.class() {
                InstructionClass::Implied
                | InstructionClass::Halts
                | InstructionClass::Returns
                | InstructionClass::Pushes
                | InstructionClass::Pulls => implicit,
                InstructionClass::Reads => !implicit,
                InstructionClass::Writes => !implicit && !immediate,
                InstructionClass::Modifies => {
                    !immediate && (!implicit || mnemonic.has_accumulator_form())
                }
                InstructionClass::Branches => immediate,
                InstructionClass::Jumps => implicit || mode == AddressingMode::Absolute,
                InstructionClass::Calls => mode == AddressingMode::Absolute,
            };
            assert_eq!(mnemonic.supports(mode), expected);
        }
    }
}

#[test]
fn supported_modes_by_example() {
    assert!(Mnemonic::Lda.supports(AddressingMode::Immediate));
    assert!(Mnemonic::Lda.supports(AddressingMode::IndirectY));
    assert!(!Mnemonic::Lda.supports(AddressingMode::Implicit));
    assert!(Mnemonic::Sta.supports(AddressingMode::AbsoluteX));
    assert!(!Mnemonic::Sta.supports(AddressingMode::Immediate));
    assert!(!Mnemonic::Sta.supports(AddressingMode::Implicit));
    assert!(Mnemonic::Tax.supports(AddressingMode::Implicit));
    assert!(!Mnemonic::Tax.supports(AddressingMode::Absolute));
    assert!(Mnemonic::Brk.supports(AddressingMode::Implicit));
    assert!(!Mnemonic::Brk.supports(AddressingMode::Immediate));
    assert!(Mnemonic::Asl.supports(AddressingMode::Implicit));
    assert!(Mnemonic::Asl.supports(AddressingMode::ZeroPage));
    assert!(!Mnemonic::Inc.supports(AddressingMode::Implicit));
    assert!(Mnemonic::Inc.supports(AddressingMode::Absolute));
    assert!(Mnemonic::Beq.supports(AddressingMode::Immediate));
    assert!(!Mnemonic::Beq.supports(AddressingMode::Absolute));
    assert!(Mnemonic::Jmp.supports(AddressingMode::Absolute));
    assert!(Mnemonic::Jmp.supports(AddressingMode::Implicit));
    assert!(!Mnemonic::Jmp.supports(AddressingMode::IndirectX));
    assert!(Mnemonic::Jsr.supports(AddressingMode::Absolute));
    assert!(!Mnemonic::Jsr.supports(AddressingMode::Implicit));
}

#[test]
fn accumulator_forms() {
    for mnemonic in ALL {
        let expected = matches!(
            mnemonic,
            Mnemonic::Asl | Mnemonic::Lsr | Mnemonic::Rol | Mnemonic::Ror
        );
        assert_eq!(mnemonic.has_accumulator_form(), expected);
    }
}

//! The opcode table.
use nes_emulator::cpu::addressing_mode::AddressingMode;
use nes_emulator::cpu::opcodes::{OpCode, OpCodeName};

#[test]
fn new_keeps_its_arguments() {
    let op = OpCode::new(0x69, OpCodeName::ADC, 2, 2, AddressingMode::Immediate);
    assert_eq!(op.code, 0x69);
    assert_eq!(op.mnemonic, OpCodeName::ADC);
    assert_eq!(op.len, 2);
    assert_eq!(op.cycles, 2);
    assert_eq!(op.mode, AddressingMode::Immediate);
}

#[test]
fn get_finds_known_opcodes() {
    assert_eq!(
        OpCode::get(0x00),
        Some(OpCode::new(0x00, OpCodeName::BRK, 1, 7, AddressingMode::Implicit))
    );
    assert_eq!(
        OpCode::get(0xA9),
        Some(OpCode::new(0xA9, OpCodeName::LDA, 2, 2, AddressingMode::Immediate))
    );
    assert_eq!(
        OpCode::get(0x6C),
        Some(OpCode::new(0x6C, OpCodeName::JMP, 3, 5, AddressingMode::Indirect))
    );
    assert_eq!(
        OpCode::get(0x20),
        Some(OpCode::new(0x20, OpCodeName::JSR, 3, 6, AddressingMode::Absolute))
    );
    assert_eq!(
        OpCode::get(0x91),
        Some(OpCode::new(0x91, OpCodeName::STA, 2, 6, AddressingMode::IndirectY))
    );
    assert_eq!(
        OpCode::get(0xB6),
        Some(OpCode::new(0xB6, OpCodeName::LDX, 2, 4, AddressingMode::ZeroPageY))
    );
    assert_eq!(
        OpCode::get(0x1E),
        Some(OpCode::new(0x1E, OpCodeName::ASL, 3, 7, AddressingMode::AbsoluteX))
    );
    assert_eq!(
        OpCode::get(0x4A),
        Some(OpCode::new(0x4A, OpCodeName::LSR, 1, 2, AddressingMode::Accumulator))
    );
    assert_eq!(
        OpCode::get(0x90),
        Some(OpCode::new(0x90, OpCodeName::BCC, 2, 2, AddressingMode::Relative))
    );
    assert_eq!(
        OpCode::get(0x68),
        Some(OpCode::new(0x68, OpCodeName::PLA, 1, 4, AddressingMode::Implicit))
    );
}

#[test]
fn get_finds_nothing_for_other_bytes() {
    for code in [0x02u8, 0x03, 0x1A, 0x80, 0x89, 0x9E, 0xEB, 0xFF] {
        assert_eq!(OpCode::get(code), None);
    }
}

#[test]
fn table_has_151_entries() {
    let mut defined: usize = 0;
    for code in 0..=255u8 {
        if let Some(op) = OpCode::get(code) {
            defined += 1;
            assert_eq!(op.code, code);
        }
    }
    assert_eq!(defined, 151);
}

#[test]
fn length_follows_the_mode() {
    for code in 0..=255u8 {
        if let Some(op) = OpCode::get(code) {
            let expected: u8 = match op.mode {
                AddressingMode::Implicit | AddressingMode::Accumulator => 1,
                AddressingMode::Absolute
                | AddressingMode::AbsoluteX
                | AddressingMode::AbsoluteY
                | AddressingMode::Indirect => 3,
                _ => 2,
            };
            assert_eq!(op.len, expected);
        }
    }
}

#[test]
fn no_two_opcodes_share_an_instruction_and_mode() {
    let mut seen: Vec<(OpCodeName, AddressingMode)> = Vec::new();
    for code in 0..=255u8 {
        if let Some(op) = OpCode::get(code) {
            assert!(!seen.contains(&(op.mnemonic, op.mode)));
            seen.push((op.mnemonic, op.mode));
        }
    }
}

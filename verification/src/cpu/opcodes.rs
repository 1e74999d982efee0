//! The opcode table: which byte stands for which instruction in which
//! addressing mode, how long the instruction is and how many cycles it takes
//! at the least.

use super::addressing_mode::AddressingMode;
use vstd::prelude::*;

verus! {

/// The mnemonics of the instruction set.
#[derive(Debug, Copy, Clone, PartialEq, Eq, Structural)]
pub enum OpCodeName {
    /// Add with Carry
    ADC,
    /// Logical AND
    AND,
    /// Arithmetic Shift Left
    ASL,
    /// Branch if Carry Clear
    BCC,
    /// Branch if Carry Set
    BCS,
    /// Branch if Equal
    BEQ,
    /// Bit Test
    BIT,
    /// Branch if Minus
    BMI,
    /// Branch if Not Equal
    BNE,
    /// Branch if Positive
    BPL,
    /// Force Interrupt
    BRK,
    /// Branch if Overflow Clear
    BVC,
    /// Branch if Overflow Set
    BVS,
    /// Clear Carry Flag
    CLC,
    /// Clear Decimal Mode
    CLD,
    /// Clear Interrupt Disable
    CLI,
    /// Clear Overflow Flag
    CLV,
    /// Compare
    CMP,
    /// Compare X Register
    CPX,
    /// Compare Y Register
    CPY,
    /// Decrement Memory
    DEC,
    /// Decrement X Register
    DEX,
    /// Decrement Y Register
    DEY,
    /// Exclusive OR
    EOR,
    /// Increment Memory
    INC,
    /// Increment X Register
    INX,
    /// Increment Y Register
    INY,
    /// Jump
    JMP,
    /// Jump to Subroutine
    JSR,
    /// Load Accumulator
    LDA,
    /// Load X Register
    LDX,
    /// Load Y Register
    LDY,
    /// Logical Shift Right
    LSR,
    /// No Operation
    NOP,
    /// Logical Inclusive OR
    ORA,
    /// Push Accumulator
    PHA,
    /// Push Processor Status
    PHP,
    /// Pull Accumulator
    PLA,
    /// Pull Processor Status
    PLP,
    /// Rotate Left
    ROL,
    /// Rotate Right
    ROR,
    /// Return from Interrupt
    RTI,
    /// Return from Subroutine
    RTS,
    /// Subtract with Carry
    SBC,
    /// Set Carry Flag
    SEC,
    /// Set Decimal Flag
    SED,
    /// Set Interrupt Disable
    SEI,
    /// Store Accumulator
    STA,
    /// Store X Register
    STX,
    /// Store Y Register
    STY,
    /// Transfer Accumulator to X
    TAX,
    /// Transfer Accumulator to Y
    TAY,
    /// Transfer Stack Pointer to X
    TSX,
    /// Transfer X to Accumulator
    TXA,
    /// Transfer X to Stack Pointer
    TXS,
    /// Transfer Y to Accumulator
    TYA,
}

/// What the table knows of one opcode.
#[derive(Debug, Copy, Clone, PartialEq, Eq, Structural)]
pub struct OpCode {
    /// The opcode byte.
    pub code: u8,
    /// The instruction.
    pub mnemonic: OpCodeName,
    /// The instruction's length in bytes, opcode included.
    pub len: u8,
    /// The cycles that the instruction takes when no page is crossed and no
    /// branch is taken.
    pub cycles: u8,
    /// The addressing mode.
    pub mode: AddressingMode,
}

/// The byte that encodes `mnemonic` in `mode`, where the instruction set has
/// that combination.
pub open spec fn encoding(mnemonic: OpCodeName, mode: AddressingMode) -> Option<u8> {
    match mnemonic {
        OpCodeName::ADC => match mode {
            AddressingMode::Immediate => Some(0x69),
            AddressingMode::ZeroPage => Some(0x65),
            AddressingMode::ZeroPageX => Some(0x75),
            AddressingMode::Absolute => Some(0x6D),
            AddressingMode::AbsoluteX => Some(0x7D),
            AddressingMode::AbsoluteY => Some(0x79),
            AddressingMode::IndirectX => Some(0x61),
            AddressingMode::IndirectY => Some(0x71),
            _ => None,
        },
        OpCodeName::AND => match mode {
            AddressingMode::Immediate => Some(0x29),
            AddressingMode::ZeroPage => Some(0x25),
            AddressingMode::ZeroPageX => Some(0x35),
            AddressingMode::Absolute => Some(0x2D),
            AddressingMode::AbsoluteX => Some(0x3D),
            AddressingMode::AbsoluteY => Some(0x39),
            AddressingMode::IndirectX => Some(0x21),
            AddressingMode::IndirectY => Some(0x31),
            _ => None,
        },
        OpCodeName::ASL => match mode {
            AddressingMode::Accumulator => Some(0x0A),
            AddressingMode::ZeroPage => Some(0x06),
            AddressingMode::ZeroPageX => Some(0x16),
            AddressingMode::Absolute => Some(0x0E),
            AddressingMode::AbsoluteX => Some(0x1E),
            _ => None,
        },
        OpCodeName::BCC => match mode {
            AddressingMode::Relative => Some(0x90),
            _ => None,
        },
        OpCodeName::BCS => match mode {
            AddressingMode::Relative => Some(0xB0),
            _ => None,
        },
        OpCodeName::BEQ => match mode {
            AddressingMode::Relative => Some(0xF0),
            _ => None,
        },
        OpCodeName::BIT => match mode {
            AddressingMode::ZeroPage => Some(0x24),
            AddressingMode::Absolute => Some(0x2C),
            _ => None,
        },
        OpCodeName::BMI => match mode {
            AddressingMode::Relative => Some(0x30),
            _ => None,
        },
        OpCodeName::BNE => match mode {
            AddressingMode::Relative => Some(0xD0),
            _ => None,
        },
        OpCodeName::BPL => match mode {
            AddressingMode::Relative => Some(0x10),
            _ => None,
        },
        OpCodeName::BRK => match mode {
            AddressingMode::Implicit => Some(0x00),
            _ => None,
        },
        OpCodeName::BVC => match mode {
            AddressingMode::Relative => Some(0x50),
            _ => None,
        },
        OpCodeName::BVS => match mode {
            AddressingMode::Relative => Some(0x70),
            _ => None,
        },
        OpCodeName::CLC => match mode {
            AddressingMode::Implicit => Some(0x18),
            _ => None,
        },
        OpCodeName::CLD => match mode {
            AddressingMode::Implicit => Some(0xD8),
            _ => None,
        },
        OpCodeName::CLI => match mode {
            AddressingMode::Implicit => Some(0x58),
            _ => None,
        },
        OpCodeName::CLV => match mode {
            AddressingMode::Implicit => Some(0xB8),
            _ => None,
        },
        OpCodeName::CMP => match mode {
            AddressingMode::Immediate => Some(0xC9),
            AddressingMode::ZeroPage => Some(0xC5),
            AddressingMode::ZeroPageX => Some(0xD5),
            AddressingMode::Absolute => Some(0xCD),
            AddressingMode::AbsoluteX => Some(0xDD),
            AddressingMode::AbsoluteY => Some(0xD9),
            AddressingMode::IndirectX => Some(0xC1),
            AddressingMode::IndirectY => Some(0xD1),
            _ => None,
        },
        OpCodeName::CPX => match mode {
            AddressingMode::Immediate => Some(0xE0),
            AddressingMode::ZeroPage => Some(0xE4),
            AddressingMode::Absolute => Some(0xEC),
            _ => None,
        },
        OpCodeName::CPY => match mode {
            AddressingMode::Immediate => Some(0xC0),
            AddressingMode::ZeroPage => Some(0xC4),
            AddressingMode::Absolute => Some(0xCC),
            _ => None,
        },
        OpCodeName::DEC => match mode {
            AddressingMode::ZeroPage => Some(0xC6),
            AddressingMode::ZeroPageX => Some(0xD6),
            AddressingMode::Absolute => Some(0xCE),
            AddressingMode::AbsoluteX => Some(0xDE),
            _ => None,
        },
        OpCodeName::DEX => match mode {
            AddressingMode::Implicit => Some(0xCA),
            _ => None,
        },
        OpCodeName::DEY => match mode {
            AddressingMode::Implicit => Some(0x88),
            _ => None,
        },
        OpCodeName::EOR => match mode {
            AddressingMode::Immediate => Some(0x49),
            AddressingMode::ZeroPage => Some(0x45),
            AddressingMode::ZeroPageX => Some(0x55),
            AddressingMode::Absolute => Some(0x4D),
            AddressingMode::AbsoluteX => Some(0x5D),
            AddressingMode::AbsoluteY => Some(0x59),
            AddressingMode::IndirectX => Some(0x41),
            AddressingMode::IndirectY => Some(0x51),
            _ => None,
        },
        OpCodeName::INC => match mode {
            AddressingMode::ZeroPage => Some(0xE6),
            AddressingMode::ZeroPageX => Some(0xF6),
            AddressingMode::Absolute => Some(0xEE),
            AddressingMode::AbsoluteX => Some(0xFE),
            _ => None,
        },
        OpCodeName::INX => match mode {
            AddressingMode::Implicit => Some(0xE8),
            _ => None,
        },
        OpCodeName::INY => match mode {
            AddressingMode::Implicit => Some(0xC8),
            _ => None,
        },
        OpCodeName::JMP => match mode {
            AddressingMode::Absolute => Some(0x4C),
            AddressingMode::Indirect => Some(0x6C),
            _ => None,
        },
        OpCodeName::JSR => match mode {
            AddressingMode::Absolute => Some(0x20),
            _ => None,
        },
        OpCodeName::LDA => match mode {
            AddressingMode::Immediate => Some(0xA9),
            AddressingMode::ZeroPage => Some(0xA5),
            AddressingMode::ZeroPageX => Some(0xB5),
            AddressingMode::Absolute => Some(0xAD),
            AddressingMode::AbsoluteX => Some(0xBD),
            AddressingMode::AbsoluteY => Some(0xB9),
            AddressingMode::IndirectX => Some(0xA1),
            AddressingMode::IndirectY => Some(0xB1),
            _ => None,
        },
        OpCodeName::LDX => match mode {
            AddressingMode::Immediate => Some(0xA2),
            AddressingMode::ZeroPage => Some(0xA6),
            AddressingMode::ZeroPageY => Some(0xB6),
            AddressingMode::Absolute => Some(0xAE),
            AddressingMode::AbsoluteY => Some(0xBE),
            _ => None,
        },
        OpCodeName::LDY => match mode {
            AddressingMode::Immediate => Some(0xA0),
            AddressingMode::ZeroPage => Some(0xA4),
            AddressingMode::ZeroPageX => Some(0xB4),
            AddressingMode::Absolute => Some(0xAC),
            AddressingMode::AbsoluteX => Some(0xBC),
            _ => None,
        },
        OpCodeName::LSR => match mode {
            AddressingMode::Accumulator => Some(0x4A),
            AddressingMode::ZeroPage => Some(0x46),
            AddressingMode::ZeroPageX => Some(0x56),
            AddressingMode::Absolute => Some(0x4E),
            AddressingMode::AbsoluteX => Some(0x5E),
            _ => None,
        },
        OpCodeName::NOP => match mode {
            AddressingMode::Implicit => Some(0xEA),
            _ => None,
        },
        OpCodeName::ORA => match mode {
            AddressingMode::Immediate => Some(0x09),
            AddressingMode::ZeroPage => Some(0x05),
            AddressingMode::ZeroPageX => Some(0x15),
            AddressingMode::Absolute => Some(0x0D),
            AddressingMode::AbsoluteX => Some(0x1D),
            AddressingMode::AbsoluteY => Some(0x19),
            AddressingMode::IndirectX => Some(0x01),
            AddressingMode::IndirectY => Some(0x11),
            _ => None,
        },
        OpCodeName::PHA => match mode {
            AddressingMode::Implicit => Some(0x48),
            _ => None,
        },
        OpCodeName::PHP => match mode {
            AddressingMode::Implicit => Some(0x08),
            _ => None,
        },
        OpCodeName::PLA => match mode {
            AddressingMode::Implicit => Some(0x68),
            _ => None,
        },
        OpCodeName::PLP => match mode {
            AddressingMode::Implicit => Some(0x28),
            _ => None,
        },
        OpCodeName::ROL => match mode {
            AddressingMode::Accumulator => Some(0x2A),
            AddressingMode::ZeroPage => Some(0x26),
            AddressingMode::ZeroPageX => Some(0x36),
            AddressingMode::Absolute => Some(0x2E),
            AddressingMode::AbsoluteX => Some(0x3E),
            _ => None,
        },
        OpCodeName::ROR => match mode {
            AddressingMode::Accumulator => Some(0x6A),
            AddressingMode::ZeroPage => Some(0x66),
            AddressingMode::ZeroPageX => Some(0x76),
            AddressingMode::Absolute => Some(0x6E),
            AddressingMode::AbsoluteX => Some(0x7E),
            _ => None,
        },
        OpCodeName::RTI => match mode {
            AddressingMode::Implicit => Some(0x40),
            _ => None,
        },
        OpCodeName::RTS => match mode {
            AddressingMode::Implicit => Some(0x60),
            _ => None,
        },
        OpCodeName::SBC => match mode {
            AddressingMode::Immediate => Some(0xE9),
            AddressingMode::ZeroPage => Some(0xE5),
            AddressingMode::ZeroPageX => Some(0xF5),
            AddressingMode::Absolute => Some(0xED),
            AddressingMode::AbsoluteX => Some(0xFD),
            AddressingMode::AbsoluteY => Some(0xF9),
            AddressingMode::IndirectX => Some(0xE1),
            AddressingMode::IndirectY => Some(0xF1),
            _ => None,
        },
        OpCodeName::SEC => match mode {
            AddressingMode::Implicit => Some(0x38),
            _ => None,
        },
        OpCodeName::SED => match mode {
            AddressingMode::Implicit => Some(0xF8),
            _ => None,
        },
        OpCodeName::SEI => match mode {
            AddressingMode::Implicit => Some(0x78),
            _ => None,
        },
        OpCodeName::STA => match mode {
            AddressingMode::ZeroPage => Some(0x85),
            AddressingMode::ZeroPageX => Some(0x95),
            AddressingMode::Absolute => Some(0x8D),
            AddressingMode::AbsoluteX => Some(0x9D),
            AddressingMode::AbsoluteY => Some(0x99),
            AddressingMode::IndirectX => Some(0x81),
            AddressingMode::IndirectY => Some(0x91),
            _ => None,
        },
        OpCodeName::STX => match mode {
            AddressingMode::ZeroPage => Some(0x86),
            AddressingMode::ZeroPageY => Some(0x96),
            AddressingMode::Absolute => Some(0x8E),
            _ => None,
        },
        OpCodeName::STY => match mode {
            AddressingMode::ZeroPage => Some(0x84),
            AddressingMode::ZeroPageX => Some(0x94),
            AddressingMode::Absolute => Some(0x8C),
            _ => None,
        },
        OpCodeName::TAX => match mode {
            AddressingMode::Implicit => Some(0xAA),
            _ => None,
        },
        OpCodeName::TAY => match mode {
            AddressingMode::Implicit => Some(0xA8),
            _ => None,
        },
        OpCodeName::TSX => match mode {
            AddressingMode::Implicit => Some(0xBA),
            _ => None,
        },
        OpCodeName::TXA => match mode {
            AddressingMode::Implicit => Some(0x8A),
            _ => None,
        },
        OpCodeName::TXS => match mode {
            AddressingMode::Implicit => Some(0x9A),
            _ => None,
        },
        OpCodeName::TYA => match mode {
            AddressingMode::Implicit => Some(0x98),
            _ => None,
        },
    }
}

/// The cycles that `mnemonic` takes in `mode` when no page is crossed and no
/// branch is taken. Instructions that read a value, that store one and that
/// change one in place each have one count for each mode.
pub open spec fn base_cycles(mnemonic: OpCodeName, mode: AddressingMode) -> u8 {
    match mnemonic {
        OpCodeName::ADC
        | OpCodeName::AND
        | OpCodeName::BIT
        | OpCodeName::CMP
        | OpCodeName::CPX
        | OpCodeName::CPY
        | OpCodeName::EOR
        | OpCodeName::LDA
        | OpCodeName::LDX
        | OpCodeName::LDY
        | OpCodeName::ORA
        | OpCodeName::SBC => match mode {
            AddressingMode::Immediate => 2,
            AddressingMode::ZeroPage => 3,
            AddressingMode::IndirectY => 5,
            AddressingMode::IndirectX => 6,
            _ => 4,
        },
        OpCodeName::STA | OpCodeName::STX | OpCodeName::STY => match mode {
            AddressingMode::ZeroPage => 3,
            AddressingMode::ZeroPageX | AddressingMode::ZeroPageY | AddressingMode::Absolute => 4,
            AddressingMode::AbsoluteX | AddressingMode::AbsoluteY => 5,
            _ => 6,
        },
        OpCodeName::ASL
        | OpCodeName::DEC
        | OpCodeName::INC
        | OpCodeName::LSR
        | OpCodeName::ROL
        | OpCodeName::ROR => match mode {
            AddressingMode::Accumulator => 2,
            AddressingMode::ZeroPage => 5,
            AddressingMode::AbsoluteX => 7,
            _ => 6,
        },
        OpCodeName::JMP => match mode {
            AddressingMode::Absolute => 3,
            _ => 5,
        },
        OpCodeName::PHA | OpCodeName::PHP => 3,
        OpCodeName::PLA | OpCodeName::PLP => 4,
        OpCodeName::JSR | OpCodeName::RTI | OpCodeName::RTS => 6,
        OpCodeName::BRK => 7,
        _ => 2,
    }
}

impl OpCode {
    /// The table's entry for `mnemonic` in `mode`, a combination that the
    /// instruction set has.
    pub open spec fn of(mnemonic: OpCodeName, mode: AddressingMode) -> OpCode
        recommends
            encoding(mnemonic, mode) is Some,
    {
        OpCode {
            code: encoding(mnemonic, mode).unwrap(),
            mnemonic,
            len: mode.instruction_len(),
            cycles: base_cycles(mnemonic, mode),
            mode,
        }
    }

    /// Whether `code` is the opcode of an instruction.
    pub open spec fn is_defined(code: u8) -> bool {
        exists|mnemonic: OpCodeName, mode: AddressingMode|
            encoding(mnemonic, mode) == Some(code)
    }

    /// What `code` stands for: the entry of the one instruction and mode that
    /// it encodes, or nothing where it encodes none.
    pub open spec fn decode(code: u8) -> Option<OpCode> {
        if Self::is_defined(code) {
            let (mnemonic, mode) = choose|mnemonic: OpCodeName, mode: AddressingMode|
                encoding(mnemonic, mode) == Some(code);
            Some(Self::of(mnemonic, mode))
        } else {
            None
        }
    }

    /// An entry of the table.
    pub fn new(code: u8, mnemonic: OpCodeName, len: u8, cycles: u8, mode: AddressingMode) -> (op:
        Self)
        ensures
            op == (OpCode { code, mnemonic, len, cycles, mode }),
    {
        Self { code, mnemonic, len, cycles, mode }
    }

    /// Looks `code` up in the table.
    #[verifier::rlimit(30)]
    pub fn get(code: u8) -> (entry: Option<OpCode>)
        ensures
            entry == Self::decode(code),
    {
        let entry = match code {
            0x69 => Some(OpCode { code: 0x69, mnemonic: OpCodeName::ADC, len: 2, cycles: 2, mode: AddressingMode::Immediate }),
            0x65 => Some(OpCode { code: 0x65, mnemonic: OpCodeName::ADC, len: 2, cycles: 3, mode: AddressingMode::ZeroPage }),
            0x75 => Some(OpCode { code: 0x75, mnemonic: OpCodeName::ADC, len: 2, cycles: 4, mode: AddressingMode::ZeroPageX }),
            0x6D => Some(OpCode { code: 0x6D, mnemonic: OpCodeName::ADC, len: 3, cycles: 4, mode: AddressingMode::Absolute }),
            0x7D => Some(OpCode { code: 0x7D, mnemonic: OpCodeName::ADC, len: 3, cycles: 4, mode: AddressingMode::AbsoluteX }),
            0x79 => Some(OpCode { code: 0x79, mnemonic: OpCodeName::ADC, len: 3, cycles: 4, mode: AddressingMode::AbsoluteY }),
            0x61 => Some(OpCode { code: 0x61, mnemonic: OpCodeName::ADC, len: 2, cycles: 6, mode: AddressingMode::IndirectX }),
            0x71 => Some(OpCode { code: 0x71, mnemonic: OpCodeName::ADC, len: 2, cycles: 5, mode: AddressingMode::IndirectY }),
            0x29 => Some(OpCode { code: 0x29, mnemonic: OpCodeName::AND, len: 2, cycles: 2, mode: AddressingMode::Immediate }),
            0x25 => Some(OpCode { code: 0x25, mnemonic: OpCodeName::AND, len: 2, cycles: 3, mode: AddressingMode::ZeroPage }),
            0x35 => Some(OpCode { code: 0x35, mnemonic: OpCodeName::AND, len: 2, cycles: 4, mode: AddressingMode::ZeroPageX }),
            0x2D => Some(OpCode { code: 0x2D, mnemonic: OpCodeName::AND, len: 3, cycles: 4, mode: AddressingMode::Absolute }),
            0x3D => Some(OpCode { code: 0x3D, mnemonic: OpCodeName::AND, len: 3, cycles: 4, mode: AddressingMode::AbsoluteX }),
            0x39 => Some(OpCode { code: 0x39, mnemonic: OpCodeName::AND, len: 3, cycles: 4, mode: AddressingMode::AbsoluteY }),
            0x21 => Some(OpCode { code: 0x21, mnemonic: OpCodeName::AND, len: 2, cycles: 6, mode: AddressingMode::IndirectX }),
            0x31 => Some(OpCode { code: 0x31, mnemonic: OpCodeName::AND, len: 2, cycles: 5, mode: AddressingMode::IndirectY }),
            0x0A => Some(OpCode { code: 0x0A, mnemonic: OpCodeName::ASL, len: 1, cycles: 2, mode: AddressingMode::Accumulator }),
            0x06 => Some(OpCode { code: 0x06, mnemonic: OpCodeName::ASL, len: 2, cycles: 5, mode: AddressingMode::ZeroPage }),
            0x16 => Some(OpCode { code: 0x16, mnemonic: OpCodeName::ASL, len: 2, cycles: 6, mode: AddressingMode::ZeroPageX }),
            0x0E => Some(OpCode { code: 0x0E, mnemonic: OpCodeName::ASL, len: 3, cycles: 6, mode: AddressingMode::Absolute }),
            0x1E => Some(OpCode { code: 0x1E, mnemonic: OpCodeName::ASL, len: 3, cycles: 7, mode: AddressingMode::AbsoluteX }),
            0x90 => Some(OpCode { code: 0x90, mnemonic: OpCodeName::BCC, len: 2, cycles: 2, mode: AddressingMode::Relative }),
            0xB0 => Some(OpCode { code: 0xB0, mnemonic: OpCodeName::BCS, len: 2, cycles: 2, mode: AddressingMode::Relative }),
            0xF0 => Some(OpCode { code: 0xF0, mnemonic: OpCodeName::BEQ, len: 2, cycles: 2, mode: AddressingMode::Relative }),
            0x24 => Some(OpCode { code: 0x24, mnemonic: OpCodeName::BIT, len: 2, cycles: 3, mode: AddressingMode::ZeroPage }),
            0x2C => Some(OpCode { code: 0x2C, mnemonic: OpCodeName::BIT, len: 3, cycles: 4, mode: AddressingMode::Absolute }),
            0x30 => Some(OpCode { code: 0x30, mnemonic: OpCodeName::BMI, len: 2, cycles: 2, mode: AddressingMode::Relative }),
            0xD0 => Some(OpCode { code: 0xD0, mnemonic: OpCodeName::BNE, len: 2, cycles: 2, mode: AddressingMode::Relative }),
            0x10 => Some(OpCode { code: 0x10, mnemonic: OpCodeName::BPL, len: 2, cycles: 2, mode: AddressingMode::Relative }),
            0x00 => Some(OpCode { code: 0x00, mnemonic: OpCodeName::BRK, len: 1, cycles: 7, mode: AddressingMode::Implicit }),
            0x50 => Some(OpCode { code: 0x50, mnemonic: OpCodeName::BVC, len: 2, cycles: 2, mode: AddressingMode::Relative }),
            0x70 => Some(OpCode { code: 0x70, mnemonic: OpCodeName::BVS, len: 2, cycles: 2, mode: AddressingMode::Relative }),
            0x18 => Some(OpCode { code: 0x18, mnemonic: OpCodeName::CLC, len: 1, cycles: 2, mode: AddressingMode::Implicit }),
            0xD8 => Some(OpCode { code: 0xD8, mnemonic: OpCodeName::CLD, len: 1, cycles: 2, mode: AddressingMode::Implicit }),
            0x58 => Some(OpCode { code: 0x58, mnemonic: OpCodeName::CLI, len: 1, cycles: 2, mode: AddressingMode::Implicit }),
            0xB8 => Some(OpCode { code: 0xB8, mnemonic: OpCodeName::CLV, len: 1, cycles: 2, mode: AddressingMode::Implicit }),
            0xC9 => Some(OpCode { code: 0xC9, mnemonic: OpCodeName::CMP, len: 2, cycles: 2, mode: AddressingMode::Immediate }),
            0xC5 => Some(OpCode { code: 0xC5, mnemonic: OpCodeName::CMP, len: 2, cycles: 3, mode: AddressingMode::ZeroPage }),
            0xD5 => Some(OpCode { code: 0xD5, mnemonic: OpCodeName::CMP, len: 2, cycles: 4, mode: AddressingMode::ZeroPageX }),
            0xCD => Some(OpCode { code: 0xCD, mnemonic: OpCodeName::CMP, len: 3, cycles: 4, mode: AddressingMode::Absolute }),
            0xDD => Some(OpCode { code: 0xDD, mnemonic: OpCodeName::CMP, len: 3, cycles: 4, mode: AddressingMode::AbsoluteX }),
            0xD9 => Some(OpCode { code: 0xD9, mnemonic: OpCodeName::CMP, len: 3, cycles: 4, mode: AddressingMode::AbsoluteY }),
            0xC1 => Some(OpCode { code: 0xC1, mnemonic: OpCodeName::CMP, len: 2, cycles: 6, mode: AddressingMode::IndirectX }),
            0xD1 => Some(OpCode { code: 0xD1, mnemonic: OpCodeName::CMP, len: 2, cycles: 5, mode: AddressingMode::IndirectY }),
            0xE0 => Some(OpCode { code: 0xE0, mnemonic: OpCodeName::CPX, len: 2, cycles: 2, mode: AddressingMode::Immediate }),
            0xE4 => Some(OpCode { code: 0xE4, mnemonic: OpCodeName::CPX, len: 2, cycles: 3, mode: AddressingMode::ZeroPage }),
            0xEC => Some(OpCode { code: 0xEC, mnemonic: OpCodeName::CPX, len: 3, cycles: 4, mode: AddressingMode::Absolute }),
            0xC0 => Some(OpCode { code: 0xC0, mnemonic: OpCodeName::CPY, len: 2, cycles: 2, mode: AddressingMode::Immediate }),
            0xC4 => Some(OpCode { code: 0xC4, mnemonic: OpCodeName::CPY, len: 2, cycles: 3, mode: AddressingMode::ZeroPage }),
            0xCC => Some(OpCode { code: 0xCC, mnemonic: OpCodeName::CPY, len: 3, cycles: 4, mode: AddressingMode::Absolute }),
            0xC6 => Some(OpCode { code: 0xC6, mnemonic: OpCodeName::DEC, len: 2, cycles: 5, mode: AddressingMode::ZeroPage }),
            0xD6 => Some(OpCode { code: 0xD6, mnemonic: OpCodeName::DEC, len: 2, cycles: 6, mode: AddressingMode::ZeroPageX }),
            0xCE => Some(OpCode { code: 0xCE, mnemonic: OpCodeName::DEC, len: 3, cycles: 6, mode: AddressingMode::Absolute }),
            0xDE => Some(OpCode { code: 0xDE, mnemonic: OpCodeName::DEC, len: 3, cycles: 7, mode: AddressingMode::AbsoluteX }),
            0xCA => Some(OpCode { code: 0xCA, mnemonic: OpCodeName::DEX, len: 1, cycles: 2, mode: AddressingMode::Implicit }),
            0x88 => Some(OpCode { code: 0x88, mnemonic: OpCodeName::DEY, len: 1, cycles: 2, mode: AddressingMode::Implicit }),
            0x49 => Some(OpCode { code: 0x49, mnemonic: OpCodeName::EOR, len: 2, cycles: 2, mode: AddressingMode::Immediate }),
            0x45 => Some(OpCode { code: 0x45, mnemonic: OpCodeName::EOR, len: 2, cycles: 3, mode: AddressingMode::ZeroPage }),
            0x55 => Some(OpCode { code: 0x55, mnemonic: OpCodeName::EOR, len: 2, cycles: 4, mode: AddressingMode::ZeroPageX }),
            0x4D => Some(OpCode { code: 0x4D, mnemonic: OpCodeName::EOR, len: 3, cycles: 4, mode: AddressingMode::Absolute }),
            0x5D => Some(OpCode { code: 0x5D, mnemonic: OpCodeName::EOR, len: 3, cycles: 4, mode: AddressingMode::AbsoluteX }),
            0x59 => Some(OpCode { code: 0x59, mnemonic: OpCodeName::EOR, len: 3, cycles: 4, mode: AddressingMode::AbsoluteY }),
            0x41 => Some(OpCode { code: 0x41, mnemonic: OpCodeName::EOR, len: 2, cycles: 6, mode: AddressingMode::IndirectX }),
            0x51 => Some(OpCode { code: 0x51, mnemonic: OpCodeName::EOR, len: 2, cycles: 5, mode: AddressingMode::IndirectY }),
            0xE6 => Some(OpCode { code: 0xE6, mnemonic: OpCodeName::INC, len: 2, cycles: 5, mode: AddressingMode::ZeroPage }),
            0xF6 => Some(OpCode { code: 0xF6, mnemonic: OpCodeName::INC, len: 2, cycles: 6, mode: AddressingMode::ZeroPageX }),
            0xEE => Some(OpCode { code: 0xEE, mnemonic: OpCodeName::INC, len: 3, cycles: 6, mode: AddressingMode::Absolute }),
            0xFE => Some(OpCode { code: 0xFE, mnemonic: OpCodeName::INC, len: 3, cycles: 7, mode: AddressingMode::AbsoluteX }),
            0xE8 => Some(OpCode { code: 0xE8, mnemonic: OpCodeName::INX, len: 1, cycles: 2, mode: AddressingMode::Implicit }),
            0xC8 => Some(OpCode { code: 0xC8, mnemonic: OpCodeName::INY, len: 1, cycles: 2, mode: AddressingMode::Implicit }),
            0x4C => Some(OpCode { code: 0x4C, mnemonic: OpCodeName::JMP, len: 3, cycles: 3, mode: AddressingMode::Absolute }),
            0x6C => Some(OpCode { code: 0x6C, mnemonic: OpCodeName::JMP, len: 3, cycles: 5, mode: AddressingMode::Indirect }),
            0x20 => Some(OpCode { code: 0x20, mnemonic: OpCodeName::JSR, len: 3, cycles: 6, mode: AddressingMode::Absolute }),
            0xA9 => Some(OpCode { code: 0xA9, mnemonic: OpCodeName::LDA, len: 2, cycles: 2, mode: AddressingMode::Immediate }),
            0xA5 => Some(OpCode { code: 0xA5, mnemonic: OpCodeName::LDA, len: 2, cycles: 3, mode: AddressingMode::ZeroPage }),
            0xB5 => Some(OpCode { code: 0xB5, mnemonic: OpCodeName::LDA, len: 2, cycles: 4, mode: AddressingMode::ZeroPageX }),
            0xAD => Some(OpCode { code: 0xAD, mnemonic: OpCodeName::LDA, len: 3, cycles: 4, mode: AddressingMode::Absolute }),
            0xBD => Some(OpCode { code: 0xBD, mnemonic: OpCodeName::LDA, len: 3, cycles: 4, mode: AddressingMode::AbsoluteX }),
            0xB9 => Some(OpCode { code: 0xB9, mnemonic: OpCodeName::LDA, len: 3, cycles: 4, mode: AddressingMode::AbsoluteY }),
            0xA1 => Some(OpCode { code: 0xA1, mnemonic: OpCodeName::LDA, len: 2, cycles: 6, mode: AddressingMode::IndirectX }),
            0xB1 => Some(OpCode { code: 0xB1, mnemonic: OpCodeName::LDA, len: 2, cycles: 5, mode: AddressingMode::IndirectY }),
            0xA2 => Some(OpCode { code: 0xA2, mnemonic: OpCodeName::LDX, len: 2, cycles: 2, mode: AddressingMode::Immediate }),
            0xA6 => Some(OpCode { code: 0xA6, mnemonic: OpCodeName::LDX, len: 2, cycles: 3, mode: AddressingMode::ZeroPage }),
            0xB6 => Some(OpCode { code: 0xB6, mnemonic: OpCodeName::LDX, len: 2, cycles: 4, mode: AddressingMode::ZeroPageY }),
            0xAE => Some(OpCode { code: 0xAE, mnemonic: OpCodeName::LDX, len: 3, cycles: 4, mode: AddressingMode::Absolute }),
            0xBE => Some(OpCode { code: 0xBE, mnemonic: OpCodeName::LDX, len: 3, cycles: 4, mode: AddressingMode::AbsoluteY }),
            0xA0 => Some(OpCode { code: 0xA0, mnemonic: OpCodeName::LDY, len: 2, cycles: 2, mode: AddressingMode::Immediate }),
            0xA4 => Some(OpCode { code: 0xA4, mnemonic: OpCodeName::LDY, len: 2, cycles: 3, mode: AddressingMode::ZeroPage }),
            0xB4 => Some(OpCode { code: 0xB4, mnemonic: OpCodeName::LDY, len: 2, cycles: 4, mode: AddressingMode::ZeroPageX }),
            0xAC => Some(OpCode { code: 0xAC, mnemonic: OpCodeName::LDY, len: 3, cycles: 4, mode: AddressingMode::Absolute }),
            0xBC => Some(OpCode { code: 0xBC, mnemonic: OpCodeName::LDY, len: 3, cycles: 4, mode: AddressingMode::AbsoluteX }),
            0x4A => Some(OpCode { code: 0x4A, mnemonic: OpCodeName::LSR, len: 1, cycles: 2, mode: AddressingMode::Accumulator }),
            0x46 => Some(OpCode { code: 0x46, mnemonic: OpCodeName::LSR, len: 2, cycles: 5, mode: AddressingMode::ZeroPage }),
            0x56 => Some(OpCode { code: 0x56, mnemonic: OpCodeName::LSR, len: 2, cycles: 6, mode: AddressingMode::ZeroPageX }),
            0x4E => Some(OpCode { code: 0x4E, mnemonic: OpCodeName::LSR, len: 3, cycles: 6, mode: AddressingMode::Absolute }),
            0x5E => Some(OpCode { code: 0x5E, mnemonic: OpCodeName::LSR, len: 3, cycles: 7, mode: AddressingMode::AbsoluteX }),
            0xEA => Some(OpCode { code: 0xEA, mnemonic: OpCodeName::NOP, len: 1, cycles: 2, mode: AddressingMode::Implicit }),
            0x09 => Some(OpCode { code: 0x09, mnemonic: OpCodeName::ORA, len: 2, cycles: 2, mode: AddressingMode::Immediate }),
            0x05 => Some(OpCode { code: 0x05, mnemonic: OpCodeName::ORA, len: 2, cycles: 3, mode: AddressingMode::ZeroPage }),
            0x15 => Some(OpCode { code: 0x15, mnemonic: OpCodeName::ORA, len: 2, cycles: 4, mode: AddressingMode::ZeroPageX }),
            0x0D => Some(OpCode { code: 0x0D, mnemonic: OpCodeName::ORA, len: 3, cycles: 4, mode: AddressingMode::Absolute }),
            0x1D => Some(OpCode { code: 0x1D, mnemonic: OpCodeName::ORA, len: 3, cycles: 4, mode: AddressingMode::AbsoluteX }),
            0x19 => Some(OpCode { code: 0x19, mnemonic: OpCodeName::ORA, len: 3, cycles: 4, mode: AddressingMode::AbsoluteY }),
            0x01 => Some(OpCode { code: 0x01, mnemonic: OpCodeName::ORA, len: 2, cycles: 6, mode: AddressingMode::IndirectX }),
            0x11 => Some(OpCode { code: 0x11, mnemonic: OpCodeName::ORA, len: 2, cycles: 5, mode: AddressingMode::IndirectY }),
            0x48 => Some(OpCode { code: 0x48, mnemonic: OpCodeName::PHA, len: 1, cycles: 3, mode: AddressingMode::Implicit }),
            0x08 => Some(OpCode { code: 0x08, mnemonic: OpCodeName::PHP, len: 1, cycles: 3, mode: AddressingMode::Implicit }),
            0x68 => Some(OpCode { code: 0x68, mnemonic: OpCodeName::PLA, len: 1, cycles: 4, mode: AddressingMode::Implicit }),
            0x28 => Some(OpCode { code: 0x28, mnemonic: OpCodeName::PLP, len: 1, cycles: 4, mode: AddressingMode::Implicit }),
            0x2A => Some(OpCode { code: 0x2A, mnemonic: OpCodeName::ROL, len: 1, cycles: 2, mode: AddressingMode::Accumulator }),
            0x26 => Some(OpCode { code: 0x26, mnemonic: OpCodeName::ROL, len: 2, cycles: 5, mode: AddressingMode::ZeroPage }),
            0x36 => Some(OpCode { code: 0x36, mnemonic: OpCodeName::ROL, len: 2, cycles: 6, mode: AddressingMode::ZeroPageX }),
            0x2E => Some(OpCode { code: 0x2E, mnemonic: OpCodeName::ROL, len: 3, cycles: 6, mode: AddressingMode::Absolute }),
            0x3E => Some(OpCode { code: 0x3E, mnemonic: OpCodeName::ROL, len: 3, cycles: 7, mode: AddressingMode::AbsoluteX }),
            0x6A => Some(OpCode { code: 0x6A, mnemonic: OpCodeName::ROR, len: 1, cycles: 2, mode: AddressingMode::Accumulator }),
            0x66 => Some(OpCode { code: 0x66, mnemonic: OpCodeName::ROR, len: 2, cycles: 5, mode: AddressingMode::ZeroPage }),
            0x76 => Some(OpCode { code: 0x76, mnemonic: OpCodeName::ROR, len: 2, cycles: 6, mode: AddressingMode::ZeroPageX }),
            0x6E => Some(OpCode { code: 0x6E, mnemonic: OpCodeName::ROR, len: 3, cycles: 6, mode: AddressingMode::Absolute }),
            0x7E => Some(OpCode { code: 0x7E, mnemonic: OpCodeName::ROR, len: 3, cycles: 7, mode: AddressingMode::AbsoluteX }),
            0x40 => Some(OpCode { code: 0x40, mnemonic: OpCodeName::RTI, len: 1, cycles: 6, mode: AddressingMode::Implicit }),
            0x60 => Some(OpCode { code: 0x60, mnemonic: OpCodeName::RTS, len: 1, cycles: 6, mode: AddressingMode::Implicit }),
            0xE9 => Some(OpCode { code: 0xE9, mnemonic: OpCodeName::SBC, len: 2, cycles: 2, mode: AddressingMode::Immediate }),
            0xE5 => Some(OpCode { code: 0xE5, mnemonic: OpCodeName::SBC, len: 2, cycles: 3, mode: AddressingMode::ZeroPage }),
            0xF5 => Some(OpCode { code: 0xF5, mnemonic: OpCodeName::SBC, len: 2, cycles: 4, mode: AddressingMode::ZeroPageX }),
            0xED => Some(OpCode { code: 0xED, mnemonic: OpCodeName::SBC, len: 3, cycles: 4, mode: AddressingMode::Absolute }),
            0xFD => Some(OpCode { code: 0xFD, mnemonic: OpCodeName::SBC, len: 3, cycles: 4, mode: AddressingMode::AbsoluteX }),
            0xF9 => Some(OpCode { code: 0xF9, mnemonic: OpCodeName::SBC, len: 3, cycles: 4, mode: AddressingMode::AbsoluteY }),
            0xE1 => Some(OpCode { code: 0xE1, mnemonic: OpCodeName::SBC, len: 2, cycles: 6, mode: AddressingMode::IndirectX }),
            0xF1 => Some(OpCode { code: 0xF1, mnemonic: OpCodeName::SBC, len: 2, cycles: 5, mode: AddressingMode::IndirectY }),
            0x38 => Some(OpCode { code: 0x38, mnemonic: OpCodeName::SEC, len: 1, cycles: 2, mode: AddressingMode::Implicit }),
            0xF8 => Some(OpCode { code: 0xF8, mnemonic: OpCodeName::SED, len: 1, cycles: 2, mode: AddressingMode::Implicit }),
            0x78 => Some(OpCode { code: 0x78, mnemonic: OpCodeName::SEI, len: 1, cycles: 2, mode: AddressingMode::Implicit }),
            0x85 => Some(OpCode { code: 0x85, mnemonic: OpCodeName::STA, len: 2, cycles: 3, mode: AddressingMode::ZeroPage }),
            0x95 => Some(OpCode { code: 0x95, mnemonic: OpCodeName::STA, len: 2, cycles: 4, mode: AddressingMode::ZeroPageX }),
            0x8D => Some(OpCode { code: 0x8D, mnemonic: OpCodeName::STA, len: 3, cycles: 4, mode: AddressingMode::Absolute }),
            0x9D => Some(OpCode { code: 0x9D, mnemonic: OpCodeName::STA, len: 3, cycles: 5, mode: AddressingMode::AbsoluteX }),
            0x99 => Some(OpCode { code: 0x99, mnemonic: OpCodeName::STA, len: 3, cycles: 5, mode: AddressingMode::AbsoluteY }),
            0x81 => Some(OpCode { code: 0x81, mnemonic: OpCodeName::STA, len: 2, cycles: 6, mode: AddressingMode::IndirectX }),
            0x91 => Some(OpCode { code: 0x91, mnemonic: OpCodeName::STA, len: 2, cycles: 6, mode: AddressingMode::IndirectY }),
            0x86 => Some(OpCode { code: 0x86, mnemonic: OpCodeName::STX, len: 2, cycles: 3, mode: AddressingMode::ZeroPage }),
            0x96 => Some(OpCode { code: 0x96, mnemonic: OpCodeName::STX, len: 2, cycles: 4, mode: AddressingMode::ZeroPageY }),
            0x8E => Some(OpCode { code: 0x8E, mnemonic: OpCodeName::STX, len: 3, cycles: 4, mode: AddressingMode::Absolute }),
            0x84 => Some(OpCode { code: 0x84, mnemonic: OpCodeName::STY, len: 2, cycles: 3, mode: AddressingMode::ZeroPage }),
            0x94 => Some(OpCode { code: 0x94, mnemonic: OpCodeName::STY, len: 2, cycles: 4, mode: AddressingMode::ZeroPageX }),
            0x8C => Some(OpCode { code: 0x8C, mnemonic: OpCodeName::STY, len: 3, cycles: 4, mode: AddressingMode::Absolute }),
            0xAA => Some(OpCode { code: 0xAA, mnemonic: OpCodeName::TAX, len: 1, cycles: 2, mode: AddressingMode::Implicit }),
            0xA8 => Some(OpCode { code: 0xA8, mnemonic: OpCodeName::TAY, len: 1, cycles: 2, mode: AddressingMode::Implicit }),
            0xBA => Some(OpCode { code: 0xBA, mnemonic: OpCodeName::TSX, len: 1, cycles: 2, mode: AddressingMode::Implicit }),
            0x8A => Some(OpCode { code: 0x8A, mnemonic: OpCodeName::TXA, len: 1, cycles: 2, mode: AddressingMode::Implicit }),
            0x9A => Some(OpCode { code: 0x9A, mnemonic: OpCodeName::TXS, len: 1, cycles: 2, mode: AddressingMode::Implicit }),
            0x98 => Some(OpCode { code: 0x98, mnemonic: OpCodeName::TYA, len: 1, cycles: 2, mode: AddressingMode::Implicit }),
            _ => None,
        };
        proof {
            lemma_decode(code, entry);
        }
        entry
    }
}

/// No two combinations of instruction and mode share an opcode.
pub proof fn lemma_encoding_injective(
    mnemonic: OpCodeName,
    mode: AddressingMode,
    other_mnemonic: OpCodeName,
    other_mode: AddressingMode,
)
    requires
        encoding(mnemonic, mode) is Some,
        encoding(mnemonic, mode) == encoding(other_mnemonic, other_mode),
    ensures
        mnemonic == other_mnemonic,
        mode == other_mode,
{
}

/// An entry that encodes to `code`, or the absence of any, is what `code`
/// decodes to.
proof fn lemma_decode(code: u8, entry: Option<OpCode>)
    requires
        match entry {
            Some(op) => encoding(op.mnemonic, op.mode) == Some(code) && op == OpCode::of(
                op.mnemonic,
                op.mode,
            ),
            None => forall|mnemonic: OpCodeName, mode: AddressingMode|
                encoding(mnemonic, mode) != Some(code),
        },
    ensures
        entry == OpCode::decode(code),
{
    match entry {
        Some(op) => {
            assert(OpCode::is_defined(code));
            let (mnemonic, mode) = choose|mnemonic: OpCodeName, mode: AddressingMode|
                encoding(mnemonic, mode) == Some(code);
            lemma_encoding_injective(op.mnemonic, op.mode, mnemonic, mode);
        },
        None => {},
    }
}

/// What a byte decodes to is the entry of a combination that the
/// instruction set has, and that combination encodes to the byte.
pub proof fn lemma_decoded(code: u8)
    ensures
        OpCode::decode(code) matches Some(op) ==> {
            &&& encoding(op.mnemonic, op.mode) == Some(code)
            &&& op == OpCode::of(op.mnemonic, op.mode)
        },
{
}

/// A combination that the instruction set has is what its encoding decodes
/// to.
pub proof fn lemma_decode_encoding(mnemonic: OpCodeName, mode: AddressingMode)
    requires
        encoding(mnemonic, mode) is Some,
    ensures
        OpCode::decode(encoding(mnemonic, mode).unwrap()) == Some(OpCode::of(mnemonic, mode)),
{
    lemma_decode(encoding(mnemonic, mode).unwrap(), Some(OpCode::of(mnemonic, mode)));
}

} // verus!

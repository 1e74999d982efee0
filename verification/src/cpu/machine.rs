//! The machine that the CPU stands for: its registers and memory as plain
//! values, and what each operation makes of them.

use super::addressing_mode::AddressingMode;
use super::mem::{high_byte, low_byte, next_addr, word};
use super::opcodes::{OpCode, OpCodeName};
use super::processor_status::{
    flag_set, is_negative, with_flag, with_zero_negative, ProcessorStatus, BREAK_BIT,
    RESERVED_BIT,
};
use vstd::prelude::*;

verus! {

/// Number of bytes that a 16-bit address can reach.
pub const MEMORY_SIZE: usize = 0x1_0000;

/// The stack lives in page one: its next free byte is at `STACK` plus the
/// stack pointer.
pub const STACK: u16 = 0x0100;

/// The stack pointer after a reset.
pub const STACK_RESET: u8 = 0xFD;

/// The status register after a reset: interrupt-disable and the reserved bit.
pub const STATUS_RESET: u8 = 0b0010_0100;

/// Where the reset vector is stored, low byte first.
pub const RESET_VECTOR: u16 = 0xFFFC;

/// `value` reduced to a byte: its remainder modulo 256.
pub open spec fn wrap8(value: int) -> u8 {
    (value % 0x100) as u8
}

/// `value` reduced to an address: its remainder modulo 65,536.
pub open spec fn wrap16(value: int) -> u16 {
    (value % 0x1_0000) as u16
}

/// The number that `value` stands for when it is read as a signed byte.
pub open spec fn signed(value: u8) -> int {
    if value < 0x80 {
        value as int
    } else {
        value - 0x100
    }
}

/// Whether adding `operand` to `a` overflowed as a signed addition, judged
/// by the result's byte `result`: bit 7 of `(!(a ^ operand)) & (a ^ result)`.
pub open spec fn signed_overflow(a: u8, operand: u8, result: u8) -> bool {
    (!(a ^ operand) & (a ^ result)) & 0x80 != 0
}

/// Whether subtracting `operand` from `a` overflowed as a signed
/// subtraction, judged by the result's byte `result`: bit 7 of
/// `(a ^ operand) & (a ^ result)`.
pub open spec fn signed_underflow(a: u8, operand: u8, result: u8) -> bool {
    ((a ^ operand) & (a ^ result)) & 0x80 != 0
}

/// The programmer-visible state of the 6502.
#[verifier::ext_equal]
pub struct Machine {
    /// Accumulator.
    pub a: u8,
    /// Index register X.
    pub x: u8,
    /// Index register Y.
    pub y: u8,
    /// Stack pointer: the stack's next free byte is at `0x0100 + sp`.
    pub sp: u8,
    /// Processor status.
    pub p: u8,
    /// Program counter.
    pub pc: u16,
    /// Memory, one byte for each address.
    pub mem: Seq<u8>,
}

// Memory
impl Machine {
    /// A machine's memory has a byte for every 16-bit address.
    pub open spec fn wf(self) -> bool {
        self.mem.len() == MEMORY_SIZE
    }

    /// The byte at `addr`.
    pub open spec fn read(self, addr: u16) -> u8 {
        self.mem[addr as int]
    }

    /// The machine after `data` was stored at `addr`.
    pub open spec fn write(self, addr: u16, data: u8) -> Machine {
        Machine { mem: self.mem.update(addr as int, data), ..self }
    }

    /// The little-endian word at `addr`; the high byte comes from the next
    /// address, which after `0xFFFF` is `0`.
    pub open spec fn read16(self, addr: u16) -> u16 {
        word(self.read(addr), self.read(next_addr(addr)))
    }

    /// The machine after `data` was stored at `addr` in little-endian order.
    pub open spec fn write16(self, addr: u16, data: u16) -> Machine {
        self.write(addr, low_byte(data)).write(next_addr(addr), high_byte(data))
    }

    /// The word whose low byte is at `addr` and whose high byte is at the
    /// next address of page zero, which after `0xFF` is `0`.
    pub open spec fn read16_zero_page(self, addr: u8) -> u16 {
        word(self.read(addr as u16), self.read(wrap8(addr + 1) as u16))
    }

    /// The machine with `image` copied to `base` and the addresses after it.
    pub open spec fn with_image(self, base: u16, image: Seq<u8>) -> Machine
        recommends
            base + image.len() <= MEMORY_SIZE,
    {
        Machine {
            mem: Seq::new(
                self.mem.len(),
                |i: int|
                    if base <= i < base + image.len() {
                        image[i - base]
                    } else {
                        self.mem[i]
                    },
            ),
            ..self
        }
    }
}

// Status
impl Machine {
    /// Whether `flag` is set.
    pub open spec fn flag(self, flag: ProcessorStatus) -> bool {
        flag_set(self.p, flag)
    }

    /// The carry flag as a number: 1 where it is set, else 0.
    pub open spec fn carry(self) -> int {
        if self.flag(ProcessorStatus::Carry) {
            1
        } else {
            0
        }
    }

    /// The machine with `flag` set or cleared.
    pub open spec fn set_flag(self, flag: ProcessorStatus, on: bool) -> Machine {
        Machine { p: with_flag(self.p, flag, on), ..self }
    }

    /// The machine with the zero and the negative flag taken from `result`.
    pub open spec fn set_zero_negative(self, result: u8) -> Machine {
        Machine { p: with_zero_negative(self.p, result), ..self }
    }
}

// Operands
impl Machine {
    /// The effective address of an instruction in `mode` whose first operand
    /// byte is at the program counter.
    pub open spec fn operand_address(self, mode: AddressingMode) -> u16
        recommends
            mode.has_address(),
    {
        match mode {
            AddressingMode::Immediate => self.pc,
            AddressingMode::ZeroPage => self.read(self.pc) as u16,
            AddressingMode::ZeroPageX => wrap8(self.read(self.pc) + self.x) as u16,
            AddressingMode::ZeroPageY => wrap8(self.read(self.pc) + self.y) as u16,
            AddressingMode::Relative => wrap16(self.pc + signed(self.read(self.pc))),
            AddressingMode::Absolute => self.read16(self.pc),
            AddressingMode::AbsoluteX => wrap16(self.read16(self.pc) + self.x),
            AddressingMode::AbsoluteY => wrap16(self.read16(self.pc) + self.y),
            AddressingMode::Indirect => self.read16(self.read16(self.pc)),
            AddressingMode::IndirectX => self.read16_zero_page(
                wrap8(self.read(self.pc) + self.x),
            ),
            AddressingMode::IndirectY => wrap16(
                self.read16_zero_page(self.read(self.pc)) + self.y,
            ),
            AddressingMode::Implicit | AddressingMode::Accumulator => self.pc,
        }
    }

    /// The byte that an instruction in `mode` works on.
    pub open spec fn operand(self, mode: AddressingMode) -> u8
        recommends
            mode.has_address(),
    {
        self.read(self.operand_address(mode))
    }

    /// The byte that a shift, a rotate, an increment or a decrement in `mode`
    /// changes: the accumulator, or the byte at the effective address.
    pub open spec fn target(self, mode: AddressingMode) -> u8
        recommends
            mode != AddressingMode::Implicit,
    {
        if mode == AddressingMode::Accumulator {
            self.a
        } else {
            self.operand(mode)
        }
    }

    /// The machine with `value` put where `target` reads from.
    pub open spec fn set_target(self, mode: AddressingMode, value: u8) -> Machine
        recommends
            mode != AddressingMode::Implicit,
    {
        if mode == AddressingMode::Accumulator {
            Machine { a: value, ..self }
        } else {
            self.write(self.operand_address(mode), value)
        }
    }
}

// Stack
impl Machine {
    /// The address that the stack pointer `sp` stands for.
    pub open spec fn stack_address(sp: u8) -> u16 {
        (STACK + sp) as u16
    }

    /// The machine after `data` was pushed: stored where the stack pointer
    /// points, which then moves down by one, from `0x00` to `0xFF`.
    pub open spec fn push(self, data: u8) -> Machine {
        Machine { sp: wrap8(self.sp - 1), ..self.write(Self::stack_address(self.sp), data) }
    }

    /// The byte that a pull gives: the one above the stack pointer.
    pub open spec fn top(self) -> u8 {
        self.read(Self::stack_address(wrap8(self.sp + 1)))
    }

    /// The machine after a byte was pulled: the stack pointer moves up by
    /// one, from `0xFF` to `0x00`.
    pub open spec fn pop(self) -> Machine {
        Machine { sp: wrap8(self.sp + 1), ..self }
    }
}

// Instructions
impl Machine {
    /// The machine after `operand` and the carry were added to the
    /// accumulator.
    pub open spec fn add_with_carry(self, operand: u8) -> Machine {
        let sum = self.a + operand + self.carry();
        let result = wrap8(sum);
        Machine { a: result, ..self }.set_flag(
            ProcessorStatus::Overflow,
            signed_overflow(self.a, operand, result),
        ).set_flag(ProcessorStatus::Carry, sum > 0xFF).set_zero_negative(result)
    }

    /// The machine after `operand` and the borrow, which is the carry
    /// inverted, were subtracted from the accumulator. The carry is set
    /// where nothing had to be borrowed.
    pub open spec fn subtract_with_borrow(self, operand: u8) -> Machine {
        let difference = self.a - operand - (1 - self.carry());
        let result = wrap8(difference);
        Machine { a: result, ..self }.set_flag(
            ProcessorStatus::Overflow,
            signed_underflow(self.a, operand, result),
        ).set_flag(ProcessorStatus::Carry, difference >= 0).set_zero_negative(result)
    }

    /// The machine with `value` in the accumulator and zero and negative
    /// taken from it.
    pub open spec fn load_a(self, value: u8) -> Machine {
        Machine { a: value, ..self }.set_zero_negative(value)
    }

    /// The machine with `value` in X and zero and negative taken from it.
    pub open spec fn load_x(self, value: u8) -> Machine {
        Machine { x: value, ..self }.set_zero_negative(value)
    }

    /// The machine with `value` in Y and zero and negative taken from it.
    pub open spec fn load_y(self, value: u8) -> Machine {
        Machine { y: value, ..self }.set_zero_negative(value)
    }

    /// The machine with `value` where a shift or the like in `mode` puts
    /// its result, zero and negative taken from `value`, and the carry set
    /// to `carry`.
    pub open spec fn store_target(self, mode: AddressingMode, value: u8, carry: bool) -> Machine {
        self.set_target(mode, value).set_zero_negative(value).set_flag(
            ProcessorStatus::Carry,
            carry,
        )
    }

    /// The machine after `register` was compared with the operand: carry
    /// where `register` is at least the operand, zero where they are equal,
    /// negative from bit 7 of their difference modulo 256.
    pub open spec fn compare(self, register: u8, mode: AddressingMode) -> Machine {
        let operand = self.operand(mode);
        self.set_flag(ProcessorStatus::Carry, register >= operand).set_flag(
            ProcessorStatus::Zero,
            register == operand,
        ).set_flag(ProcessorStatus::Negative, is_negative(wrap8(register - operand)))
    }

    /// ADC: adds the operand and the carry to the accumulator.
    pub open spec fn adc(self, mode: AddressingMode) -> Machine {
        self.add_with_carry(self.operand(mode))
    }

    /// AND: the accumulator and the operand, bit by bit.
    pub open spec fn and(self, mode: AddressingMode) -> Machine {
        self.load_a(self.a & self.operand(mode))
    }

    /// ASL: shifts the target left by one bit; bit 7 goes to the carry.
    pub open spec fn asl(self, mode: AddressingMode) -> Machine {
        let old = self.target(mode);
        self.store_target(mode, wrap8(2 * old), is_negative(old))
    }

    /// A branch: the program counter goes to the effective address where
    /// `condition` holds.
    pub open spec fn branch(self, condition: bool, mode: AddressingMode) -> Machine {
        if condition {
            Machine { pc: self.operand_address(mode), ..self }
        } else {
            self
        }
    }

    /// BIT: zero where the accumulator and the operand share no bit;
    /// overflow and negative from bits 6 and 7 of the operand.
    pub open spec fn bit(self, mode: AddressingMode) -> Machine {
        let operand = self.operand(mode);
        self.set_flag(ProcessorStatus::Zero, self.a & operand == 0).set_flag(
            ProcessorStatus::Overflow,
            operand & 0x40 != 0,
        ).set_flag(ProcessorStatus::Negative, is_negative(operand))
    }

    /// CLC, CLD, CLI, CLV: clears `flag`.
    pub open spec fn clear(self, flag: ProcessorStatus) -> Machine {
        self.set_flag(flag, false)
    }

    /// CMP: compares the accumulator with the operand.
    pub open spec fn cmp(self, mode: AddressingMode) -> Machine {
        self.compare(self.a, mode)
    }

    /// CPX: compares X with the operand.
    pub open spec fn cpx(self, mode: AddressingMode) -> Machine {
        self.compare(self.x, mode)
    }

    /// CPY: compares Y with the operand.
    pub open spec fn cpy(self, mode: AddressingMode) -> Machine {
        self.compare(self.y, mode)
    }

    /// DEC: takes one from the byte in memory.
    pub open spec fn dec(self, mode: AddressingMode) -> Machine {
        let result = wrap8(self.operand(mode) - 1);
        self.write(self.operand_address(mode), result).set_zero_negative(result)
    }

    /// DEX: takes one from X.
    pub open spec fn dex(self) -> Machine {
        self.load_x(wrap8(self.x - 1))
    }

    /// DEY: takes one from Y.
    pub open spec fn dey(self) -> Machine {
        self.load_y(wrap8(self.y - 1))
    }

    /// EOR: the accumulator or else the operand, bit by bit.
    pub open spec fn eor(self, mode: AddressingMode) -> Machine {
        self.load_a(self.a ^ self.operand(mode))
    }

    /// INC: adds one to the byte in memory.
    pub open spec fn inc(self, mode: AddressingMode) -> Machine {
        let result = wrap8(self.operand(mode) + 1);
        self.write(self.operand_address(mode), result).set_zero_negative(result)
    }

    /// INX: adds one to X.
    pub open spec fn inx(self) -> Machine {
        self.load_x(wrap8(self.x + 1))
    }

    /// INY: adds one to Y.
    pub open spec fn iny(self) -> Machine {
        self.load_y(wrap8(self.y + 1))
    }

    /// JMP: the program counter goes to the effective address.
    pub open spec fn jmp(self, mode: AddressingMode) -> Machine {
        Machine { pc: self.operand_address(mode), ..self }
    }

    /// JSR: pushes the address of the instruction's last byte, high byte
    /// first, and goes to the effective address.
    pub open spec fn jsr(self, mode: AddressingMode) -> Machine {
        let last = next_addr(self.pc);
        Machine {
            pc: self.operand_address(mode),
            ..self.push(high_byte(last)).push(low_byte(last))
        }
    }

    /// LDA: loads the operand into the accumulator.
    pub open spec fn lda(self, mode: AddressingMode) -> Machine {
        self.load_a(self.operand(mode))
    }

    /// LDX: loads the operand into X.
    pub open spec fn ldx(self, mode: AddressingMode) -> Machine {
        self.load_x(self.operand(mode))
    }

    /// LDY: loads the operand into Y.
    pub open spec fn ldy(self, mode: AddressingMode) -> Machine {
        self.load_y(self.operand(mode))
    }

    /// LSR: shifts the target right by one bit; bit 0 goes to the carry.
    pub open spec fn lsr(self, mode: AddressingMode) -> Machine {
        let old = self.target(mode);
        self.store_target(mode, old / 2, old % 2 == 1)
    }

    /// ORA: the accumulator or the operand, bit by bit.
    pub open spec fn ora(self, mode: AddressingMode) -> Machine {
        self.load_a(self.a | self.operand(mode))
    }

    /// PHA: pushes the accumulator.
    pub open spec fn pha(self) -> Machine {
        self.push(self.a)
    }

    /// PHP: pushes the status register. The reserved bit is pushed as 1,
    /// whatever it is in the register, which stays as it is.
    pub open spec fn php(self) -> Machine {
        self.push(self.p | RESERVED_BIT)
    }

    /// PLA: pulls the accumulator.
    pub open spec fn pla(self) -> Machine {
        self.pop().load_a(self.top())
    }

    /// PLP: pulls the status register, all eight bits of it.
    pub open spec fn plp(self) -> Machine {
        Machine { p: self.top(), ..self.pop() }
    }

    /// ROL: rotates the target left through the carry.
    pub open spec fn rol(self, mode: AddressingMode) -> Machine {
        let old = self.target(mode);
        self.store_target(mode, wrap8(2 * old + self.carry()), is_negative(old))
    }

    /// ROR: rotates the target right through the carry.
    pub open spec fn ror(self, mode: AddressingMode) -> Machine {
        let old = self.target(mode);
        self.store_target(mode, wrap8(old / 2 + 0x80 * self.carry()), old % 2 == 1)
    }

    /// The status that RTI leaves when it pulls `pulled` into the status
    /// `status`: `pulled`, but for the break bit, which stays as in `status`.
    pub open spec fn restored_status(status: u8, pulled: u8) -> u8 {
        (pulled & !BREAK_BIT) | (status & BREAK_BIT)
    }

    /// RTI: pulls the status register, but for the break bit, and then the
    /// program counter, low byte first.
    pub open spec fn rti(self) -> Machine {
        let status = Self::restored_status(self.p, self.top());
        let lo = self.pop().top();
        let hi = self.pop().pop().top();
        Machine { p: status, pc: word(lo, hi), ..self.pop().pop().pop() }
    }

    /// RTS: pulls an address, low byte first, and goes to the address after
    /// it.
    pub open spec fn rts(self) -> Machine {
        let lo = self.top();
        let hi = self.pop().top();
        Machine { pc: next_addr(word(lo, hi)), ..self.pop().pop() }
    }

    /// SBC: subtracts the operand and the borrow from the accumulator.
    pub open spec fn sbc(self, mode: AddressingMode) -> Machine {
        self.subtract_with_borrow(self.operand(mode))
    }

    /// SEC: sets the carry flag.
    pub open spec fn sec(self) -> Machine {
        self.set_flag(ProcessorStatus::Carry, true)
    }

    /// SED: sets the decimal flag.
    pub open spec fn sed(self) -> Machine {
        self.set_flag(ProcessorStatus::Decimal, true)
    }

    /// SEI: sets the interrupt-disable flag.
    pub open spec fn sei(self) -> Machine {
        self.set_flag(ProcessorStatus::InterruptDisable, true)
    }

    /// STA: stores the accumulator.
    pub open spec fn sta(self, mode: AddressingMode) -> Machine {
        self.write(self.operand_address(mode), self.a)
    }

    /// STX: stores X.
    pub open spec fn stx(self, mode: AddressingMode) -> Machine {
        self.write(self.operand_address(mode), self.x)
    }

    /// STY: stores Y.
    pub open spec fn sty(self, mode: AddressingMode) -> Machine {
        self.write(self.operand_address(mode), self.y)
    }

    /// TAX: copies the accumulator to X.
    pub open spec fn tax(self) -> Machine {
        self.load_x(self.a)
    }

    /// TAY: copies the accumulator to Y.
    pub open spec fn tay(self) -> Machine {
        self.load_y(self.a)
    }

    /// TSX: copies the stack pointer to X.
    pub open spec fn tsx(self) -> Machine {
        self.load_x(self.sp)
    }

    /// TXA: copies X to the accumulator.
    pub open spec fn txa(self) -> Machine {
        self.load_a(self.x)
    }

    /// TXS: copies X to the stack pointer; no flag changes.
    pub open spec fn txs(self) -> Machine {
        Machine { sp: self.x, ..self }
    }

    /// TYA: copies Y to the accumulator.
    pub open spec fn tya(self) -> Machine {
        self.load_a(self.y)
    }
}

/// What a step finds at the program counter.
#[derive(Debug, Copy, Clone, PartialEq, Eq, Structural)]
pub enum Outcome {
    /// An instruction, which was executed.
    Running,
    /// BRK, which ends the program. The machine stays as it is.
    Halted,
    /// A byte that is no opcode, given here. The machine stays as it is.
    IllegalOpcode(u8),
}

// Driver
impl Machine {
    /// The machine when it is switched on: registers and memory zero, but for
    /// the stack pointer and the status register, which are as after a reset.
    pub open spec fn power_on() -> Machine {
        Machine {
            a: 0,
            x: 0,
            y: 0,
            sp: STACK_RESET,
            p: STATUS_RESET,
            pc: 0,
            mem: Seq::new(MEMORY_SIZE as nat, |i: int| 0u8),
        }
    }

    /// The machine after a reset: registers cleared, stack pointer and status
    /// at their reset values, the program counter taken from the reset
    /// vector.
    pub open spec fn reset(self) -> Machine {
        Machine {
            a: 0,
            x: 0,
            y: 0,
            sp: STACK_RESET,
            p: STATUS_RESET,
            pc: self.read16(RESET_VECTOR),
            ..self
        }
    }

    /// The machine with the program `image` at `base` and the reset vector
    /// pointing there. The vector is written last.
    pub open spec fn load_at(self, base: u16, image: Seq<u8>) -> Machine
        recommends
            base + image.len() <= MEMORY_SIZE,
    {
        self.with_image(base, image).write16(RESET_VECTOR, base)
    }

    /// The machine with the program counter moved on by `distance`.
    pub open spec fn moved(self, distance: int) -> Machine {
        Machine { pc: wrap16(self.pc + distance), ..self }
    }

    /// The machine after the routine of `mnemonic` ran in `mode`, with the
    /// program counter at the first operand byte. BRK and NOP have no
    /// routine.
    pub open spec fn perform(self, mnemonic: OpCodeName, mode: AddressingMode) -> Machine {
        match mnemonic {
            OpCodeName::ADC => self.adc(mode),
            OpCodeName::AND => self.and(mode),
            OpCodeName::ASL => self.asl(mode),
            OpCodeName::BCC => self.branch(!self.flag(ProcessorStatus::Carry), mode),
            OpCodeName::BCS => self.branch(self.flag(ProcessorStatus::Carry), mode),
            OpCodeName::BEQ => self.branch(self.flag(ProcessorStatus::Zero), mode),
            OpCodeName::BIT => self.bit(mode),
            OpCodeName::BMI => self.branch(self.flag(ProcessorStatus::Negative), mode),
            OpCodeName::BNE => self.branch(!self.flag(ProcessorStatus::Zero), mode),
            OpCodeName::BPL => self.branch(!self.flag(ProcessorStatus::Negative), mode),
            OpCodeName::BRK => self,
            OpCodeName::BVC => self.branch(!self.flag(ProcessorStatus::Overflow), mode),
            OpCodeName::BVS => self.branch(self.flag(ProcessorStatus::Overflow), mode),
            OpCodeName::CLC => self.clear(ProcessorStatus::Carry),
            OpCodeName::CLD => self.clear(ProcessorStatus::Decimal),
            OpCodeName::CLI => self.clear(ProcessorStatus::InterruptDisable),
            OpCodeName::CLV => self.clear(ProcessorStatus::Overflow),
            OpCodeName::CMP => self.cmp(mode),
            OpCodeName::CPX => self.cpx(mode),
            OpCodeName::CPY => self.cpy(mode),
            OpCodeName::DEC => self.dec(mode),
            OpCodeName::DEX => self.dex(),
            OpCodeName::DEY => self.dey(),
            OpCodeName::EOR => self.eor(mode),
            OpCodeName::INC => self.inc(mode),
            OpCodeName::INX => self.inx(),
            OpCodeName::INY => self.iny(),
            OpCodeName::JMP => self.jmp(mode),
            OpCodeName::JSR => self.jsr(mode),
            OpCodeName::LDA => self.lda(mode),
            OpCodeName::LDX => self.ldx(mode),
            OpCodeName::LDY => self.ldy(mode),
            OpCodeName::LSR => self.lsr(mode),
            OpCodeName::NOP => self,
            OpCodeName::ORA => self.ora(mode),
            OpCodeName::PHA => self.pha(),
            OpCodeName::PHP => self.php(),
            OpCodeName::PLA => self.pla(),
            OpCodeName::PLP => self.plp(),
            OpCodeName::ROL => self.rol(mode),
            OpCodeName::ROR => self.ror(mode),
            OpCodeName::RTI => self.rti(),
            OpCodeName::RTS => self.rts(),
            OpCodeName::SBC => self.sbc(mode),
            OpCodeName::SEC => self.sec(),
            OpCodeName::SED => self.sed(),
            OpCodeName::SEI => self.sei(),
            OpCodeName::STA => self.sta(mode),
            OpCodeName::STX => self.stx(mode),
            OpCodeName::STY => self.sty(mode),
            OpCodeName::TAX => self.tax(),
            OpCodeName::TAY => self.tay(),
            OpCodeName::TSX => self.tsx(),
            OpCodeName::TXA => self.txa(),
            OpCodeName::TXS => self.txs(),
            OpCodeName::TYA => self.tya(),
        }
    }

    /// The machine after the instruction `op`, whose opcode is at the
    /// program counter. The program counter moves past the opcode, the
    /// routine runs, and the program counter moves past the operand bytes;
    /// but after JMP and JSR it stays where the routine put it, and BRK
    /// leaves it at the BRK.
    pub open spec fn execute(self, op: OpCode) -> Machine {
        match op.mnemonic {
            OpCodeName::BRK => self,
            OpCodeName::JMP | OpCodeName::JSR => self.moved(1).perform(op.mnemonic, op.mode),
            _ => self.moved(1).perform(op.mnemonic, op.mode).moved(op.len - 1),
        }
    }

    /// The table's entry for the byte at the program counter.
    pub open spec fn decoded(self) -> Option<OpCode> {
        OpCode::decode(self.read(self.pc))
    }

    /// What a step finds at the program counter.
    pub open spec fn outcome(self) -> Outcome {
        match self.decoded() {
            Some(op) => if op.mnemonic == OpCodeName::BRK {
                Outcome::Halted
            } else {
                Outcome::Running
            },
            None => Outcome::IllegalOpcode(self.read(self.pc)),
        }
    }

    /// Whether the program counter is at a BRK.
    pub open spec fn halted(self) -> bool {
        self.outcome() == Outcome::Halted
    }

    /// The machine after one step: after the instruction at the program
    /// counter, or as it is where there is none.
    pub open spec fn step(self) -> Machine {
        match self.decoded() {
            Some(op) => self.execute(op),
            None => self,
        }
    }

    /// The machine after `steps` steps.
    pub open spec fn after(self, steps: nat) -> Machine
        decreases steps,
    {
        if steps == 0 {
            self
        } else {
            self.step().after((steps - 1) as nat)
        }
    }

    /// Whether the machine comes to a BRK, after some number of steps and
    /// without meeting an illegal opcode on the way.
    pub open spec fn halts(self) -> bool {
        exists|steps: nat| self.after(steps).halted()
    }

    /// The machine at the first BRK that it comes to, where it comes to one.
    pub open spec fn run(self) -> Machine
        recommends
            self.halts(),
    {
        self.after(choose|steps: nat| self.after(steps).halted())
    }
}

/// Switching on, loading and resetting give a machine with its whole
/// memory, and a step keeps it so.
pub proof fn lemma_wf(machine: Machine, base: u16, image: Seq<u8>)
    requires
        machine.wf(),
    ensures
        Machine::power_on().wf(),
        machine.load_at(base, image).wf(),
        machine.reset().wf(),
        machine.step().wf(),
{
}

/// A machine keeps its whole memory over any number of steps.
pub proof fn lemma_after_wf(machine: Machine, steps: nat)
    requires
        machine.wf(),
    ensures
        machine.after(steps).wf(),
    decreases steps,
{
    if steps > 0 {
        lemma_wf(machine, 0, Seq::empty());
        lemma_after_wf(machine.step(), (steps - 1) as nat);
    }
}

/// A machine that a step leaves as it is stays as it is.
pub proof fn lemma_after_fixed(machine: Machine, steps: nat)
    requires
        machine.step() == machine,
    ensures
        machine.after(steps) == machine,
    decreases steps,
{
    if steps > 0 {
        lemma_after_fixed(machine, (steps - 1) as nat);
    }
}

/// Steps add up.
pub proof fn lemma_after_add(machine: Machine, first: nat, then: nat)
    ensures
        machine.after(first + then) == machine.after(first).after(then),
    decreases first,
{
    if first > 0 {
        lemma_after_add(machine.step(), (first - 1) as nat, then);
    }
}

/// A machine that is at a BRK after `steps` steps halts, and that BRK is
/// where its run ends: once there, it stays.
pub proof fn lemma_run(machine: Machine, steps: nat)
    requires
        machine.after(steps).halted(),
    ensures
        machine.halts(),
        machine.run() == machine.after(steps),
{
    let chosen = choose|n: nat| machine.after(n).halted();
    if chosen <= steps {
        lemma_after_add(machine, chosen, (steps - chosen) as nat);
        lemma_after_fixed(machine.after(chosen), (steps - chosen) as nat);
    } else {
        lemma_after_add(machine, steps, (chosen - steps) as nat);
        lemma_after_fixed(machine.after(steps), (chosen - steps) as nat);
    }
}

} // verus!

//! The instructions of the 6502, one routine for each mnemonic. Each routine
//! expects the program counter at the instruction's first operand byte and
//! leaves it there, unless the instruction is a jump, a call, a return or a
//! taken branch.

use super::addressing_mode::AddressingMode;
use super::machine::{signed_overflow, signed_underflow, wrap8, Machine, STACK};
use super::mem::{make_word, split_word, Mem};
use super::processor_status::{
    flag_set, lemma_bit7, ProcessorStatus, BREAK_BIT, CARRY_BIT, NEGATIVE_BIT, OVERFLOW_BIT,
    RESERVED_BIT,
};
use super::CPU;
use vstd::prelude::*;

verus! {

/// The carry bit of a status byte is the carry flag as a number.
pub proof fn lemma_carry_bit(status: u8)
    ensures
        status & CARRY_BIT == if flag_set(status, ProcessorStatus::Carry) {
            1u8
        } else {
            0u8
        },
{
    assert(status & 1 == 0 || status & 1 == 1) by (bit_vector);
}

/// Shifts by one bit and the lowest bit of a byte, as arithmetic. `carry` is
/// a carry flag as a number.
pub proof fn lemma_shifts(value: u8, carry: u8)
    by (bit_vector)
    requires
        carry <= 1,
    ensures
        value << 1 == ((2 * value) % 0x100) as u8,
        value >> 1 == value / 2,
        (value << 1) | carry == ((2 * value + carry) % 0x100) as u8,
        (value >> 1) | (carry << 7) == ((value / 2 + 0x80 * carry) % 0x100) as u8,
        (value & 1 == 1) == (value % 2 == 1),
        (value & 0x40 == 0x40) == (value & 0x40 != 0),
{
}

/// Subtracting with borrow is adding the operand's complement with carry:
/// both leave the same accumulator and the same flags.
pub proof fn lemma_subtract_is_add_complement(machine: Machine, operand: u8)
    ensures
        machine.subtract_with_borrow(operand) == machine.add_with_carry(operand ^ 0xFF),
{
    let complement = operand ^ 0xFF;
    assert(operand ^ 0xFF == (0xFF - operand) as u8) by (bit_vector);
    let result = wrap8(machine.a - operand - (1 - machine.carry()));
    assert(result == wrap8(machine.a + complement + machine.carry()));
    let a = machine.a;
    assert(((a ^ operand) & (a ^ result)) & 0x80 == (!(a ^ (operand ^ 0xFF)) & (a ^ result))
        & 0x80) by (bit_vector);
    assert(signed_underflow(a, operand, result) == signed_overflow(a, complement, result));
}

impl CPU {
    /// The byte that an instruction in `mode` works on.
    fn operand(&self, mode: AddressingMode) -> (value: u8)
        requires
            mode.has_address(),
        ensures
            value == self@.operand(mode),
    {
        let addr = self.get_operand_address(mode);
        self.mem_read(addr)
    }

    /// The byte that a shift or a rotate in `mode` changes.
    fn target(&self, mode: AddressingMode) -> (value: u8)
        requires
            mode != AddressingMode::Implicit,
        ensures
            value == self@.target(mode),
    {
        if matches!(mode, AddressingMode::Accumulator) {
            self.register_a
        } else {
            self.operand(mode)
        }
    }

    /// Puts `value` where a shift or a rotate in `mode` found its byte, takes
    /// zero and negative from it, and sets the carry to `carry`.
    fn store_target(&mut self, mode: AddressingMode, value: u8, carry: bool)
        requires
            mode != AddressingMode::Implicit,
        ensures
            final(self)@ == old(self)@.store_target(mode, value, carry),
    {
        if matches!(mode, AddressingMode::Accumulator) {
            self.register_a = value;
        } else {
            let addr = self.get_operand_address(mode);
            self.mem_write(addr, value);
        }
        self.update_zero_and_negative_flags(value);
        self.update_carry_flag(carry);
    }

    /// Pushes `data`: stores it where the stack pointer points, and moves
    /// the stack pointer down.
    fn push(&mut self, data: u8)
        ensures
            final(self)@ == old(self)@.push(data),
    {
        self.mem_write(STACK + self.stack_pointer as u16, data);
        self.stack_pointer = self.stack_pointer.wrapping_sub(1);
    }

    /// Pulls a byte: moves the stack pointer up, and reads where it points.
    fn pull(&mut self) -> (data: u8)
        ensures
            data == old(self)@.top(),
            final(self)@ == old(self)@.pop(),
    {
        self.stack_pointer = self.stack_pointer.wrapping_add(1);
        self.mem_read(STACK + self.stack_pointer as u16)
    }

    /// Adds `value` and the carry to the accumulator. The carry flag takes
    /// the carry out of bit 7, the overflow flag says whether the sum of the
    /// two as signed bytes left the signed range.
    fn add_with_carry(&mut self, value: u8)
        ensures
            final(self)@ == old(self)@.add_with_carry(value),
    {
        let old_val = self.register_a;
        let carry = self.status & CARRY_BIT;
        proof {
            lemma_carry_bit(self.status);
        }
        self.register_a = old_val.wrapping_add(value).wrapping_add(carry);
        self.update_overflow_flag(((!(old_val ^ value) & (old_val ^ self.register_a)) & 0x80) != 0);
        self.update_carry_flag(old_val as u16 + value as u16 + carry as u16 > 0xFF);
        self.update_zero_and_negative_flags(self.register_a);
    }

    /// Compares `register` with the operand, as a subtraction that is not
    /// stored.
    fn compare(&mut self, register: u8, mode: AddressingMode)
        requires
            mode.has_address(),
        ensures
            final(self)@ == old(self)@.compare(register, mode),
    {
        let value = self.operand(mode);
        let result = register.wrapping_sub(value);
        proof {
            lemma_bit7(result);
        }
        self.update_carry_flag(register >= value);
        self.update_zero_flag(result == 0);
        self.update_negative_flag(result & NEGATIVE_BIT == NEGATIVE_BIT);
    }

    /// ADC - Add with Carry
    ///
    /// Adds the operand and the carry to the accumulator. Unsigned overflow
    /// sets the carry flag, signed overflow the overflow flag:
    ///
    /// `0x50 + 0x50 = 0xa0`: 80 + 80 = -96, two positives gave a negative.
    ///
    /// `0xd0 + 0x90 = 0x60`: -48 + -112 = 96, two negatives gave a positive,
    /// and the carry is set.
    pub fn adc(&mut self, mode: AddressingMode)
        requires
            mode.has_address(),
        ensures
            final(self)@ == old(self)@.adc(mode),
    {
        let value = self.operand(mode);
        self.add_with_carry(value);
    }

    /// AND - Logical AND
    pub fn and(&mut self, mode: AddressingMode)
        requires
            mode.has_address(),
        ensures
            final(self)@ == old(self)@.and(mode),
    {
        let value = self.operand(mode);
        self.register_a &= value;
        self.update_zero_and_negative_flags(self.register_a);
    }

    /// ASL - Arithmetic Shift Left
    ///
    /// Shifts the accumulator or a byte of memory left by one bit: bit 0
    /// becomes 0, and bit 7 goes to the carry flag.
    pub fn asl(&mut self, mode: AddressingMode)
        requires
            mode != AddressingMode::Implicit,
        ensures
            final(self)@ == old(self)@.asl(mode),
    {
        let old_value = self.target(mode);
        proof {
            lemma_shifts(old_value, 0);
            lemma_bit7(old_value);
        }
        self.store_target(mode, old_value << 1, old_value & NEGATIVE_BIT == NEGATIVE_BIT);
    }

    /// The branches:
    /// * BCC - Branch if Carry Clear
    /// * BCS - Branch if Carry Set
    /// * BEQ - Branch if Equal
    /// * BMI - Branch if Minus
    /// * BNE - Branch if Not Equal
    /// * BPL - Branch if Positive
    /// * BVC - Branch if Overflow Clear
    /// * BVS - Branch if Overflow Set
    ///
    /// Where `condition` holds, the program counter takes the effective
    /// address.
    pub fn branch(&mut self, condition: bool, mode: AddressingMode)
        requires
            mode.has_address(),
        ensures
            final(self)@ == old(self)@.branch(condition, mode),
    {
        if condition {
            self.program_counter = self.get_operand_address(mode);
        }
    }

    /// BIT - Bit Test
    ///
    /// Sets the zero flag where the accumulator and the operand have no bit
    /// in common, and copies bits 6 and 7 of the operand to the overflow and
    /// the negative flag.
    pub fn bit(&mut self, mode: AddressingMode)
        requires
            mode.has_address(),
        ensures
            final(self)@ == old(self)@.bit(mode),
    {
        let value = self.operand(mode);
        proof {
            lemma_shifts(value, 0);
            lemma_bit7(value);
        }
        self.update_zero_flag(self.register_a & value == 0);
        self.update_overflow_flag(value & OVERFLOW_BIT == OVERFLOW_BIT);
        self.update_negative_flag(value & NEGATIVE_BIT == NEGATIVE_BIT);
    }

    /// The instructions that clear a flag:
    /// * CLC - Clear Carry Flag
    /// * CLD - Clear Decimal Mode
    /// * CLI - Clear Interrupt Disable
    /// * CLV - Clear Overflow Flag
    pub fn clear(&mut self, status: ProcessorStatus)
        ensures
            final(self)@ == old(self)@.clear(status),
    {
        self.update_flag(status, false);
    }

    /// CMP - Compare
    pub fn cmp(&mut self, mode: AddressingMode)
        requires
            mode.has_address(),
        ensures
            final(self)@ == old(self)@.cmp(mode),
    {
        self.compare(self.register_a, mode);
    }

    /// CPX - Compare X Register
    pub fn cpx(&mut self, mode: AddressingMode)
        requires
            mode.has_address(),
        ensures
            final(self)@ == old(self)@.cpx(mode),
    {
        self.compare(self.register_x, mode);
    }

    /// CPY - Compare Y Register
    pub fn cpy(&mut self, mode: AddressingMode)
        requires
            mode.has_address(),
        ensures
            final(self)@ == old(self)@.cpy(mode),
    {
        self.compare(self.register_y, mode);
    }

    /// DEC - Decrement Memory
    pub fn dec(&mut self, mode: AddressingMode)
        requires
            mode.has_address(),
        ensures
            final(self)@ == old(self)@.dec(mode),
    {
        let addr = self.get_operand_address(mode);
        let result = self.mem_read(addr).wrapping_sub(1);
        self.mem_write(addr, result);
        self.update_zero_and_negative_flags(result);
    }

    /// DEX - Decrement X Register
    pub fn dex(&mut self)
        ensures
            final(self)@ == old(self)@.dex(),
    {
        self.register_x = self.register_x.wrapping_sub(1);
        self.update_zero_and_negative_flags(self.register_x);
    }

    /// DEY - Decrement Y Register
    pub fn dey(&mut self)
        ensures
            final(self)@ == old(self)@.dey(),
    {
        self.register_y = self.register_y.wrapping_sub(1);
        self.update_zero_and_negative_flags(self.register_y);
    }

    /// EOR - Exclusive OR
    pub fn eor(&mut self, mode: AddressingMode)
        requires
            mode.has_address(),
        ensures
            final(self)@ == old(self)@.eor(mode),
    {
        let value = self.operand(mode);
        self.register_a ^= value;
        self.update_zero_and_negative_flags(self.register_a);
    }

    /// INC - Increment Memory
    pub fn inc(&mut self, mode: AddressingMode)
        requires
            mode.has_address(),
        ensures
            final(self)@ == old(self)@.inc(mode),
    {
        let addr = self.get_operand_address(mode);
        let result = self.mem_read(addr).wrapping_add(1);
        self.mem_write(addr, result);
        self.update_zero_and_negative_flags(result);
    }

    /// INX - Increment X Register
    pub fn inx(&mut self)
        ensures
            final(self)@ == old(self)@.inx(),
    {
        self.register_x = self.register_x.wrapping_add(1);
        self.update_zero_and_negative_flags(self.register_x);
    }

    /// INY - Increment Y Register
    pub fn iny(&mut self)
        ensures
            final(self)@ == old(self)@.iny(),
    {
        self.register_y = self.register_y.wrapping_add(1);
        self.update_zero_and_negative_flags(self.register_y);
    }

    /// JMP - Jump
    pub fn jmp(&mut self, mode: AddressingMode)
        requires
            mode.has_address(),
        ensures
            final(self)@ == old(self)@.jmp(mode),
    {
        self.program_counter = self.get_operand_address(mode);
    }

    /// JSR - Jump to Subroutine
    ///
    /// Pushes the address of the instruction's last byte, which is one less
    /// than the address to return to, and goes to the target. The two bytes
    /// are pushed one by one, so that the stack pointer wraps inside page
    /// one.
    pub fn jsr(&mut self, mode: AddressingMode)
        requires
            mode.has_address(),
        ensures
            final(self)@ == old(self)@.jsr(mode),
    {
        let addr = self.get_operand_address(mode);
        let (lsb_byte, msb_byte) = split_word(self.program_counter.wrapping_add(1));
        self.push(msb_byte);
        self.push(lsb_byte);
        self.program_counter = addr;
    }

    /// LDA - Load Accumulator
    pub fn lda(&mut self, mode: AddressingMode)
        requires
            mode.has_address(),
        ensures
            final(self)@ == old(self)@.lda(mode),
    {
        self.register_a = self.operand(mode);
        self.update_zero_and_negative_flags(self.register_a);
    }

    /// LDX - Load X Register
    pub fn ldx(&mut self, mode: AddressingMode)
        requires
            mode.has_address(),
        ensures
            final(self)@ == old(self)@.ldx(mode),
    {
        self.register_x = self.operand(mode);
        self.update_zero_and_negative_flags(self.register_x);
    }

    /// LDY - Load Y Register
    pub fn ldy(&mut self, mode: AddressingMode)
        requires
            mode.has_address(),
        ensures
            final(self)@ == old(self)@.ldy(mode),
    {
        self.register_y = self.operand(mode);
        self.update_zero_and_negative_flags(self.register_y);
    }

    /// LSR - Logical Shift Right
    ///
    /// Shifts the accumulator or a byte of memory right by one bit: bit 7
    /// becomes 0, so that the negative flag is cleared, and bit 0 goes to
    /// the carry flag.
    pub fn lsr(&mut self, mode: AddressingMode)
        requires
            mode != AddressingMode::Implicit,
        ensures
            final(self)@ == old(self)@.lsr(mode),
    {
        let old_value = self.target(mode);
        proof {
            lemma_shifts(old_value, 0);
        }
        self.store_target(mode, old_value >> 1, old_value & CARRY_BIT == CARRY_BIT);
    }

    /// ORA - Logical Inclusive OR
    pub fn ora(&mut self, mode: AddressingMode)
        requires
            mode.has_address(),
        ensures
            final(self)@ == old(self)@.ora(mode),
    {
        let value = self.operand(mode);
        self.register_a |= value;
        self.update_zero_and_negative_flags(self.register_a);
    }

    /// PHA - Push Accumulator
    pub fn pha(&mut self)
        ensures
            final(self)@ == old(self)@.pha(),
    {
        self.push(self.register_a);
    }

    /// PHP - Push Processor Status
    ///
    /// Pushes a copy of the status register in which the reserved bit is
    /// set. The register itself does not change.
    pub fn php(&mut self)
        ensures
            final(self)@ == old(self)@.php(),
    {
        self.push(self.status | RESERVED_BIT);
    }

    /// PLA - Pull Accumulator
    pub fn pla(&mut self)
        ensures
            final(self)@ == old(self)@.pla(),
    {
        self.register_a = self.pull();
        self.update_zero_and_negative_flags(self.register_a);
    }

    /// PLP - Pull Processor Status
    pub fn plp(&mut self)
        ensures
            final(self)@ == old(self)@.plp(),
    {
        self.status = self.pull();
    }

    /// ROL - Rotate Left
    ///
    /// Moves the bits of the accumulator or of a byte of memory left by one:
    /// the carry flag fills bit 0, and the old bit 7 becomes the carry flag.
    pub fn rol(&mut self, mode: AddressingMode)
        requires
            mode != AddressingMode::Implicit,
        ensures
            final(self)@ == old(self)@.rol(mode),
    {
        let old_value = self.target(mode);
        let carry = self.status & CARRY_BIT;
        proof {
            lemma_carry_bit(self.status);
            lemma_shifts(old_value, carry);
            lemma_bit7(old_value);
        }
        self.store_target(mode, old_value << 1 | carry, old_value & NEGATIVE_BIT == NEGATIVE_BIT);
    }

    /// ROR - Rotate Right
    ///
    /// Moves the bits of the accumulator or of a byte of memory right by
    /// one: the carry flag fills bit 7, and the old bit 0 becomes the carry
    /// flag.
    pub fn ror(&mut self, mode: AddressingMode)
        requires
            mode != AddressingMode::Implicit,
        ensures
            final(self)@ == old(self)@.ror(mode),
    {
        let old_value = self.target(mode);
        let carry = self.status & CARRY_BIT;
        proof {
            lemma_carry_bit(self.status);
            lemma_shifts(old_value, carry);
        }
        self.store_target(mode, (old_value >> 1) | (carry << 7), old_value & CARRY_BIT == CARRY_BIT);
    }

    /// RTI - Return from Interrupt
    ///
    /// Pulls the flags, then the program counter. The break bit is not
    /// among the flags: it stays as it is.
    pub fn rti(&mut self)
        ensures
            final(self)@ == old(self)@.rti(),
    {
        let pulled = self.pull();
        self.status = (pulled & !BREAK_BIT) | (self.status & BREAK_BIT);
        let lo = self.pull();
        let hi = self.pull();
        self.program_counter = make_word(lo, hi);
    }

    /// RTS - Return from Subroutine
    ///
    /// Pulls the address that JSR pushed and goes to the one after it.
    pub fn rts(&mut self)
        ensures
            final(self)@ == old(self)@.rts(),
    {
        let lo = self.pull();
        let hi = self.pull();
        self.program_counter = make_word(lo, hi).wrapping_add(1);
    }

    /// SBC - Subtract with Carry
    ///
    /// Subtracts the operand and the inverted carry from the accumulator.
    /// A borrow clears the carry, so that numbers of several bytes can be
    /// subtracted byte by byte. The work is ADC's, on the operand's one's
    /// complement.
    pub fn sbc(&mut self, mode: AddressingMode)
        requires
            mode.has_address(),
        ensures
            final(self)@ == old(self)@.sbc(mode),
    {
        let value = self.operand(mode);
        proof {
            lemma_subtract_is_add_complement(self@, value);
        }
        self.add_with_carry(value ^ 0xFF);
    }

    /// SEC - Set Carry Flag
    pub fn sec(&mut self)
        ensures
            final(self)@ == old(self)@.sec(),
    {
        self.update_carry_flag(true);
    }

    /// SED - Set Decimal Flag
    pub fn sed(&mut self)
        ensures
            final(self)@ == old(self)@.sed(),
    {
        self.update_decimal_flag(true);
    }

    /// SEI - Set Interrupt Disable
    pub fn sei(&mut self)
        ensures
            final(self)@ == old(self)@.sei(),
    {
        self.update_interrupt_flag(true);
    }

    /// STA - Store Accumulator
    pub fn sta(&mut self, mode: AddressingMode)
        requires
            mode.has_address(),
        ensures
            final(self)@ == old(self)@.sta(mode),
    {
        let addr = self.get_operand_address(mode);
        self.mem_write(addr, self.register_a);
    }

    /// STX - Store X Register
    pub fn stx(&mut self, mode: AddressingMode)
        requires
            mode.has_address(),
        ensures
            final(self)@ == old(self)@.stx(mode),
    {
        let addr = self.get_operand_address(mode);
        self.mem_write(addr, self.register_x);
    }

    /// STY - Store Y Register
    pub fn sty(&mut self, mode: AddressingMode)
        requires
            mode.has_address(),
        ensures
            final(self)@ == old(self)@.sty(mode),
    {
        let addr = self.get_operand_address(mode);
        self.mem_write(addr, self.register_y);
    }

    /// TAX - Transfer Accumulator to X
    pub fn tax(&mut self)
        ensures
            final(self)@ == old(self)@.tax(),
    {
        self.register_x = self.register_a;
        self.update_zero_and_negative_flags(self.register_x);
    }

    /// TAY - Transfer Accumulator to Y
    pub fn tay(&mut self)
        ensures
            final(self)@ == old(self)@.tay(),
    {
        self.register_y = self.register_a;
        self.update_zero_and_negative_flags(self.register_y);
    }

    /// TSX - Transfer Stack Pointer to X
    pub fn tsx(&mut self)
        ensures
            final(self)@ == old(self)@.tsx(),
    {
        self.register_x = self.stack_pointer;
        self.update_zero_and_negative_flags(self.register_x);
    }

    /// TXA - Transfer X to Accumulator
    pub fn txa(&mut self)
        ensures
            final(self)@ == old(self)@.txa(),
    {
        self.register_a = self.register_x;
        self.update_zero_and_negative_flags(self.register_a);
    }

    /// TXS - Transfer X to Stack Pointer
    pub fn txs(&mut self)
        ensures
            final(self)@ == old(self)@.txs(),
    {
        self.stack_pointer = self.register_x;
    }

    /// TYA - Transfer Y to Accumulator
    pub fn tya(&mut self)
        ensures
            final(self)@ == old(self)@.tya(),
    {
        self.register_a = self.register_y;
        self.update_zero_and_negative_flags(self.register_a);
    }
}

} // verus!

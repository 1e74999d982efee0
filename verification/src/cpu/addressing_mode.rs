//! The addressing modes: the ways in which an instruction names the memory
//! it works on.

use super::machine::signed;
use super::mem::{make_word, Mem};
use super::CPU;
use vstd::pervasive::unreached;
use vstd::prelude::*;

verus! {

/// How an instruction finds its operand.
#[derive(Debug, Copy, Clone, PartialEq, Eq, Structural)]
pub enum AddressingMode {
    /// No operand: the instruction says all there is to say.
    Implicit,
    /// The instruction works on the accumulator.
    Accumulator,
    /// The operand is the byte after the opcode.
    Immediate,
    /// The byte after the opcode is an address in page zero.
    ZeroPage,
    /// As `ZeroPage`, with X added; the sum stays in page zero.
    ZeroPageX,
    /// As `ZeroPage`, with Y added; the sum stays in page zero.
    ZeroPageY,
    /// The byte after the opcode is a signed offset from its own address.
    Relative,
    /// The two bytes after the opcode are the address.
    Absolute,
    /// As `Absolute`, with X added.
    AbsoluteX,
    /// As `Absolute`, with Y added.
    AbsoluteY,
    /// The two bytes after the opcode say where the address is stored.
    Indirect,
    /// Indexed indirect: the byte after the opcode plus X is an address in
    /// page zero, at which the address is stored.
    IndirectX,
    /// Indirect indexed: the byte after the opcode is an address in page
    /// zero; Y is added to the address stored there.
    IndirectY,
}

impl AddressingMode {
    /// Whether the mode names a place in memory. `Implicit` and
    /// `Accumulator` do not.
    pub open spec fn has_address(self) -> bool {
        self != AddressingMode::Implicit && self != AddressingMode::Accumulator
    }

    /// The length in bytes of an instruction in this mode: the opcode and
    /// its operand bytes.
    pub open spec fn instruction_len(self) -> u8 {
        match self {
            AddressingMode::Implicit | AddressingMode::Accumulator => 1,
            AddressingMode::Absolute
            | AddressingMode::AbsoluteX
            | AddressingMode::AbsoluteY
            | AddressingMode::Indirect => 3,
            _ => 2,
        }
    }
}

impl CPU {
    /// The word whose low byte is at `addr` and whose high byte is at the
    /// next address of page zero.
    fn read_zero_page_u16(&self, addr: u8) -> (data: u16)
        ensures
            data == self@.read16_zero_page(addr),
    {
        let lo = self.mem_read(addr as u16);
        let hi = self.mem_read(addr.wrapping_add(1) as u16);
        make_word(lo, hi)
    }

    /// The effective address of an instruction in `mode` whose first operand
    /// byte is at the program counter.
    pub fn get_operand_address(&self, mode: AddressingMode) -> (addr: u16)
        requires
            mode.has_address(),
        ensures
            addr == self@.operand_address(mode),
    {
        match mode {
            AddressingMode::Implicit | AddressingMode::Accumulator => {
                // These two name no place in memory.
                unreached()
            },
            AddressingMode::Immediate => self.program_counter,
            AddressingMode::ZeroPage => self.mem_read(self.program_counter) as u16,
            AddressingMode::ZeroPageX => {
                let pos = self.mem_read(self.program_counter);
                pos.wrapping_add(self.register_x) as u16
            },
            AddressingMode::ZeroPageY => {
                let pos = self.mem_read(self.program_counter);
                pos.wrapping_add(self.register_y) as u16
            },
            AddressingMode::Relative => {
                // A branch is relative to where it stands: the offset is a
                // signed byte, so that a loop can go back.
                let offset = self.mem_read(self.program_counter);
                assert(offset as i8 as int == signed(offset)) by {
                    assert(offset as i8 as int == if offset < 0x80 {
                        offset as int
                    } else {
                        offset - 0x100
                    }) by (bit_vector);
                }
                self.program_counter.wrapping_add_signed(offset as i8 as i16)
            },
            AddressingMode::Absolute => self.mem_read_u16(self.program_counter),
            AddressingMode::AbsoluteX => {
                let pos = self.mem_read_u16(self.program_counter);
                pos.wrapping_add(self.register_x as u16)
            },
            AddressingMode::AbsoluteY => {
                let pos = self.mem_read_u16(self.program_counter);
                pos.wrapping_add(self.register_y as u16)
            },
            AddressingMode::Indirect => {
                let ptr = self.mem_read_u16(self.program_counter);
                self.mem_read_u16(ptr)
            },
            AddressingMode::IndirectX => {
                let base = self.mem_read(self.program_counter);
                // Not a plain 16-bit read: the pointer stays in page zero.
                self.read_zero_page_u16(base.wrapping_add(self.register_x))
            },
            AddressingMode::IndirectY => {
                let base = self.mem_read(self.program_counter);
                let pos = self.read_zero_page_u16(base);
                pos.wrapping_add(self.register_y as u16)
            },
        }
    }
}

} // verus!

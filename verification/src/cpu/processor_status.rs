//! The processor status register and its flags.
//!
//! ```text
//! 7  bit  0
//! ---- ----
//! NV1B DIZC
//! |||| ||||
//! |||| |||+- Carry
//! |||| ||+-- Zero
//! |||| |+--- Interrupt Disable
//! |||| +---- Decimal
//! |||+------ Break (no effect on the CPU)
//! ||+------- Reserved (no effect on the CPU; set at reset, pushed as 1)
//! |+-------- Overflow
//! +--------- Negative
//! ```

use super::CPU;
use vstd::prelude::*;

verus! {

pub const CARRY_BIT: u8 = 0b0000_0001;

pub const ZERO_BIT: u8 = 0b0000_0010;

pub const INTERRUPT_DISABLE_BIT: u8 = 0b0000_0100;

pub const DECIMAL_BIT: u8 = 0b0000_1000;

pub const BREAK_BIT: u8 = 0b0001_0000;

pub const RESERVED_BIT: u8 = 0b0010_0000;

pub const OVERFLOW_BIT: u8 = 0b0100_0000;

pub const NEGATIVE_BIT: u8 = 0b1000_0000;

/// The six condition flags of the status register. The break bit and the
/// reserved bit are no flags: only pushes and pulls of the whole register
/// move them.
#[derive(Debug, Clone, Copy, PartialEq, Eq, Structural)]
pub enum ProcessorStatus {
    Carry,
    Zero,
    InterruptDisable,
    Decimal,
    Overflow,
    Negative,
}

impl ProcessorStatus {
    /// The bit of the status register that holds this flag.
    pub open spec fn mask(self) -> u8 {
        match self {
            ProcessorStatus::Carry => CARRY_BIT,
            ProcessorStatus::Zero => ZERO_BIT,
            ProcessorStatus::InterruptDisable => INTERRUPT_DISABLE_BIT,
            ProcessorStatus::Decimal => DECIMAL_BIT,
            ProcessorStatus::Overflow => OVERFLOW_BIT,
            ProcessorStatus::Negative => NEGATIVE_BIT,
        }
    }

    /// The bit of the status register that holds this flag.
    pub fn bit(self) -> (mask: u8)
        ensures
            mask == self.mask(),
    {
        match self {
            ProcessorStatus::Carry => CARRY_BIT,
            ProcessorStatus::Zero => ZERO_BIT,
            ProcessorStatus::InterruptDisable => INTERRUPT_DISABLE_BIT,
            ProcessorStatus::Decimal => DECIMAL_BIT,
            ProcessorStatus::Overflow => OVERFLOW_BIT,
            ProcessorStatus::Negative => NEGATIVE_BIT,
        }
    }
}

/// Whether `flag` is set in the status byte `status`.
pub open spec fn flag_set(status: u8, flag: ProcessorStatus) -> bool {
    status & flag.mask() == flag.mask()
}

/// The status byte `status` with `flag` set if `on` holds and cleared if it
/// does not.
pub open spec fn with_flag(status: u8, flag: ProcessorStatus, on: bool) -> u8 {
    if on {
        status | flag.mask()
    } else {
        status & !flag.mask()
    }
}

/// Whether bit 7 of `value` is set, that is, whether `value` read as a
/// signed byte is negative.
pub open spec fn is_negative(value: u8) -> bool {
    value >= 0x80
}

/// The status byte `status` with the zero and the negative flag taken from
/// `result`: zero is set where `result` is 0, negative where its bit 7 is.
pub open spec fn with_zero_negative(status: u8, result: u8) -> u8 {
    with_flag(
        with_flag(status, ProcessorStatus::Zero, result == 0),
        ProcessorStatus::Negative,
        is_negative(result),
    )
}

/// Bit 7 of a byte, tested by mask or by magnitude.
pub proof fn lemma_bit7(value: u8)
    ensures
        (value & NEGATIVE_BIT == NEGATIVE_BIT) == is_negative(value),
        (value & NEGATIVE_BIT != 0) == is_negative(value),
{
    assert((value & 0x80 == 0x80) == (value >= 0x80) && (value & 0x80 != 0) == (value >= 0x80))
        by (bit_vector);
}

/// Setting or clearing the single bit `m` of a byte, read back through the
/// single bit `k`.
proof fn lemma_single_bits(status: u8, m: u8, k: u8)
    by (bit_vector)
    requires
        m == 0x01 || m == 0x02 || m == 0x04 || m == 0x08 || m == 0x40 || m == 0x80,
        k == 0x01 || k == 0x02 || k == 0x04 || k == 0x08 || k == 0x10 || k == 0x20 || k == 0x40
            || k == 0x80,
    ensures
        ((status | m) & k == k) == (k == m || status & k == k),
        ((status & !m) & k == k) == (k != m && status & k == k),
        k != m ==> (status | m) & k == status & k,
        k != m ==> (status & !m) & k == status & k,
{
}

/// An update of one flag is read back from that flag, and leaves every other
/// flag, the break bit and the reserved bit as they were.
pub proof fn lemma_with_flag(status: u8, flag: ProcessorStatus, on: bool)
    ensures
        flag_set(with_flag(status, flag, on), flag) == on,
        forall|other: ProcessorStatus|
            other != flag ==> #[trigger] flag_set(with_flag(status, flag, on), other) == flag_set(
                status,
                other,
            ),
        with_flag(status, flag, on) & BREAK_BIT == status & BREAK_BIT,
        with_flag(status, flag, on) & RESERVED_BIT == status & RESERVED_BIT,
{
    let m = flag.mask();
    lemma_single_bits(status, m, m);
    lemma_single_bits(status, m, BREAK_BIT);
    lemma_single_bits(status, m, RESERVED_BIT);
    assert forall|other: ProcessorStatus| other != flag implies #[trigger] flag_set(
        with_flag(status, flag, on),
        other,
    ) == flag_set(status, other) by {
        lemma_single_bits(status, m, other.mask());
    }
}

/// Zero and negative, once taken from a result, say whether the result is 0
/// and whether its bit 7 is set; every other flag, the break bit and the
/// reserved bit stay as they were.
pub proof fn lemma_with_zero_negative(status: u8, result: u8)
    ensures
        flag_set(with_zero_negative(status, result), ProcessorStatus::Zero) == (result == 0),
        flag_set(with_zero_negative(status, result), ProcessorStatus::Negative) == is_negative(
            result,
        ),
        forall|other: ProcessorStatus|
            other != ProcessorStatus::Zero && other != ProcessorStatus::Negative
                ==> #[trigger] flag_set(with_zero_negative(status, result), other) == flag_set(
                status,
                other,
            ),
        with_zero_negative(status, result) & BREAK_BIT == status & BREAK_BIT,
        with_zero_negative(status, result) & RESERVED_BIT == status & RESERVED_BIT,
{
    let zero = with_flag(status, ProcessorStatus::Zero, result == 0);
    lemma_with_flag(status, ProcessorStatus::Zero, result == 0);
    lemma_with_flag(zero, ProcessorStatus::Negative, is_negative(result));
}

impl CPU {
    /// Whether `flag` is set in the status register.
    pub fn is_status_flag_set(&self, flag: ProcessorStatus) -> (set: bool)
        ensures
            set == flag_set(self.status, flag),
    {
        let mask = flag.bit();
        self.status & mask == mask
    }

    /// Sets `flag` if `condition` holds and clears it if it does not; the
    /// rest of the CPU stays as it was.
    pub fn update_flag(&mut self, flag: ProcessorStatus, condition: bool)
        ensures
            final(self)@ == old(self)@.set_flag(flag, condition),
    {
        let mask = flag.bit();
        if condition {
            self.status |= mask;
        } else {
            self.status &= !mask;
        }
    }

    /// Sets or clears the carry flag.
    pub fn update_carry_flag(&mut self, condition: bool)
        ensures
            final(self)@ == old(self)@.set_flag(ProcessorStatus::Carry, condition),
    {
        self.update_flag(ProcessorStatus::Carry, condition);
    }

    /// Sets or clears the zero flag.
    pub fn update_zero_flag(&mut self, condition: bool)
        ensures
            final(self)@ == old(self)@.set_flag(ProcessorStatus::Zero, condition),
    {
        self.update_flag(ProcessorStatus::Zero, condition);
    }

    /// Sets or clears the interrupt-disable flag.
    pub fn update_interrupt_flag(&mut self, condition: bool)
        ensures
            final(self)@ == old(self)@.set_flag(ProcessorStatus::InterruptDisable, condition),
    {
        self.update_flag(ProcessorStatus::InterruptDisable, condition);
    }

    /// Sets or clears the decimal flag.
    pub fn update_decimal_flag(&mut self, condition: bool)
        ensures
            final(self)@ == old(self)@.set_flag(ProcessorStatus::Decimal, condition),
    {
        self.update_flag(ProcessorStatus::Decimal, condition);
    }

    /// Sets or clears the overflow flag.
    pub fn update_overflow_flag(&mut self, condition: bool)
        ensures
            final(self)@ == old(self)@.set_flag(ProcessorStatus::Overflow, condition),
    {
        self.update_flag(ProcessorStatus::Overflow, condition);
    }

    /// Sets or clears the negative flag.
    pub fn update_negative_flag(&mut self, condition: bool)
        ensures
            final(self)@ == old(self)@.set_flag(ProcessorStatus::Negative, condition),
    {
        self.update_flag(ProcessorStatus::Negative, condition);
    }

    /// Takes the zero and the negative flag from `result`.
    pub fn update_zero_and_negative_flags(&mut self, result: u8)
        ensures
            final(self)@ == old(self)@.set_zero_negative(result),
    {
        proof {
            lemma_bit7(result);
        }
        self.update_zero_flag(result == 0);
        self.update_negative_flag(result & NEGATIVE_BIT == NEGATIVE_BIT);
    }
}

} // verus!

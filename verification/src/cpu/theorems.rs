//! What holds of the machine whatever its state: how pushes and pulls, the
//! arithmetic, the loads, the branches and the calls behave.

use super::addressing_mode::AddressingMode;
use super::instructions::lemma_subtract_is_add_complement;
use super::machine::{signed, signed_overflow, wrap16, wrap8, Machine};
use super::mem::{high_byte, low_byte, next_addr, word};
use super::opcodes::{lemma_decoded, OpCodeName};
use super::processor_status::{
    is_negative, lemma_with_flag, lemma_with_zero_negative, with_flag, with_zero_negative,
    ProcessorStatus, BREAK_BIT, RESERVED_BIT,
};
use vstd::prelude::*;

verus! {

/// PHA then PLA leaves the accumulator and the stack pointer as they were,
/// and with them X, Y and the program counter.
pub proof fn push_pull_accumulator(machine: Machine)
    requires
        machine.wf(),
    ensures
        machine.pha().pla().a == machine.a,
        machine.pha().pla().sp == machine.sp,
        machine.pha().pla().x == machine.x,
        machine.pha().pla().y == machine.y,
        machine.pha().pla().pc == machine.pc,
{
}

/// After PHP then PLP the reserved bit of the status register is set,
/// whatever it was before: the status is the old one with that bit set. The
/// stack pointer and the registers are as they were.
pub proof fn push_pull_sets_reserved_bit(machine: Machine)
    requires
        machine.wf(),
    ensures
        machine.php().plp().p & RESERVED_BIT == RESERVED_BIT,
        machine.php().plp().p == machine.p | RESERVED_BIT,
        machine.php().plp().sp == machine.sp,
        machine.php().plp().a == machine.a,
        machine.php().plp().x == machine.x,
        machine.php().plp().y == machine.y,
        machine.php().plp().pc == machine.pc,
{
    let status = machine.p;
    assert((status | 0x20) & 0x20 == 0x20) by (bit_vector);
}

/// PHP then PLP leaves a status register whose reserved bit is set, as it
/// is from a reset on, exactly as it was, all eight bits of it.
pub proof fn push_pull_status(machine: Machine)
    requires
        machine.wf(),
        machine.p & RESERVED_BIT != 0,
    ensures
        machine.php().plp().p == machine.p,
        machine.php().plp().sp == machine.sp,
{
    push_pull_sets_reserved_bit(machine);
    let status = machine.p;
    assert(status & 0x20 != 0 ==> status | 0x20 == status) by (bit_vector);
}

/// ADC leaves in the accumulator the sum of accumulator, operand and carry
/// modulo 256. The carry flag says whether that sum is over 255. The
/// overflow flag says whether accumulator and operand had the same sign and
/// the result has the other. Zero and negative are taken from the result.
pub proof fn add_with_carry_sum(machine: Machine, operand: u8)
    ensures
        ({
            let sum = machine.a + operand + machine.carry();
            let after = machine.add_with_carry(operand);
            &&& after.a == wrap8(sum)
            &&& after.flag(ProcessorStatus::Carry) == (sum > 255)
            &&& after.flag(ProcessorStatus::Overflow) == (is_negative(machine.a) == is_negative(
                operand,
            ) && is_negative(machine.a) != is_negative(after.a))
            &&& after.flag(ProcessorStatus::Zero) == (after.a == 0)
            &&& after.flag(ProcessorStatus::Negative) == is_negative(after.a)
        }),
{
    let a = machine.a;
    let sum = a + operand + machine.carry();
    let result = wrap8(sum);
    let overflow = signed_overflow(a, operand, result);
    assert(((!(a ^ operand) & (a ^ result)) & 0x80 != 0) == ((a >= 0x80) == (operand >= 0x80) && (a
        >= 0x80) != (result >= 0x80))) by (bit_vector);
    let overflowed = with_flag(machine.p, ProcessorStatus::Overflow, overflow);
    let carried = with_flag(overflowed, ProcessorStatus::Carry, sum > 0xFF);
    lemma_with_flag(machine.p, ProcessorStatus::Overflow, overflow);
    lemma_with_flag(overflowed, ProcessorStatus::Carry, sum > 0xFF);
    lemma_with_zero_negative(carried, result);
}

/// The overflow flag after ADC says whether the sum of accumulator and
/// operand, both read as signed bytes, and the carry is outside the range of
/// a signed byte.
pub proof fn add_with_carry_signed_range(machine: Machine, operand: u8)
    ensures
        machine.add_with_carry(operand).flag(ProcessorStatus::Overflow) == !(-128 <= signed(
            machine.a,
        ) + signed(operand) + machine.carry() <= 127),
{
    add_with_carry_sum(machine, operand);
}

/// SBC on an operand is ADC on the operand's one's complement: accumulator,
/// carry, overflow, zero and negative come out the same, and so does the
/// rest of the machine.
pub proof fn subtract_is_add_complement(machine: Machine, mode: AddressingMode)
    ensures
        machine.sbc(mode) == machine.add_with_carry(machine.operand(mode) ^ 0xFF),
        machine.subtract_with_borrow(machine.operand(mode)) == machine.add_with_carry(
            machine.operand(mode) ^ 0xFF,
        ),
{
    lemma_subtract_is_add_complement(machine, machine.operand(mode));
}

/// SBC leaves in the accumulator the accumulator less the operand, less one
/// more where the carry was clear, modulo 256. The carry flag says that
/// nothing had to be borrowed.
pub proof fn subtract_with_borrow_difference(machine: Machine, operand: u8)
    ensures
        ({
            let difference = machine.a - operand - (1 - machine.carry());
            let after = machine.subtract_with_borrow(operand);
            &&& after.a == wrap8(difference)
            &&& after.flag(ProcessorStatus::Carry) == (difference >= 0)
            &&& after.flag(ProcessorStatus::Zero) == (after.a == 0)
            &&& after.flag(ProcessorStatus::Negative) == is_negative(after.a)
        }),
{
    lemma_subtract_is_add_complement(machine, operand);
    assert(operand ^ 0xFF == (0xFF - operand) as u8) by (bit_vector);
    add_with_carry_sum(machine, operand ^ 0xFF);
}

/// After a load of `value` into the accumulator, X or Y, the register holds
/// `value`, the zero flag says whether `value` is 0, and the negative flag
/// says whether bit 7 of `value` is set.
pub proof fn load_flags(machine: Machine, value: u8)
    ensures
        machine.load_a(value).a == value,
        machine.load_a(value).flag(ProcessorStatus::Zero) == (value == 0),
        machine.load_a(value).flag(ProcessorStatus::Negative) == is_negative(value),
        machine.load_x(value).x == value,
        machine.load_x(value).flag(ProcessorStatus::Zero) == (value == 0),
        machine.load_x(value).flag(ProcessorStatus::Negative) == is_negative(value),
        machine.load_y(value).y == value,
        machine.load_y(value).flag(ProcessorStatus::Zero) == (value == 0),
        machine.load_y(value).flag(ProcessorStatus::Negative) == is_negative(value),
{
    lemma_with_zero_negative(machine.p, value);
}

/// After LDA, LDX and LDY, the register holds the operand, the zero flag
/// says whether the operand is 0, and the negative flag says whether its
/// bit 7 is set.
pub proof fn load_instruction_flags(machine: Machine, mode: AddressingMode)
    ensures
        machine.lda(mode).a == machine.operand(mode),
        machine.lda(mode).flag(ProcessorStatus::Zero) == (machine.operand(mode) == 0),
        machine.lda(mode).flag(ProcessorStatus::Negative) == is_negative(machine.operand(mode)),
        machine.ldx(mode).x == machine.operand(mode),
        machine.ldx(mode).flag(ProcessorStatus::Zero) == (machine.operand(mode) == 0),
        machine.ldx(mode).flag(ProcessorStatus::Negative) == is_negative(machine.operand(mode)),
        machine.ldy(mode).y == machine.operand(mode),
        machine.ldy(mode).flag(ProcessorStatus::Zero) == (machine.operand(mode) == 0),
        machine.ldy(mode).flag(ProcessorStatus::Negative) == is_negative(machine.operand(mode)),
{
    load_flags(machine, machine.operand(mode));
}

/// LSR always clears the negative flag.
pub proof fn shift_right_clears_negative(machine: Machine, mode: AddressingMode)
    ensures
        !machine.lsr(mode).flag(ProcessorStatus::Negative),
{
    let old = machine.target(mode);
    let stored = machine.set_target(mode, old / 2);
    lemma_with_zero_negative(stored.p, old / 2);
    lemma_with_flag(stored.set_zero_negative(old / 2).p, ProcessorStatus::Carry, old % 2 == 1);
}

/// Whether `mnemonic` is one of the eight branches.
pub open spec fn is_branch(mnemonic: OpCodeName) -> bool {
    matches!(
        mnemonic,
        OpCodeName::BCC
            | OpCodeName::BCS
            | OpCodeName::BEQ
            | OpCodeName::BMI
            | OpCodeName::BNE
            | OpCodeName::BPL
            | OpCodeName::BVC
            | OpCodeName::BVS
    )
}

/// Whether the condition of the branch `mnemonic` holds in `machine`.
pub open spec fn branch_taken(machine: Machine, mnemonic: OpCodeName) -> bool {
    match mnemonic {
        OpCodeName::BCC => !machine.flag(ProcessorStatus::Carry),
        OpCodeName::BCS => machine.flag(ProcessorStatus::Carry),
        OpCodeName::BEQ => machine.flag(ProcessorStatus::Zero),
        OpCodeName::BMI => machine.flag(ProcessorStatus::Negative),
        OpCodeName::BNE => !machine.flag(ProcessorStatus::Zero),
        OpCodeName::BPL => !machine.flag(ProcessorStatus::Negative),
        OpCodeName::BVC => !machine.flag(ProcessorStatus::Overflow),
        OpCodeName::BVS => machine.flag(ProcessorStatus::Overflow),
        _ => false,
    }
}

/// A step at a branch changes the program counter and nothing else. A branch
/// that is not taken leaves it after the operand, two bytes on. A branch that
/// is taken leaves it at that address plus the operand read as a signed
/// byte.
pub proof fn branch_target(machine: Machine)
    requires
        machine.decoded() matches Some(op) && is_branch(op.mnemonic),
    ensures
        ({
            let mnemonic = machine.decoded().unwrap().mnemonic;
            let offset = machine.read(next_addr(machine.pc));
            machine.step() == Machine {
                pc: if branch_taken(machine, mnemonic) {
                    wrap16(machine.pc + 2 + signed(offset))
                } else {
                    wrap16(machine.pc + 2)
                },
                ..machine
            }
        }),
{
    lemma_decoded(machine.read(machine.pc));
}

/// What JSR leaves: the stack pointer two down, on the stack the address of
/// the byte after the program counter, low byte on top, and the program
/// counter at the effective address.
pub proof fn call_pushes_return_address(machine: Machine, mode: AddressingMode)
    requires
        machine.wf(),
    ensures
        machine.jsr(mode).pc == machine.operand_address(mode),
        machine.jsr(mode).sp == wrap8(machine.sp - 2),
        machine.jsr(mode).top() == low_byte(next_addr(machine.pc)),
        machine.jsr(mode).pop().top() == high_byte(next_addr(machine.pc)),
        machine.jsr(mode).pop().pop().sp == machine.sp,
{
    let last = next_addr(machine.pc);
    let first = machine.push(high_byte(last));
    let second = first.push(low_byte(last));
    assert(first.sp == wrap8(machine.sp - 1));
    assert(second.sp == wrap8(machine.sp - 2));
    assert(wrap8(second.sp + 1) == first.sp);
    assert(wrap8(first.sp + 1) == machine.sp);
    assert(Machine::stack_address(first.sp) != Machine::stack_address(machine.sp));
}

/// JSR and RTS pair up. Take a machine `caller` at a JSR, and a machine
/// `callee` at an RTS whose stack is where the JSR left it: the same stack
/// pointer, and above it the same two bytes. Then the step at the JSR goes
/// to the address in its operand, and the step at the RTS goes to the
/// instruction after the JSR, three bytes on from it, with the stack pointer
/// as it was before the JSR.
pub proof fn call_return(caller: Machine, callee: Machine)
    requires
        caller.wf(),
        callee.wf(),
        caller.decoded() matches Some(op) && op.mnemonic == OpCodeName::JSR,
        callee.decoded() matches Some(op) && op.mnemonic == OpCodeName::RTS,
        callee.sp == caller.step().sp,
        callee.top() == caller.step().top(),
        callee.pop().top() == caller.step().pop().top(),
    ensures
        caller.step().pc == caller.read16(next_addr(caller.pc)),
        callee.step().pc == wrap16(caller.pc + 3),
        callee.step().sp == caller.sp,
{
    lemma_decoded(caller.read(caller.pc));
    lemma_decoded(callee.read(callee.pc));
    let call = caller.decoded().unwrap();
    let ret = callee.decoded().unwrap();
    assert(call.mode == AddressingMode::Absolute);
    assert(ret.mode == AddressingMode::Implicit && ret.len == 1);
    let fetched = caller.moved(1);
    assert(caller.step() == fetched.jsr(AddressingMode::Absolute));
    call_pushes_return_address(fetched, AddressingMode::Absolute);
    let last = next_addr(fetched.pc);
    assert(last == wrap16(caller.pc + 2));
    assert(word(low_byte(last), high_byte(last)) == last);
    let returning = callee.moved(1);
    assert(callee.step() == returning.rts().moved(0));
    assert(returning.rts().pc == next_addr(last));
    assert(returning.rts().sp == wrap8(wrap8(callee.sp + 1) + 1));
}

/// An RTS right at the target of a JSR returns to the instruction after the
/// JSR.
pub proof fn call_then_return(caller: Machine)
    requires
        caller.wf(),
        caller.decoded() matches Some(op) && op.mnemonic == OpCodeName::JSR,
        caller.step().decoded() matches Some(op) && op.mnemonic == OpCodeName::RTS,
    ensures
        caller.step().step().pc == wrap16(caller.pc + 3),
        caller.step().step().sp == caller.sp,
{
    call_return(caller, caller.step());
}

/// A compare changes the flags only: carry says that the register is at
/// least the operand, zero that the two are equal, negative that bit 7 of
/// their difference modulo 256 is set.
pub proof fn compare_flags(machine: Machine, register: u8, mode: AddressingMode)
    ensures
        ({
            let operand = machine.operand(mode);
            let after = machine.compare(register, mode);
            &&& after == Machine { p: after.p, ..machine }
            &&& after.flag(ProcessorStatus::Carry) == (register >= operand)
            &&& after.flag(ProcessorStatus::Zero) == (register == operand)
            &&& after.flag(ProcessorStatus::Negative) == is_negative(wrap8(register - operand))
        }),
{
    let operand = machine.operand(mode);
    let carried = machine.set_flag(ProcessorStatus::Carry, register >= operand);
    let zeroed = carried.set_flag(ProcessorStatus::Zero, register == operand);
    lemma_with_flag(machine.p, ProcessorStatus::Carry, register >= operand);
    lemma_with_flag(carried.p, ProcessorStatus::Zero, register == operand);
    lemma_with_flag(
        zeroed.p,
        ProcessorStatus::Negative,
        is_negative(wrap8(register - operand)),
    );
}

/// After a shift, a rotate, an increment or a decrement, zero and negative
/// are those of the result; after a shift or a rotate, the carry is the bit
/// that left the byte.
pub proof fn modify_flags(machine: Machine, mode: AddressingMode)
    ensures
        machine.asl(mode).flag(ProcessorStatus::Carry) == is_negative(machine.target(mode)),
        machine.rol(mode).flag(ProcessorStatus::Carry) == is_negative(machine.target(mode)),
        machine.lsr(mode).flag(ProcessorStatus::Carry) == (machine.target(mode) % 2 == 1),
        machine.ror(mode).flag(ProcessorStatus::Carry) == (machine.target(mode) % 2 == 1),
        machine.asl(mode).flag(ProcessorStatus::Zero) == (wrap8(2 * machine.target(mode)) == 0),
        machine.asl(mode).flag(ProcessorStatus::Negative) == is_negative(
            wrap8(2 * machine.target(mode)),
        ),
        machine.inc(mode).flag(ProcessorStatus::Zero) == (machine.operand(mode) == 0xFF),
        machine.inc(mode).flag(ProcessorStatus::Negative) == is_negative(
            wrap8(machine.operand(mode) + 1),
        ),
        machine.dec(mode).flag(ProcessorStatus::Zero) == (machine.operand(mode) == 1),
        machine.dec(mode).flag(ProcessorStatus::Negative) == is_negative(
            wrap8(machine.operand(mode) - 1),
        ),
{
    let old = machine.target(mode);
    stored_flags(machine, mode, wrap8(2 * old), is_negative(old));
    stored_flags(machine, mode, wrap8(2 * old + machine.carry()), is_negative(old));
    stored_flags(machine, mode, old / 2, old % 2 == 1);
    stored_flags(machine, mode, wrap8(old / 2 + 0x80 * machine.carry()), old % 2 == 1);
    lemma_with_zero_negative(machine.p, wrap8(machine.operand(mode) + 1));
    lemma_with_zero_negative(machine.p, wrap8(machine.operand(mode) - 1));
}

/// The flags after a result was stored with its carry.
proof fn stored_flags(machine: Machine, mode: AddressingMode, value: u8, carry: bool)
    ensures
        machine.store_target(mode, value, carry).flag(ProcessorStatus::Carry) == carry,
        machine.store_target(mode, value, carry).flag(ProcessorStatus::Zero) == (value == 0),
        machine.store_target(mode, value, carry).flag(ProcessorStatus::Negative) == is_negative(
            value,
        ),
{
    let stored = machine.set_target(mode, value);
    lemma_with_zero_negative(stored.p, value);
    lemma_with_flag(stored.set_zero_negative(value).p, ProcessorStatus::Carry, carry);
}

/// Only PLP and RTI reach the break bit and the reserved bit of the status
/// register: a step at any other instruction leaves both as they were. RTI
/// leaves the break bit too.
pub proof fn step_keeps_reserved_bits(machine: Machine)
    requires
        machine.decoded() matches Some(op) && op.mnemonic != OpCodeName::PLP,
    ensures
        machine.step().p & BREAK_BIT == machine.p & BREAK_BIT,
        machine.decoded().unwrap().mnemonic != OpCodeName::RTI ==> machine.step().p
            & RESERVED_BIT == machine.p & RESERVED_BIT,
{
    let op = machine.decoded().unwrap();
    lemma_flag_updates_keep_reserved_bits();
    match op.mnemonic {
        OpCodeName::RTI => {
            let pulled = machine.top();
            let status = machine.p;
            assert(((pulled & !0x10u8) | (status & 0x10u8)) & 0x10u8 == status & 0x10u8)
                by (bit_vector);
        },
        _ => {},
    }
}

/// No update of a flag, and none of zero and negative together, reaches the
/// break bit or the reserved bit.
proof fn lemma_flag_updates_keep_reserved_bits()
    ensures
        forall|status: u8, flag: ProcessorStatus, on: bool|
            kept(status, #[trigger] with_flag(status, flag, on)),
        forall|status: u8, result: u8|
            kept(status, #[trigger] with_zero_negative(status, result)),
{
    assert forall|status: u8, flag: ProcessorStatus, on: bool|
        kept(status, #[trigger] with_flag(status, flag, on)) by {
        lemma_with_flag(status, flag, on);
    }
    assert forall|status: u8, result: u8|
        kept(status, #[trigger] with_zero_negative(status, result)) by {
        lemma_with_zero_negative(status, result);
    }
}

/// Whether the status bytes `before` and `after` have the same break bit and
/// the same reserved bit.
spec fn kept(before: u8, after: u8) -> bool {
    after & BREAK_BIT == before & BREAK_BIT && after & RESERVED_BIT == before & RESERVED_BIT
}

} // verus!

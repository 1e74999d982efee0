//! The status register: reading a flag, and setting and clearing one.
use nes_emulator::cpu::processor_status::ProcessorStatus;
use nes_emulator::cpu::CPU;

const FLAGS: [(ProcessorStatus, u8); 6] = [
    (ProcessorStatus::Carry, 0b0000_0001),
    (ProcessorStatus::Zero, 0b0000_0010),
    (ProcessorStatus::InterruptDisable, 0b0000_0100),
    (ProcessorStatus::Decimal, 0b0000_1000),
    (ProcessorStatus::Overflow, 0b0100_0000),
    (ProcessorStatus::Negative, 0b1000_0000),
];

#[test]
fn new_cpu_has_reset_status() {
    let cpu = CPU::new();
    assert_eq!(cpu.status, 0b0010_0100);
    assert!(cpu.is_status_flag_set(ProcessorStatus::InterruptDisable));
    assert!(!cpu.is_status_flag_set(ProcessorStatus::Carry));
    assert!(!cpu.is_status_flag_set(ProcessorStatus::Zero));
    assert!(!cpu.is_status_flag_set(ProcessorStatus::Decimal));
    assert!(!cpu.is_status_flag_set(ProcessorStatus::Overflow));
    assert!(!cpu.is_status_flag_set(ProcessorStatus::Negative));
}

#[test]
fn each_flag_has_its_own_bit() {
    for (flag, mask) in FLAGS {
        assert_eq!(flag.bit(), mask);
        let mut cpu = CPU::new();
        cpu.status = mask;
        for (other, _) in FLAGS {
            assert_eq!(cpu.is_status_flag_set(other), other == flag);
        }
        cpu.status = !mask;
        for (other, _) in FLAGS {
            assert_eq!(cpu.is_status_flag_set(other), other != flag);
        }
    }
}

#[test]
fn update_flag_touches_one_bit() {
    for status in 0..=255u8 {
        for (flag, mask) in FLAGS {
            let mut cpu = CPU::new();
            cpu.status = status;
            cpu.update_flag(flag, true);
            assert_eq!(cpu.status, status | mask);
            cpu.update_flag(flag, false);
            assert_eq!(cpu.status, status & !mask);
        }
    }
}

#[test]
fn named_updates_reach_their_flag() {
    let mut cpu = CPU::new();
    cpu.status = 0;
    cpu.update_carry_flag(true);
    assert_eq!(cpu.status, 0b0000_0001);
    cpu.update_zero_flag(true);
    assert_eq!(cpu.status, 0b0000_0011);
    cpu.update_interrupt_flag(true);
    assert_eq!(cpu.status, 0b0000_0111);
    cpu.update_decimal_flag(true);
    assert_eq!(cpu.status, 0b0000_1111);
    cpu.update_overflow_flag(true);
    assert_eq!(cpu.status, 0b0100_1111);
    cpu.update_negative_flag(true);
    assert_eq!(cpu.status, 0b1100_1111);
    cpu.update_carry_flag(false);
    assert_eq!(cpu.status, 0b1100_1110);
    cpu.update_zero_flag(false);
    assert_eq!(cpu.status, 0b1100_1100);
    cpu.update_interrupt_flag(false);
    assert_eq!(cpu.status, 0b1100_1000);
    cpu.update_decimal_flag(false);
    assert_eq!(cpu.status, 0b1100_0000);
    cpu.update_overflow_flag(false);
    assert_eq!(cpu.status, 0b1000_0000);
    cpu.update_negative_flag(false);
    assert_eq!(cpu.status, 0b0000_0000);
}

#[test]
fn zero_and_negative_follow_the_result() {
    for result in 0..=255u8 {
        let mut cpu = CPU::new();
        cpu.status = 0b0111_1101;
        cpu.update_zero_and_negative_flags(result);
        assert_eq!(cpu.is_status_flag_set(ProcessorStatus::Zero), result == 0);
        assert_eq!(cpu.is_status_flag_set(ProcessorStatus::Negative), result >= 0x80);
        assert_eq!(cpu.status & 0b0111_1101, 0b0111_1101);
    }
}

#[test]
fn clear_clears_any_flag() {
    for (flag, mask) in FLAGS {
        let mut cpu = CPU::new();
        cpu.status = 0xFF;
        cpu.clear(flag);
        assert_eq!(cpu.status, !mask);
    }
}

#[test]
fn set_instructions_set_their_flag() {
    let mut cpu = CPU::new();
    cpu.status = 0;
    cpu.sec();
    assert_eq!(cpu.status, 0b0000_0001);
    cpu.sed();
    assert_eq!(cpu.status, 0b0000_1001);
    cpu.sei();
    assert_eq!(cpu.status, 0b0000_1101);
}

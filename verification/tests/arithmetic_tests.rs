//! The arithmetic and the round trips, over every input.
use nes_emulator::cpu::addressing_mode::AddressingMode;
use nes_emulator::cpu::mem::Mem;
use nes_emulator::cpu::processor_status::ProcessorStatus;
use nes_emulator::cpu::CPU;

/// A CPU with `a` in the accumulator, the carry as `carry` says, and
/// `operand` as the immediate operand at the program counter.
fn cpu_with(a: u8, operand: u8, carry: bool) -> CPU {
    let mut cpu = CPU::new();
    cpu.program_counter = 0x8001;
    cpu.mem_write(0x8001, operand);
    cpu.register_a = a;
    cpu.status = if carry { 0x25 } else { 0x24 };
    cpu
}

#[test]
fn adc_adds_modulo_256_for_every_input() {
    for a in 0..=255u8 {
        for operand in 0..=255u8 {
            for carry in [false, true] {
                let mut cpu = cpu_with(a, operand, carry);
                cpu.adc(AddressingMode::Immediate);
                let sum: u16 = a as u16 + operand as u16 + carry as u16;
                let result: u8 = (sum % 256) as u8;
                assert_eq!(cpu.register_a, result);
                assert_eq!(cpu.is_status_flag_set(ProcessorStatus::Carry), sum > 255);
                let same_sign: bool = (a >= 0x80) == (operand >= 0x80);
                let overflow: bool = same_sign && (a >= 0x80) != (result >= 0x80);
                assert_eq!(cpu.is_status_flag_set(ProcessorStatus::Overflow), overflow);
                let signed: i16 = a as i8 as i16 + operand as i8 as i16 + carry as i16;
                assert_eq!(overflow, !(-128..=127).contains(&signed));
                assert_eq!(cpu.is_status_flag_set(ProcessorStatus::Zero), result == 0);
                assert_eq!(cpu.is_status_flag_set(ProcessorStatus::Negative), result >= 0x80);
                assert_eq!(cpu.program_counter, 0x8001);
            }
        }
    }
}

#[test]
fn sbc_is_adc_on_the_complement_for_every_input() {
    for a in 0..=255u8 {
        for operand in 0..=255u8 {
            for carry in [false, true] {
                let mut subtracted = cpu_with(a, operand, carry);
                subtracted.sbc(AddressingMode::Immediate);
                let mut added = cpu_with(a, !operand, carry);
                added.adc(AddressingMode::Immediate);
                assert_eq!(subtracted.register_a, added.register_a);
                assert_eq!(subtracted.status, added.status);
            }
        }
    }
}

#[test]
fn sbc_subtracts_with_borrow() {
    let mut cpu = cpu_with(0x50, 0xF0, true);
    cpu.sbc(AddressingMode::Immediate);
    assert_eq!(cpu.register_a, 0x60);
    assert!(!cpu.is_status_flag_set(ProcessorStatus::Carry));
    assert!(!cpu.is_status_flag_set(ProcessorStatus::Overflow));

    let mut cpu = cpu_with(0x50, 0xB0, true);
    cpu.sbc(AddressingMode::Immediate);
    assert_eq!(cpu.register_a, 0xA0);
    assert!(!cpu.is_status_flag_set(ProcessorStatus::Carry));
    assert!(cpu.is_status_flag_set(ProcessorStatus::Overflow));
    assert!(cpu.is_status_flag_set(ProcessorStatus::Negative));

    let mut cpu = cpu_with(0xD0, 0x70, true);
    cpu.sbc(AddressingMode::Immediate);
    assert_eq!(cpu.register_a, 0x60);
    assert!(cpu.is_status_flag_set(ProcessorStatus::Carry));
    assert!(cpu.is_status_flag_set(ProcessorStatus::Overflow));

    let mut cpu = cpu_with(0x05, 0x05, false);
    cpu.sbc(AddressingMode::Immediate);
    assert_eq!(cpu.register_a, 0xFF);
    assert!(!cpu.is_status_flag_set(ProcessorStatus::Carry));
    assert!(cpu.is_status_flag_set(ProcessorStatus::Negative));

    let mut cpu = cpu_with(0x05, 0x05, true);
    cpu.sbc(AddressingMode::Immediate);
    assert_eq!(cpu.register_a, 0x00);
    assert!(cpu.is_status_flag_set(ProcessorStatus::Carry));
    assert!(cpu.is_status_flag_set(ProcessorStatus::Zero));
}

#[test]
fn loads_set_zero_and_negative_for_every_byte() {
    for value in 0..=255u8 {
        let mut cpu = cpu_with(0x11, value, false);
        cpu.lda(AddressingMode::Immediate);
        assert_eq!(cpu.register_a, value);
        assert_eq!(cpu.is_status_flag_set(ProcessorStatus::Zero), value == 0);
        assert_eq!(cpu.is_status_flag_set(ProcessorStatus::Negative), value >= 0x80);

        let mut cpu = cpu_with(0x11, value, false);
        cpu.ldx(AddressingMode::Immediate);
        assert_eq!(cpu.register_x, value);
        assert_eq!(cpu.is_status_flag_set(ProcessorStatus::Zero), value == 0);
        assert_eq!(cpu.is_status_flag_set(ProcessorStatus::Negative), value >= 0x80);

        let mut cpu = cpu_with(0x11, value, false);
        cpu.ldy(AddressingMode::Immediate);
        assert_eq!(cpu.register_y, value);
        assert_eq!(cpu.is_status_flag_set(ProcessorStatus::Zero), value == 0);
        assert_eq!(cpu.is_status_flag_set(ProcessorStatus::Negative), value >= 0x80);
    }
}

#[test]
fn compares_set_carry_zero_and_negative() {
    for register in [0x00u8, 0x01, 0x7F, 0x80, 0xFF] {
        for operand in [0x00u8, 0x01, 0x7F, 0x80, 0xFF] {
            let difference: u8 = register.wrapping_sub(operand);
            let mut cpu = cpu_with(register, operand, false);
            cpu.cmp(AddressingMode::Immediate);
            assert_eq!(cpu.register_a, register);
            assert_eq!(cpu.is_status_flag_set(ProcessorStatus::Carry), register >= operand);
            assert_eq!(cpu.is_status_flag_set(ProcessorStatus::Zero), register == operand);
            assert_eq!(cpu.is_status_flag_set(ProcessorStatus::Negative), difference >= 0x80);

            let mut cpu = cpu_with(0, operand, false);
            cpu.register_x = register;
            cpu.cpx(AddressingMode::Immediate);
            assert_eq!(cpu.is_status_flag_set(ProcessorStatus::Carry), register >= operand);
            assert_eq!(cpu.is_status_flag_set(ProcessorStatus::Zero), register == operand);

            let mut cpu = cpu_with(0, operand, false);
            cpu.register_y = register;
            cpu.cpy(AddressingMode::Immediate);
            assert_eq!(cpu.is_status_flag_set(ProcessorStatus::Carry), register >= operand);
            assert_eq!(cpu.is_status_flag_set(ProcessorStatus::Negative), difference >= 0x80);
        }
    }
}

#[test]
fn shifts_and_rotates_for_every_byte() {
    for value in 0..=255u8 {
        for carry in [false, true] {
            let mut cpu = cpu_with(value, 0, carry);
            cpu.asl(AddressingMode::Accumulator);
            assert_eq!(cpu.register_a, value << 1);
            assert_eq!(cpu.is_status_flag_set(ProcessorStatus::Carry), value >= 0x80);

            let mut cpu = cpu_with(value, 0, carry);
            cpu.lsr(AddressingMode::Accumulator);
            assert_eq!(cpu.register_a, value >> 1);
            assert_eq!(cpu.is_status_flag_set(ProcessorStatus::Carry), value & 1 == 1);
            assert!(!cpu.is_status_flag_set(ProcessorStatus::Negative));
            assert_eq!(cpu.is_status_flag_set(ProcessorStatus::Zero), value >> 1 == 0);

            let mut cpu = cpu_with(value, 0, carry);
            cpu.rol(AddressingMode::Accumulator);
            assert_eq!(cpu.register_a, (value << 1) | carry as u8);
            assert_eq!(cpu.is_status_flag_set(ProcessorStatus::Carry), value >= 0x80);

            let mut cpu = cpu_with(value, 0, carry);
            cpu.ror(AddressingMode::Accumulator);
            assert_eq!(cpu.register_a, (value >> 1) | ((carry as u8) << 7));
            assert_eq!(cpu.is_status_flag_set(ProcessorStatus::Carry), value & 1 == 1);
            assert_eq!(cpu.is_status_flag_set(ProcessorStatus::Negative), carry);
        }
    }
}

#[test]
fn increments_and_decrements_wrap() {
    let mut cpu = CPU::new();
    cpu.register_x = 0xFF;
    cpu.inx();
    assert_eq!(cpu.register_x, 0x00);
    assert!(cpu.is_status_flag_set(ProcessorStatus::Zero));
    cpu.dex();
    assert_eq!(cpu.register_x, 0xFF);
    assert!(cpu.is_status_flag_set(ProcessorStatus::Negative));
    cpu.register_y = 0xFF;
    cpu.iny();
    assert_eq!(cpu.register_y, 0x00);
    cpu.dey();
    assert_eq!(cpu.register_y, 0xFF);

    let mut cpu = cpu_with(0, 0x40, false);
    cpu.mem_write(0x0040, 0xFF);
    cpu.inc(AddressingMode::ZeroPage);
    assert_eq!(cpu.mem_read(0x0040), 0x00);
    assert!(cpu.is_status_flag_set(ProcessorStatus::Zero));
    cpu.dec(AddressingMode::ZeroPage);
    assert_eq!(cpu.mem_read(0x0040), 0xFF);
    assert!(cpu.is_status_flag_set(ProcessorStatus::Negative));
}

#[test]
fn bit_copies_bits_six_and_seven() {
    for (a, operand, zero, overflow, negative) in [
        (0x0Fu8, 0xF0u8, true, true, true),
        (0xFF, 0x40, false, true, false),
        (0xFF, 0x80, false, false, true),
        (0x01, 0x01, false, false, false),
        (0x00, 0x3F, true, false, false),
    ] {
        let mut cpu = cpu_with(a, 0x20, false);
        cpu.mem_write(0x0020, operand);
        cpu.bit(AddressingMode::ZeroPage);
        assert_eq!(cpu.register_a, a);
        assert_eq!(cpu.is_status_flag_set(ProcessorStatus::Zero), zero);
        assert_eq!(cpu.is_status_flag_set(ProcessorStatus::Overflow), overflow);
        assert_eq!(cpu.is_status_flag_set(ProcessorStatus::Negative), negative);
    }
}

#[test]
fn pha_then_pla_restores_every_byte() {
    for value in 0..=255u8 {
        for sp in [0x00u8, 0x01, 0x80, 0xFD, 0xFF] {
            let mut cpu = CPU::new();
            cpu.register_a = value;
            cpu.stack_pointer = sp;
            cpu.pha();
            assert_eq!(cpu.stack_pointer, sp.wrapping_sub(1));
            assert_eq!(cpu.mem_read(0x0100 + sp as u16), value);
            cpu.register_a = !value;
            cpu.pla();
            assert_eq!(cpu.register_a, value);
            assert_eq!(cpu.stack_pointer, sp);
            assert_eq!(cpu.is_status_flag_set(ProcessorStatus::Zero), value == 0);
            assert_eq!(cpu.is_status_flag_set(ProcessorStatus::Negative), value >= 0x80);
        }
    }
}

#[test]
fn php_then_plp_sets_the_reserved_bit_for_every_status() {
    for status in 0..=255u8 {
        let mut cpu = CPU::new();
        cpu.status = status;
        cpu.php();
        assert_eq!(cpu.status, status);
        assert_eq!(cpu.stack_pointer, 0xFC);
        assert_eq!(cpu.mem_read(0x01FD), status | 0x20);
        cpu.status = !status;
        cpu.plp();
        assert_eq!(cpu.status, status | 0x20);
        assert_eq!(cpu.status & 0x20, 0x20);
        assert_eq!(cpu.stack_pointer, 0xFD);
    }
}

#[test]
fn php_then_plp_restores_a_status_with_the_reserved_bit() {
    for status in 0..=255u8 {
        if status & 0x20 != 0 {
            let mut cpu = CPU::new();
            cpu.status = status;
            cpu.php();
            cpu.status = 0;
            cpu.plp();
            assert_eq!(cpu.status, status);
            assert_eq!(cpu.stack_pointer, 0xFD);
        }
    }
}

#[test]
fn reserved_bit_stays_set_through_a_program() {
    let mut cpu = CPU::new();
    // SEC; LDA #$FF; ADC #$01; PHP; CLC; SED; PLP; PHA; PLA; BRK
    cpu.load_and_run(&[0x38, 0xA9, 0xFF, 0x69, 0x01, 0x08, 0x18, 0xF8, 0x28, 0x48, 0x68, 0x00]);
    assert_eq!(cpu.status & 0x20, 0x20);
    assert_eq!(cpu.register_a, 0x01);
    assert_eq!(cpu.stack_pointer, 0xFD);
}

#[test]
fn logic_instructions_combine_bit_by_bit() {
    let mut cpu = cpu_with(0b1100_1010, 0b1010_0110, false);
    cpu.and(AddressingMode::Immediate);
    assert_eq!(cpu.register_a, 0b1000_0010);
    let mut cpu = cpu_with(0b1100_1010, 0b1010_0110, false);
    cpu.ora(AddressingMode::Immediate);
    assert_eq!(cpu.register_a, 0b1110_1110);
    let mut cpu = cpu_with(0b1100_1010, 0b1010_0110, false);
    cpu.eor(AddressingMode::Immediate);
    assert_eq!(cpu.register_a, 0b0110_1100);
    let mut cpu = cpu_with(0xFF, 0xFF, false);
    cpu.eor(AddressingMode::Immediate);
    assert_eq!(cpu.register_a, 0);
    assert!(cpu.is_status_flag_set(ProcessorStatus::Zero));
}

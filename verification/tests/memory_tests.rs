//! The memory port of the CPU and of the bus.
use nes_emulator::bus::Bus;
use nes_emulator::cpu::mem::{make_word, split_word, Mem};
use nes_emulator::cpu::CPU;

#[test]
fn words_are_little_endian() {
    assert_eq!(make_word(0x34, 0x12), 0x1234);
    assert_eq!(make_word(0xFF, 0x00), 0x00FF);
    assert_eq!(make_word(0x00, 0xFF), 0xFF00);
    assert_eq!(split_word(0x1234), (0x34, 0x12));
    assert_eq!(split_word(0x8000), (0x00, 0x80));
    for value in [0u16, 1, 0xFF, 0x100, 0x7FFF, 0x8000, 0xFFFF] {
        let (lo, hi) = split_word(value);
        assert_eq!(make_word(lo, hi), value);
    }
}

#[test]
fn cpu_memory_starts_zeroed() {
    let cpu = CPU::new();
    assert_eq!(cpu.mem_read(0x0000), 0);
    assert_eq!(cpu.mem_read(0x8000), 0);
    assert_eq!(cpu.mem_read(0xFFFF), 0);
    assert_eq!(cpu.memory.len(), 65_536);
}

#[test]
fn cpu_write_reaches_one_address() {
    let mut cpu = CPU::new();
    cpu.mem_write(0x1234, 0xAB);
    assert_eq!(cpu.mem_read(0x1234), 0xAB);
    assert_eq!(cpu.mem_read(0x1233), 0);
    assert_eq!(cpu.mem_read(0x1235), 0);
    // The CPU's own memory has no mirrors.
    assert_eq!(cpu.mem_read(0x1234 & 0x07FF), 0);
    cpu.mem_write(0xFFFF, 0x77);
    assert_eq!(cpu.mem_read(0xFFFF), 0x77);
    assert_eq!(cpu.register_a, 0);
    assert_eq!(cpu.stack_pointer, 0xFD);
}

#[test]
fn cpu_reads_and_writes_words() {
    let mut cpu = CPU::new();
    cpu.mem_write_u16(0x0010, 0xBEEF);
    assert_eq!(cpu.mem_read(0x0010), 0xEF);
    assert_eq!(cpu.mem_read(0x0011), 0xBE);
    assert_eq!(cpu.mem_read_u16(0x0010), 0xBEEF);
}

#[test]
fn word_at_the_last_address_wraps_to_the_first() {
    let mut cpu = CPU::new();
    cpu.mem_write_u16(0xFFFF, 0x1234);
    assert_eq!(cpu.mem_read(0xFFFF), 0x34);
    assert_eq!(cpu.mem_read(0x0000), 0x12);
    assert_eq!(cpu.mem_read_u16(0xFFFF), 0x1234);
}

#[test]
fn bus_starts_zeroed() {
    let bus = Bus::new();
    assert_eq!(bus.mem_read(0x0000), 0);
    assert_eq!(bus.mem_read(0x07FF), 0);
    assert_eq!(bus.mem_read(0x1FFF), 0);
    let bus = Bus::default();
    assert_eq!(bus.mem_read(0x0123), 0);
}

#[test]
fn bus_ram_is_mirrored() {
    let mut bus = Bus::new();
    bus.mem_write(0x0005, 0x42);
    assert_eq!(bus.mem_read(0x0005), 0x42);
    assert_eq!(bus.mem_read(0x0805), 0x42);
    assert_eq!(bus.mem_read(0x1005), 0x42);
    assert_eq!(bus.mem_read(0x1805), 0x42);
    assert_eq!(bus.mem_read(0x0006), 0);
    bus.mem_write(0x1FFF, 0x99);
    assert_eq!(bus.mem_read(0x07FF), 0x99);
    assert_eq!(bus.mem_read(0x1FFF), 0x99);
}

#[test]
fn bus_ignores_what_is_not_ram() {
    let mut bus = Bus::new();
    bus.mem_write(0x0000, 0x11);
    for addr in [0x2000u16, 0x2007, 0x3FFF, 0x4020, 0x8000, 0xFFFF] {
        bus.mem_write(addr, 0xEE);
        assert_eq!(bus.mem_read(addr), 0);
    }
    assert_eq!(bus.mem_read(0x0000), 0x11);
    for cell in 1..2048u16 {
        assert_eq!(bus.mem_read(cell), 0);
    }
}

#[test]
fn bus_reads_and_writes_words() {
    let mut bus = Bus::new();
    bus.mem_write_u16(0x07FF, 0xABCD);
    // The low byte lands in the last cell, the high byte in the first cell
    // of the next mirror.
    assert_eq!(bus.mem_read(0x07FF), 0xCD);
    assert_eq!(bus.mem_read(0x0000), 0xAB);
    assert_eq!(bus.mem_read_u16(0x07FF), 0xABCD);
    // A word across the end of the RAM region loses its high byte.
    bus.mem_write_u16(0x1FFF, 0x1234);
    assert_eq!(bus.mem_read_u16(0x1FFF), 0x0034);
}

//! A software model of the MOS 6502 as found in the NES: registers, a flat
//! 64 KiB memory, the official instruction set and a fetch-decode-execute
//! driver, each stated against a mathematical machine and proved to follow it.

pub mod bus;
pub mod cpu;

pub use cpu::mem::Mem;

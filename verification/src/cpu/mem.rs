//! The memory port: byte reads and writes over a 16-bit address space, and
//! the little-endian 16-bit helpers built on them.

use vstd::prelude::*;

verus! {

/// The 16-bit value whose low byte is `lo` and whose high byte is `hi`.
pub open spec fn word(lo: u8, hi: u8) -> u16 {
    (256 * hi + lo) as u16
}

/// The low byte of `value`.
pub open spec fn low_byte(value: u16) -> u8 {
    (value % 256) as u8
}

/// The high byte of `value`.
pub open spec fn high_byte(value: u16) -> u8 {
    (value / 256) as u8
}

/// The address that follows `addr`, wrapping from `0xFFFF` to `0`.
pub open spec fn next_addr(addr: u16) -> u16 {
    ((addr + 1) % 0x1_0000) as u16
}

/// Joins two bytes into a word, low byte first.
pub fn make_word(lo: u8, hi: u8) -> (value: u16)
    ensures
        value == word(lo, hi),
{
    assert((((hi as u16) << 8) | (lo as u16)) == (256 * hi + lo) as u16) by (bit_vector);
    ((hi as u16) << 8) | (lo as u16)
}

/// Splits a word into its low and its high byte.
pub fn split_word(value: u16) -> (bytes: (u8, u8))
    ensures
        bytes.0 == low_byte(value),
        bytes.1 == high_byte(value),
        word(bytes.0, bytes.1) == value,
{
    assert((value & 0xFF) == value % 256 && (value >> 8) == value / 256) by (bit_vector);
    ((value & 0xFF) as u8, (value >> 8) as u8)
}

/// A byte-addressable port over a 16-bit address space.
///
/// An implementor says, in `peek`, which byte a read of an address returns,
/// and, in `poke`, what the port is after a write.
pub trait Mem: Sized {
    /// The byte that a read of `addr` returns.
    spec fn peek(&self, addr: u16) -> u8;

    /// The port after `data` was written to `addr`.
    spec fn poke(&self, addr: u16, data: u8) -> Self;

    /// Returns the byte stored at `addr`.
    fn mem_read(&self, addr: u16) -> (data: u8)
        ensures
            data == self.peek(addr),
    ;

    /// Writes `data` to `addr`.
    fn mem_write(&mut self, addr: u16, data: u8)
        ensures
            *final(self) == old(self).poke(addr, data),
    ;

    /// Reads the little-endian word at `pos`: the low byte from `pos`, the
    /// high byte from the address after it.
    fn mem_read_u16(&self, pos: u16) -> (data: u16)
        ensures
            data == word(self.peek(pos), self.peek(next_addr(pos))),
    {
        let lo = self.mem_read(pos);
        let hi = self.mem_read(pos.wrapping_add(1));
        make_word(lo, hi)
    }

    /// Writes `data` at `pos` in little-endian order: the low byte to `pos`,
    /// then the high byte to the address after it.
    fn mem_write_u16(&mut self, pos: u16, data: u16)
        ensures
            *final(self) == old(self).poke(pos, low_byte(data)).poke(
                next_addr(pos),
                high_byte(data),
            ),
    {
        let (lo, hi) = split_word(data);
        self.mem_write(pos, lo);
        self.mem_write(pos.wrapping_add(1), hi);
    }
}

} // verus!

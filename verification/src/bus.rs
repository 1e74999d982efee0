//! The bus that will sit between the CPU and the rest of the console. For now
//! it maps the 2 KiB of CPU RAM, mirrored four times over `0x0000..=0x1FFF`.

use crate::cpu::mem::Mem;
use vstd::prelude::*;

verus! {

/// Last address of the mirrored CPU RAM region, which starts at `0x0000`.
pub const RAM_MIRRORS_END: u16 = 0x1FFF;

/// The bits of an address in the RAM region that select a byte of the RAM.
pub const RAM_ADDRESS_BITS: u16 = 0x07FF;

/// The console's bus.
///
/// Memory map of the NES:
/// * RAM - `0x0000 ..= 0x1FFF`
/// * PPU, APU, game pads and so on - `0x2000 ..= 0x401F`
/// * Cartridge space - `0x4020 ..= 0xFFFF`
///
/// Only the RAM is mapped. A read of any other address gives 0, and a write
/// to one is ignored.
pub struct Bus {
    pub cpu_vram: [u8; 2048],
}

/// Whether `addr` falls into the mirrored RAM region.
pub open spec fn in_ram(addr: u16) -> bool {
    addr <= RAM_MIRRORS_END
}

/// The RAM cell that `addr`, an address of the RAM region, folds to.
pub open spec fn ram_cell(addr: u16) -> int {
    addr as int % 2048
}

impl View for Bus {
    type V = Seq<u8>;

    /// The 2048 bytes of RAM.
    open spec fn view(&self) -> Seq<u8> {
        self.cpu_vram@
    }
}

impl Bus {
    /// A bus whose RAM is all zero.
    pub fn new() -> (bus: Self)
        ensures
            bus@ == Seq::new(2048, |i: int| 0u8),
    {
        Self { cpu_vram: [0; 2048] }
    }
}

impl Default for Bus {
    fn default() -> (bus: Self)
        ensures
            bus@ == Seq::new(2048, |i: int| 0u8),
    {
        Self::new()
    }
}

impl Mem for Bus {
    open spec fn peek(&self, addr: u16) -> u8 {
        if in_ram(addr) {
            self@[ram_cell(addr)]
        } else {
            0
        }
    }

    open spec fn poke(&self, addr: u16, data: u8) -> Self {
        if in_ram(addr) {
            Bus { cpu_vram: vstd::array::spec_array_update(self.cpu_vram, ram_cell(addr), data) }
        } else {
            *self
        }
    }

    fn mem_read(&self, addr: u16) -> (data: u8) {
        if addr <= RAM_MIRRORS_END {
            let cell = addr & RAM_ADDRESS_BITS;
            assert(addr & 0x07FF == addr % 2048) by (bit_vector);
            self.cpu_vram[cell as usize]
        } else {
            0
        }
    }

    fn mem_write(&mut self, addr: u16, data: u8) {
        if addr <= RAM_MIRRORS_END {
            let cell = addr & RAM_ADDRESS_BITS;
            assert(addr & 0x07FF == addr % 2048) by (bit_vector);
            self.cpu_vram[cell as usize] = data;
        }
    }
}

/// A byte written to the bus is read back from the address it was written
/// to and from each mirror of that address, and from nowhere else. A write
/// outside the RAM region changes no read.
pub proof fn lemma_write_then_read(bus: Bus, addr: u16, data: u8, other: u16)
    ensures
        bus.poke(addr, data).peek(other) == if in_ram(addr) && in_ram(other) && ram_cell(addr)
            == ram_cell(other) {
            data
        } else {
            bus.peek(other)
        },
{
}

} // verus!

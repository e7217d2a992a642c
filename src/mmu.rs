//! The flat 64 KiB memory bus.

use vstd::prelude::*;

verus! {

/// Number of addressable bytes.
pub const MEMORY_SIZE: usize = 0x10000;

/// A flat byte array covering addresses 0x0000 to 0xFFFF.
pub struct MemoryBus {
    pub ram: [u8; MEMORY_SIZE],
}

impl MemoryBus {
    /// A bus with every byte set to 0xFF.
    pub fn new() -> (r: Self)
        ensures
            r.ram@.len() == MEMORY_SIZE,
            forall|i: int| 0 <= i < MEMORY_SIZE ==> r.ram@[i] == 0xFF,
    {
        Self { ram: [0xFF;MEMORY_SIZE] }
    }

    /// Copies `rom_file` into memory starting at `address`.
    pub fn copy_to_ram(&mut self, address: u16, rom_file: &[u8])
        requires
            address + rom_file@.len() <= MEMORY_SIZE,
        ensures
            final(self).ram@.len() == MEMORY_SIZE,
            forall|i: int|
                0 <= i < MEMORY_SIZE ==> #[trigger] final(self).ram@[i] == if address <= i
                    < address + rom_file@.len() {
                    rom_file@[i - address]
                } else {
                    old(self).ram@[i]
                },
    {
        let start = address as usize;
        let mut k: usize = 0;
        while k < rom_file.len()
            invariant
                start == address,
                start + rom_file@.len() <= MEMORY_SIZE,
                k <= rom_file@.len(),
                self.ram@.len() == MEMORY_SIZE,
                forall|i: int|
                    0 <= i < MEMORY_SIZE ==> #[trigger] self.ram@[i] == if start <= i < start + k {
                        rom_file@[i - start]
                    } else {
                        old(self).ram@[i]
                    },
            decreases rom_file@.len() - k,
        {
            self.ram[start + k] = rom_file[k];
            k = k + 1;
        }
    }

    pub fn read_byte(&self, address: u16) -> (r: u8)
        ensures
            r == self.ram@[address as int],
    {
        self.ram[address as usize]
    }

    pub fn write_byte(&mut self, address: u16, data: u8)
        ensures
            final(self).ram@ == old(self).ram@.update(address as int, data),
    {
        self.ram[address as usize] = data;
    }
}

} // verus!

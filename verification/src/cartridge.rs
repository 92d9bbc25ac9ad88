//! The cartridge buffer: the raw program bytes a host hands to the
//! machine's load operation, held in a fixed 3584-byte buffer (the space
//! above the program start address).

use vstd::prelude::*;

verus! {

/// Size of the cartridge buffer: the address space above the program start.
pub const CARTRIDGE_BYTES: usize = 3584;

/// A cartridge: a zero-padded fixed buffer of program bytes and the number
/// of bytes actually taken.
pub struct CartridgeDriver {
    pub rom: Vec<u8>,
    pub size: usize,
}

impl CartridgeDriver {
    /// Build a cartridge from raw bytes; anything past the buffer size is
    /// dropped, and the rest of the buffer is zero.
    pub fn from_bytes(data: &[u8]) -> (c: CartridgeDriver)
        ensures
            c.rom@.len() == CARTRIDGE_BYTES,
            c.size <= CARTRIDGE_BYTES,
            c.size == if data@.len() < CARTRIDGE_BYTES { data@.len() as int } else {
                CARTRIDGE_BYTES as int
            },
            forall|k: int| 0 <= k < c.size ==> c.rom@[k] == data@[k],
            forall|k: int| c.size <= k < CARTRIDGE_BYTES ==> c.rom@[k] == 0u8,
    {
        let mut rom: Vec<u8> = Vec::new();
        let size = if data.len() < 3584 {
            data.len()
        } else {
            3584
        };
        let mut k: usize = 0;
        while k < size
            invariant
                size <= data@.len(),
                size <= 3584,
                k <= size,
                rom@.len() == k,
                forall|j: int| 0 <= j < k ==> rom@[j] == data@[j],
            decreases size - k,
        {
            rom.push(data[k]);
            k = k + 1;
        }
        while k < 3584
            invariant
                size <= 3584,
                size <= k <= 3584,
                rom@.len() == k,
                forall|j: int| 0 <= j < size ==> rom@[j] == data@[j],
                forall|j: int| size <= j < k ==> rom@[j] == 0u8,
            decreases 3584 - k,
        {
            rom.push(0);
            k = k + 1;
        }
        CartridgeDriver { rom: rom, size: size }
    }
}

} // verus!

//! Construction of the flat, zero-initialized buffers the machine runs on.

use vstd::prelude::*;

verus! {

/// A fixed-size, byte-addressable memory image, every cell zero.
pub fn create_memory(size: usize) -> (memory: Vec<u8>)
    ensures
        memory@.len() == size,
        forall|i: int| 0 <= i < size ==> memory@[i] == 0u8,
{
    let mut memory: Vec<u8> = Vec::new();
    let mut filled: usize = 0;
    while filled < size
        invariant
            filled <= size,
            memory@.len() == filled,
            forall|i: int| 0 <= i < filled ==> memory@[i] == 0u8,
        decreases size - filled,
    {
        memory.push(0);
        filled = filled + 1;
    }
    memory
}

/// A register file of the given size, every cell zero.
pub fn create_registers(size: usize) -> (registers: Vec<u16>)
    ensures
        registers@.len() == size,
        forall|i: int| 0 <= i < size ==> registers@[i] == 0u16,
{
    let mut registers: Vec<u16> = Vec::new();
    let mut filled: usize = 0;
    while filled < size
        invariant
            filled <= size,
            registers@.len() == filled,
            forall|i: int| 0 <= i < filled ==> registers@[i] == 0u16,
        decreases size - filled,
    {
        registers.push(0);
        filled = filled + 1;
    }
    registers
}

} // verus!

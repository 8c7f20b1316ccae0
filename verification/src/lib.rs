//! A verified 16-bit register virtual machine: a byte-addressable memory,
//! a fixed register file, a closed instruction set with a one-byte opcode
//! encoding, and a fetch/decode/execute engine with a stack and a
//! call-frame save/restore protocol.

pub mod cpu;
pub mod create_memory;
pub mod demo;
pub mod instructions;
pub mod laws;
pub mod semantics;

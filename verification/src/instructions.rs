//! The closed instruction set and its one-byte opcode encoding.
//!
//! Decode and encode are two views of one bijection between the opcode bytes
//! and the instruction tags, and the lemmas at the bottom prove it.

use vstd::prelude::*;

use crate::semantics::CpuError;

verus! {

/// The instructions the machine executes. Each one is encoded as a one-byte
/// opcode tag followed by its fixed-width operands; no encoding is
/// variable-length.
#[derive(Clone, Copy, Debug, PartialEq, Eq, Structural)]
pub enum Instruction {
    /// 16-bit literal, register index: set the register to the literal.
    MoveLiteralToRegister,
    /// Source index, destination index: copy one register into another.
    MoveRegisterToRegister,
    /// Register index, 16-bit address: store the register into memory.
    MoveRegisterToMemory,
    /// 16-bit address, register index: load the register from memory.
    MoveMemoryToRegister,
    /// Two register indices: their sum, modulo 65536, goes to `Acc`.
    AddRegisterToRegister,
    /// 16-bit value, 16-bit address: jump there unless `Acc` equals the value.
    JumpNotEq,
    /// 16-bit literal: push it onto the stack.
    PushLiteral,
    /// Register index: push that register's value.
    PushRegister,
    /// Register index: pop the top of the stack into that register.
    Pop,
    /// 16-bit address: save the machine state, then jump there.
    CallLiteral,
    /// Register index: save the machine state, then jump to the address the
    /// register holds.
    CallRegister,
    /// Restore the machine state saved by the matching call.
    Return,
}

/// The instruction an opcode byte decodes to, or `InvalidOpcode` for a byte
/// outside the table.
pub open spec fn spec_decode(byte: u8) -> Result<Instruction, CpuError> {
    if byte == 0x10 {
        Ok(Instruction::MoveLiteralToRegister)
    } else if byte == 0x11 {
        Ok(Instruction::MoveRegisterToRegister)
    } else if byte == 0x12 {
        Ok(Instruction::MoveRegisterToMemory)
    } else if byte == 0x13 {
        Ok(Instruction::MoveMemoryToRegister)
    } else if byte == 0x14 {
        Ok(Instruction::AddRegisterToRegister)
    } else if byte == 0x15 {
        Ok(Instruction::JumpNotEq)
    } else if byte == 0x16 {
        Ok(Instruction::PushLiteral)
    } else if byte == 0x17 {
        Ok(Instruction::PushRegister)
    } else if byte == 0x18 {
        Ok(Instruction::Pop)
    } else if byte == 0x19 {
        Ok(Instruction::CallLiteral)
    } else if byte == 0x1A {
        Ok(Instruction::CallRegister)
    } else if byte == 0x1B {
        Ok(Instruction::Return)
    } else {
        Err(CpuError::InvalidOpcode)
    }
}

/// The opcode byte of each instruction; the inverse of `spec_decode`.
pub open spec fn spec_encode(instruction: Instruction) -> u8 {
    match instruction {
        Instruction::MoveLiteralToRegister => 0x10,
        Instruction::MoveRegisterToRegister => 0x11,
        Instruction::MoveRegisterToMemory => 0x12,
        Instruction::MoveMemoryToRegister => 0x13,
        Instruction::AddRegisterToRegister => 0x14,
        Instruction::JumpNotEq => 0x15,
        Instruction::PushLiteral => 0x16,
        Instruction::PushRegister => 0x17,
        Instruction::Pop => 0x18,
        Instruction::CallLiteral => 0x19,
        Instruction::CallRegister => 0x1A,
        Instruction::Return => 0x1B,
    }
}

impl Instruction {
    /// Decodes one opcode byte, failing on any byte outside the table.
    pub fn from_byte(byte: u8) -> (r: Result<Instruction, CpuError>)
        ensures
            r == spec_decode(byte),
    {
        if byte == 0x10 {
            Ok(Instruction::MoveLiteralToRegister)
        } else if byte == 0x11 {
            Ok(Instruction::MoveRegisterToRegister)
        } else if byte == 0x12 {
            Ok(Instruction::MoveRegisterToMemory)
        } else if byte == 0x13 {
            Ok(Instruction::MoveMemoryToRegister)
        } else if byte == 0x14 {
            Ok(Instruction::AddRegisterToRegister)
        } else if byte == 0x15 {
            Ok(Instruction::JumpNotEq)
        } else if byte == 0x16 {
            Ok(Instruction::PushLiteral)
        } else if byte == 0x17 {
            Ok(Instruction::PushRegister)
        } else if byte == 0x18 {
            Ok(Instruction::Pop)
        } else if byte == 0x19 {
            Ok(Instruction::CallLiteral)
        } else if byte == 0x1A {
            Ok(Instruction::CallRegister)
        } else if byte == 0x1B {
            Ok(Instruction::Return)
        } else {
            Err(CpuError::InvalidOpcode)
        }
    }

    /// Encodes the instruction back to its opcode byte, for anything that
    /// emits code.
    pub fn to_byte(self) -> (b: u8)
        ensures
            b == spec_encode(self),
    {
        match self {
            Instruction::MoveLiteralToRegister => 0x10,
            Instruction::MoveRegisterToRegister => 0x11,
            Instruction::MoveRegisterToMemory => 0x12,
            Instruction::MoveMemoryToRegister => 0x13,
            Instruction::AddRegisterToRegister => 0x14,
            Instruction::JumpNotEq => 0x15,
            Instruction::PushLiteral => 0x16,
            Instruction::PushRegister => 0x17,
            Instruction::Pop => 0x18,
            Instruction::CallLiteral => 0x19,
            Instruction::CallRegister => 0x1A,
            Instruction::Return => 0x1B,
        }
    }
}

/// Law: decoding an instruction's own opcode byte gives that instruction
/// back, so encode followed by decode is the identity.
pub proof fn lemma_encode_then_decode(instruction: Instruction)
    ensures
        spec_decode(spec_encode(instruction)) == Ok::<Instruction, CpuError>(instruction),
{
}

/// Law: any byte that decodes at all decodes to an instruction whose
/// encoding is that same byte, so decode followed by encode is the identity
/// on the mapped bytes; together with `lemma_encode_then_decode` the two
/// functions form a bijection.
pub proof fn lemma_decode_then_encode(byte: u8)
    ensures
        spec_decode(byte) matches Ok(instruction) ==> spec_encode(instruction) == byte,
        spec_decode(byte) is Err <==> !(0x10 <= byte <= 0x1B),
        spec_decode(byte) is Err ==> spec_decode(byte) == Err::<Instruction, CpuError>(
            CpuError::InvalidOpcode,
        ),
{
}

} // verus!

//! A complete demonstration program for the machine, and a driver that runs
//! it: the caller stacks three literals and an argument count, calls a
//! subroutine that disturbs the general-purpose registers, and returns —
//! exercising the whole call-frame save/restore protocol end to end.

use vstd::prelude::*;

use crate::cpu::Cpu;
use crate::create_memory::create_memory;
use crate::instructions::Instruction;
use crate::semantics::{read_reg, spec_run, CpuError, MachineState, RegisterName};

verus! {

/// Where the demonstration subroutine starts in memory.
pub const SUBROUTINE_ADDRESS: usize = 0x3000;

/// The demonstration program as a memory image: a full 16-bit address space
/// of zeroes with the caller's code at address 0 and the subroutine's at
/// `SUBROUTINE_ADDRESS`.
pub open spec fn demo_image() -> Seq<u8> {
    Seq::new(0x10000, |i: int| 0u8)
        .update(0, 0x16).update(1, 0x33).update(2, 0x33)
        .update(3, 0x16).update(4, 0x22).update(5, 0x22)
        .update(6, 0x16).update(7, 0x11).update(8, 0x11)
        .update(9, 0x10).update(10, 0x12).update(11, 0x34).update(12, 0x02)
        .update(13, 0x10).update(14, 0x56).update(15, 0x78).update(16, 0x05)
        .update(17, 0x16).update(18, 0x00).update(19, 0x00)
        .update(20, 0x19).update(21, 0x30).update(22, 0x00)
        .update(23, 0x16).update(24, 0x44).update(25, 0x44)
        .update(0x3000, 0x16).update(0x3001, 0x01).update(0x3002, 0x02)
        .update(0x3003, 0x16).update(0x3004, 0x03).update(0x3005, 0x04)
        .update(0x3006, 0x16).update(0x3007, 0x05).update(0x3008, 0x06)
        .update(0x3009, 0x10).update(0x300A, 0x07).update(0x300B, 0x08).update(0x300C, 0x02)
        .update(0x300D, 0x10).update(0x300E, 0x09).update(0x300F, 0x0A).update(0x3010, 0x09)
        .update(0x3011, 0x1B)
}

/// The demonstration machine's starting state: the image above, every
/// register zero but `Sp` and `Fp` at the last complete 16-bit slot, and no
/// bytes yet counted against a frame.
pub open spec fn demo_start() -> MachineState {
    MachineState {
        regs: seq![0u16, 0, 0, 0, 0, 0, 0, 0, 0, 0, 0xFFFE, 0xFFFE],
        mem: demo_image(),
        frame: 0,
    }
}

/// Builds the demonstration program in a fresh full-address-space memory.
///
/// The caller pushes 0x3333, 0x2222 and 0x1111, sets `R1` to 0x1234 and
/// `R4` to 0x5678, pushes an argument count of 0, and calls the subroutine;
/// the subroutine pushes three more literals, overwrites `R1` and `R8`, and
/// returns; the caller then pushes one last literal and runs off into
/// unmapped zero bytes.
pub fn demo_memory() -> (memory: Vec<u8>)
    ensures
        memory@ == demo_image(),
{
    let mut memory = create_memory(0x10000);
    let r1: u8 = 2;
    let r4: u8 = 5;
    let r8: u8 = 9;

    memory.set(0, Instruction::PushLiteral.to_byte());
    memory.set(1, 0x33);
    memory.set(2, 0x33);
    memory.set(3, Instruction::PushLiteral.to_byte());
    memory.set(4, 0x22);
    memory.set(5, 0x22);
    memory.set(6, Instruction::PushLiteral.to_byte());
    memory.set(7, 0x11);
    memory.set(8, 0x11);
    memory.set(9, Instruction::MoveLiteralToRegister.to_byte());
    memory.set(10, 0x12);
    memory.set(11, 0x34);
    memory.set(12, r1);
    memory.set(13, Instruction::MoveLiteralToRegister.to_byte());
    memory.set(14, 0x56);
    memory.set(15, 0x78);
    memory.set(16, r4);
    memory.set(17, Instruction::PushLiteral.to_byte());
    memory.set(18, 0x00);
    memory.set(19, 0x00);
    memory.set(20, Instruction::CallLiteral.to_byte());
    memory.set(21, 0x30);
    memory.set(22, 0x00);
    memory.set(23, Instruction::PushLiteral.to_byte());
    memory.set(24, 0x44);
    memory.set(25, 0x44);

    memory.set(SUBROUTINE_ADDRESS, Instruction::PushLiteral.to_byte());
    memory.set(SUBROUTINE_ADDRESS + 1, 0x01);
    memory.set(SUBROUTINE_ADDRESS + 2, 0x02);
    memory.set(SUBROUTINE_ADDRESS + 3, Instruction::PushLiteral.to_byte());
    memory.set(SUBROUTINE_ADDRESS + 4, 0x03);
    memory.set(SUBROUTINE_ADDRESS + 5, 0x04);
    memory.set(SUBROUTINE_ADDRESS + 6, Instruction::PushLiteral.to_byte());
    memory.set(SUBROUTINE_ADDRESS + 7, 0x05);
    memory.set(SUBROUTINE_ADDRESS + 8, 0x06);
    memory.set(SUBROUTINE_ADDRESS + 9, Instruction::MoveLiteralToRegister.to_byte());
    memory.set(SUBROUTINE_ADDRESS + 10, 0x07);
    memory.set(SUBROUTINE_ADDRESS + 11, 0x08);
    memory.set(SUBROUTINE_ADDRESS + 12, r1);
    memory.set(SUBROUTINE_ADDRESS + 13, Instruction::MoveLiteralToRegister.to_byte());
    memory.set(SUBROUTINE_ADDRESS + 14, 0x09);
    memory.set(SUBROUTINE_ADDRESS + 15, 0x0A);
    memory.set(SUBROUTINE_ADDRESS + 16, r8);
    memory.set(SUBROUTINE_ADDRESS + 17, Instruction::Return.to_byte());

    proof {
        assert(memory@ =~= demo_image());
    }
    memory
}

/// Assembles the demonstration program into a fresh machine and drives it,
/// one step at a time, until a step fails or the step budget runs out; the
/// first failure, if any, is returned. The interactive pauses and state
/// printing of a manual session belong to the surrounding program, not
/// here: this is exactly the machine's own part of that run.
#[verifier::loop_isolation(false)]
pub fn test_cpu() -> (r: Result<(), CpuError>)
    ensures
        r == spec_run(demo_start(), 64).1,
{
    let memory = demo_memory();
    let mut cpu = Cpu::new(memory);
    proof {
        assert(read_reg(cpu@, RegisterName::Ip) == 0);
        assert(read_reg(cpu@, RegisterName::Acc) == 0);
        assert(read_reg(cpu@, RegisterName::R1) == 0);
        assert(read_reg(cpu@, RegisterName::R2) == 0);
        assert(read_reg(cpu@, RegisterName::R3) == 0);
        assert(read_reg(cpu@, RegisterName::R4) == 0);
        assert(read_reg(cpu@, RegisterName::R5) == 0);
        assert(read_reg(cpu@, RegisterName::R6) == 0);
        assert(read_reg(cpu@, RegisterName::R7) == 0);
        assert(read_reg(cpu@, RegisterName::R8) == 0);
        assert(read_reg(cpu@, RegisterName::Sp) == 0xFFFE);
        assert(read_reg(cpu@, RegisterName::Fp) == 0xFFFE);
        assert(cpu@.regs =~= demo_start().regs);
        assert(cpu@ == demo_start());
    }
    let mut remaining: usize = 64;
    while remaining > 0
        invariant
            cpu.wf(),
            spec_run(demo_start(), 64) == spec_run(cpu@, remaining as nat),
        decreases remaining,
    {
        if let Err(e) = cpu.step() {
            return Err(e);
        }
        remaining = remaining - 1;
    }
    Ok(())
}

} // verus!

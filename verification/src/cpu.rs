//! The executable machine: a register file, an exclusively owned memory
//! image, and the fetch/decode/execute engine.
//!
//! Every method's contract equates its outcome with the corresponding spec
//! transition of `crate::semantics`, so the engine provably implements the
//! mathematical step function.

use vstd::prelude::*;

use crate::create_memory::create_registers;
use crate::instructions::Instruction;
use crate::semantics::{
    read_reg, reg_index_spec,
    spec_exec_add_register_to_register, spec_exec_call_literal, spec_exec_call_register,
    spec_exec_jump_not_eq, spec_exec_move_literal_to_register, spec_exec_move_memory_to_register,
    spec_exec_move_register_to_memory, spec_exec_move_register_to_register, spec_exec_pop,
    spec_exec_push_literal, spec_exec_push_register, spec_execute, spec_fetch, spec_fetch16,
    spec_fetch_register_index, spec_pop, spec_pop_n, spec_pop_state, spec_push, spec_push_state,
    spec_read16, spec_register_name, spec_step, spec_write16, state_wf, write_reg, CpuError,
    MachineState, RegisterName, NUM_REGISTERS,
};

verus! {

/// The machine: the register file, the memory image it exclusively owns, and
/// the running count of bytes pushed since the last call frame was opened.
pub struct Cpu {
    pub registers: Vec<u16>,
    pub memory: Vec<u8>,
    pub stack_frame_size: u16,
}

impl View for Cpu {
    type V = MachineState;

    open spec fn view(&self) -> MachineState {
        MachineState {
            regs: self.registers@,
            mem: self.memory@,
            frame: self.stack_frame_size,
        }
    }
}

/// The index of a named register in the register file.
pub fn register_index(name: RegisterName) -> (i: usize)
    ensures
        i == reg_index_spec(name),
        i < NUM_REGISTERS,
{
    match name {
        RegisterName::Ip => 0,
        RegisterName::Acc => 1,
        RegisterName::R1 => 2,
        RegisterName::R2 => 3,
        RegisterName::R3 => 4,
        RegisterName::R4 => 5,
        RegisterName::R5 => 6,
        RegisterName::R6 => 7,
        RegisterName::R7 => 8,
        RegisterName::R8 => 9,
        RegisterName::Sp => 10,
        RegisterName::Fp => 11,
    }
}

impl Cpu {
    /// Well-formedness: a full register file and a memory that fits the
    /// 16-bit address space. Established by `new`, preserved by every
    /// operation.
    pub open spec fn wf(&self) -> bool {
        state_wf(self@)
    }

    /// A fresh machine over the given zero-based memory image. Registers
    /// start at zero, except `Sp` and `Fp`, which point at the last complete
    /// 16-bit slot of memory; the stack grows downward from there.
    pub fn new(memory: Vec<u8>) -> (cpu: Cpu)
        requires
            2 <= memory@.len() <= 0x10000,
        ensures
            cpu.wf(),
            cpu@.mem == memory@,
            cpu@.frame == 0,
            forall|name: RegisterName|
                read_reg(cpu@, name) == if name == RegisterName::Sp || name == RegisterName::Fp {
                    (memory@.len() - 2) as u16
                } else {
                    0u16
                },
    {
        let mut registers: Vec<u16> = create_registers(NUM_REGISTERS);
        let top: u16 = (memory.len() - 2) as u16;
        registers.set(10, top);
        registers.set(11, top);
        let cpu = Cpu { registers, memory, stack_frame_size: 0 };
        proof {
            assert forall|name: RegisterName|
                read_reg(cpu@, name) == if name == RegisterName::Sp || name == RegisterName::Fp {
                    (cpu@.mem.len() - 2) as u16
                } else {
                    0u16
                } by {
                let i = reg_index_spec(name);
                assert(0 <= i < 12);
            }
        }
        cpu
    }

    /// The current value of a named register. With the closed register enum
    /// every name resolves, so this always succeeds, and the distinct
    /// error kinds for unmapped names stay unreachable.
    pub fn get_register(&self, name: RegisterName) -> (r: Result<u16, CpuError>)
        requires
            self.wf(),
        ensures
            r == Ok::<u16, CpuError>(read_reg(self@, name)),
    {
        let i = register_index(name);
        Ok(self.registers[i])
    }

    /// Sets a named register. Always succeeds, for the same reason as
    /// `get_register`.
    pub fn set_register(&mut self, name: RegisterName, value: u16) -> (r: Result<(), CpuError>)
        requires
            old(self).wf(),
        ensures
            final(self).wf(),
            final(self)@ == write_reg(old(self)@, name, value),
            r == Ok::<(), CpuError>(()),
    {
        let i = register_index(name);
        self.registers.set(i, value);
        Ok(())
    }

    /// The register at a numeric index, for index-addressed operands;
    /// defensive, since decoded indices arrive already reduced modulo the
    /// register count.
    pub fn get_register_name(&self, register_index: u8) -> (r: Result<RegisterName, CpuError>)
        ensures
            r == spec_register_name(register_index),
            register_index < 12 ==> (r matches Ok(name) && reg_index_spec(name)
                == register_index as int),
    {
        let name = if register_index == 0 {
            RegisterName::Ip
        } else if register_index == 1 {
            RegisterName::Acc
        } else if register_index == 2 {
            RegisterName::R1
        } else if register_index == 3 {
            RegisterName::R2
        } else if register_index == 4 {
            RegisterName::R3
        } else if register_index == 5 {
            RegisterName::R4
        } else if register_index == 6 {
            RegisterName::R5
        } else if register_index == 7 {
            RegisterName::R6
        } else if register_index == 8 {
            RegisterName::R7
        } else if register_index == 9 {
            RegisterName::R8
        } else if register_index == 10 {
            RegisterName::Sp
        } else if register_index == 11 {
            RegisterName::Fp
        } else {
            return Err(CpuError::RegisterIndexOutOfRange);
        };
        Ok(name)
    }

    /// The big-endian 16-bit value at the given memory address; an error if
    /// the address or its successor lies outside memory.
    pub fn get_memory_16(&self, address: u16) -> (r: Result<u16, CpuError>)
        requires
            self.wf(),
        ensures
            r == spec_read16(self@, address),
    {
        if address as usize + 1 >= self.memory.len() {
            return Err(CpuError::MemoryAddressOutOfRange);
        }
        let hi = self.memory[address as usize];
        let lo = self.memory[address as usize + 1];
        Ok(hi as u16 * 256 + lo as u16)
    }

    /// Writes a 16-bit value at the given memory address, big-endian; an
    /// error, with nothing written, if the two bytes do not both fit.
    pub fn set_memory16(&mut self, address: u16, value: u16) -> (r: Result<(), CpuError>)
        requires
            old(self).wf(),
        ensures
            final(self).wf(),
            final(self)@ == spec_write16(old(self)@, address, value).0,
            r == spec_write16(old(self)@, address, value).1,
    {
        if address as usize + 1 >= self.memory.len() {
            return Err(CpuError::MemoryAddressOutOfRange);
        }
        let hi: u8 = (value / 256) as u8;
        let lo: u8 = (value % 256) as u8;
        self.memory.set(address as usize, hi);
        self.memory.set(address as usize + 1, lo);
        Ok(())
    }

    /// Fetches the byte at `Ip` and advances `Ip` by 1. Advancing past the
    /// 16-bit address space is a checked error before any change; a read
    /// outside memory fails with `Ip` already advanced, since a step does
    /// not roll back.
    pub fn fetch(&mut self) -> (r: Result<u8, CpuError>)
        requires
            old(self).wf(),
        ensures
            final(self).wf(),
            final(self)@ == spec_fetch(old(self)@).0,
            r == spec_fetch(old(self)@).1,
    {
        let ip = match self.get_register(RegisterName::Ip) {
            Ok(v) => v,
            Err(e) => return Err(e),
        };
        if ip == 0xFFFF {
            return Err(CpuError::MemoryAddressOutOfRange);
        }
        let set = self.set_register(RegisterName::Ip, ip + 1);
        if let Err(e) = set {
            return Err(e);
        }
        if ip as usize >= self.memory.len() {
            return Err(CpuError::MemoryAddressOutOfRange);
        }
        Ok(self.memory[ip as usize])
    }

    /// Fetches a big-endian 16-bit operand at `Ip` and advances `Ip` by 2
    /// (before the read, as with `fetch`).
    pub fn fetch16(&mut self) -> (r: Result<u16, CpuError>)
        requires
            old(self).wf(),
        ensures
            final(self).wf(),
            final(self)@ == spec_fetch16(old(self)@).0,
            r == spec_fetch16(old(self)@).1,
    {
        let ip = match self.get_register(RegisterName::Ip) {
            Ok(v) => v,
            Err(e) => return Err(e),
        };
        if ip >= 0xFFFE {
            return Err(CpuError::MemoryAddressOutOfRange);
        }
        let set = self.set_register(RegisterName::Ip, ip + 2);
        if let Err(e) = set {
            return Err(e);
        }
        self.get_memory_16(ip)
    }

    /// Fetches a register-index operand: one byte, reduced modulo the
    /// register count, so every byte value aliases onto some register.
    pub fn fetch_register_index(&mut self) -> (r: Result<u8, CpuError>)
        requires
            old(self).wf(),
        ensures
            final(self).wf(),
            final(self)@ == spec_fetch_register_index(old(self)@).0,
            r == spec_fetch_register_index(old(self)@).1,
            r matches Ok(index) ==> index < 12,
    {
        let byte = match self.fetch() {
            Ok(b) => b,
            Err(e) => return Err(e),
        };
        Ok(byte % 12)
    }

    /// Pushes a 16-bit value: writes it at `Sp`, moves `Sp` down by 2, and
    /// counts the two bytes in the frame counter. Pushing with `Sp` at the
    /// bottom of the address space, or with the counter at its ceiling, is a
    /// stack overflow.
    pub fn push(&mut self, value: u16) -> (r: Result<(), CpuError>)
        requires
            old(self).wf(),
        ensures
            final(self).wf(),
            final(self)@ == spec_push(old(self)@, value).0,
            r == spec_push(old(self)@, value).1,
    {
        let sp = match self.get_register(RegisterName::Sp) {
            Ok(v) => v,
            Err(e) => return Err(e),
        };
        if sp < 2 || self.stack_frame_size > 0xFFFD {
            return Err(CpuError::StackOverflow);
        }
        let written = self.set_memory16(sp, value);
        if let Err(e) = written {
            return Err(e);
        }
        let set = self.set_register(RegisterName::Sp, sp - 2);
        if let Err(e) = set {
            return Err(e);
        }
        self.stack_frame_size = self.stack_frame_size + 2;
        Ok(())
    }

    /// Pops a 16-bit value: moves `Sp` up by 2 and reads the word there.
    /// Popping with `Sp` at or above its initial top-of-memory slot is a
    /// stack underflow; the frame counter loses the two bytes, stopping at
    /// zero.
    pub fn pop(&mut self) -> (r: Result<u16, CpuError>)
        requires
            old(self).wf(),
        ensures
            final(self).wf(),
            final(self)@ == spec_pop(old(self)@).0,
            r == spec_pop(old(self)@).1,
    {
        let sp = match self.get_register(RegisterName::Sp) {
            Ok(v) => v,
            Err(e) => return Err(e),
        };
        if sp as usize + 2 >= self.memory.len() {
            return Err(CpuError::StackUnderflow);
        }
        let next = sp + 2;
        let set = self.set_register(RegisterName::Sp, next);
        if let Err(e) = set {
            return Err(e);
        }
        self.stack_frame_size = if self.stack_frame_size >= 2 {
            self.stack_frame_size - 2
        } else {
            0
        };
        self.get_memory_16(next)
    }

    /// Saves the machine state for a call: pushes `R1` through `R8`, the
    /// return address in `Ip`, then the frame-byte counter plus 2 (the slot
    /// about to hold the counter counts too); then `Fp` marks the completed
    /// save and the counter restarts at 0 for the callee.
    pub fn push_state(&mut self) -> (r: Result<(), CpuError>)
        requires
            old(self).wf(),
        ensures
            final(self).wf(),
            final(self)@ == spec_push_state(old(self)@).0,
            r == spec_push_state(old(self)@).1,
    {
        let value = match self.get_register(RegisterName::R1) {
            Ok(v) => v,
            Err(e) => return Err(e),
        };
        if let Err(e) = self.push(value) {
            return Err(e);
        }
        let value = match self.get_register(RegisterName::R2) {
            Ok(v) => v,
            Err(e) => return Err(e),
        };
        if let Err(e) = self.push(value) {
            return Err(e);
        }
        let value = match self.get_register(RegisterName::R3) {
            Ok(v) => v,
            Err(e) => return Err(e),
        };
        if let Err(e) = self.push(value) {
            return Err(e);
        }
        let value = match self.get_register(RegisterName::R4) {
            Ok(v) => v,
            Err(e) => return Err(e),
        };
        if let Err(e) = self.push(value) {
            return Err(e);
        }
        let value = match self.get_register(RegisterName::R5) {
            Ok(v) => v,
            Err(e) => return Err(e),
        };
        if let Err(e) = self.push(value) {
            return Err(e);
        }
        let value = match self.get_register(RegisterName::R6) {
            Ok(v) => v,
            Err(e) => return Err(e),
        };
        if let Err(e) = self.push(value) {
            return Err(e);
        }
        let value = match self.get_register(RegisterName::R7) {
            Ok(v) => v,
            Err(e) => return Err(e),
        };
        if let Err(e) = self.push(value) {
            return Err(e);
        }
        let value = match self.get_register(RegisterName::R8) {
            Ok(v) => v,
            Err(e) => return Err(e),
        };
        if let Err(e) = self.push(value) {
            return Err(e);
        }
        let value = match self.get_register(RegisterName::Ip) {
            Ok(v) => v,
            Err(e) => return Err(e),
        };
        if let Err(e) = self.push(value) {
            return Err(e);
        }
        let counter = self.stack_frame_size;
        if counter > 0xFFFD {
            // The push below would overflow the stack in any case: its slot
            // could no longer be counted.
            return Err(CpuError::StackOverflow);
        }
        if let Err(e) = self.push(counter + 2) {
            return Err(e);
        }
        let sp = match self.get_register(RegisterName::Sp) {
            Ok(v) => v,
            Err(e) => return Err(e),
        };
        if let Err(e) = self.set_register(RegisterName::Fp, sp) {
            return Err(e);
        }
        self.stack_frame_size = 0;
        Ok(())
    }

    /// Restores the machine state for a return: discards everything the
    /// callee left above the saved frame, pops the frame-size counter, the
    /// return address into `Ip`, `R8` back down to `R1`, then the count of
    /// caller-pushed argument slots and that many discarded values, and
    /// finally moves `Fp` up by the frame size.
    #[verifier::loop_isolation(false)]
    pub fn pop_state(&mut self) -> (r: Result<(), CpuError>)
        requires
            old(self).wf(),
        ensures
            final(self).wf(),
            final(self)@ == spec_pop_state(old(self)@).0,
            r == spec_pop_state(old(self)@).1,
    {
        let fp = match self.get_register(RegisterName::Fp) {
            Ok(v) => v,
            Err(e) => return Err(e),
        };
        if let Err(e) = self.set_register(RegisterName::Sp, fp) {
            return Err(e);
        }
        let frame_size = match self.pop() {
            Ok(v) => v,
            Err(e) => return Err(e),
        };
        self.stack_frame_size = frame_size;
        let value = match self.pop() {
            Ok(v) => v,
            Err(e) => return Err(e),
        };
        if let Err(e) = self.set_register(RegisterName::Ip, value) {
            return Err(e);
        }
        let value = match self.pop() {
            Ok(v) => v,
            Err(e) => return Err(e),
        };
        if let Err(e) = self.set_register(RegisterName::R8, value) {
            return Err(e);
        }
        let value = match self.pop() {
            Ok(v) => v,
            Err(e) => return Err(e),
        };
        if let Err(e) = self.set_register(RegisterName::R7, value) {
            return Err(e);
        }
        let value = match self.pop() {
            Ok(v) => v,
            Err(e) => return Err(e),
        };
        if let Err(e) = self.set_register(RegisterName::R6, value) {
            return Err(e);
        }
        let value = match self.pop() {
            Ok(v) => v,
            Err(e) => return Err(e),
        };
        if let Err(e) = self.set_register(RegisterName::R5, value) {
            return Err(e);
        }
        let value = match self.pop() {
            Ok(v) => v,
            Err(e) => return Err(e),
        };
        if let Err(e) = self.set_register(RegisterName::R4, value) {
            return Err(e);
        }
        let value = match self.pop() {
            Ok(v) => v,
            Err(e) => return Err(e),
        };
        if let Err(e) = self.set_register(RegisterName::R3, value) {
            return Err(e);
        }
        let value = match self.pop() {
            Ok(v) => v,
            Err(e) => return Err(e),
        };
        if let Err(e) = self.set_register(RegisterName::R2, value) {
            return Err(e);
        }
        let value = match self.pop() {
            Ok(v) => v,
            Err(e) => return Err(e),
        };
        if let Err(e) = self.set_register(RegisterName::R1, value) {
            return Err(e);
        }
        let arg_count = match self.pop() {
            Ok(v) => v,
            Err(e) => return Err(e),
        };
        let ghost before_discard: MachineState = self@;
        let mut remaining: u16 = arg_count;
        while remaining > 0
            invariant
                self.wf(),
                spec_pop_n(before_discard, arg_count as nat) == spec_pop_n(
                    self@,
                    remaining as nat,
                ),
            decreases remaining,
        {
            if let Err(e) = self.pop() {
                return Err(e);
            }
            remaining = remaining - 1;
        }
        if fp as usize + frame_size as usize > 0xFFFF {
            return Err(CpuError::MemoryAddressOutOfRange);
        }
        if let Err(e) = self.set_register(RegisterName::Fp, fp + frame_size) {
            return Err(e);
        }
        Ok(())
    }

    /// `MoveLiteralToRegister`, as `spec_exec_move_literal_to_register`.
    fn exec_move_literal_to_register(&mut self) -> (r: Result<(), CpuError>)
        requires
            old(self).wf(),
        ensures
            final(self).wf(),
            final(self)@ == spec_exec_move_literal_to_register(old(self)@).0,
            r == spec_exec_move_literal_to_register(old(self)@).1,
    {
        let literal = match self.fetch16() {
            Ok(v) => v,
            Err(e) => return Err(e),
        };
        let index = match self.fetch_register_index() {
            Ok(v) => v,
            Err(e) => return Err(e),
        };
        self.registers.set(index as usize, literal);
        Ok(())
    }

    /// `MoveRegisterToRegister`, as `spec_exec_move_register_to_register`.
    fn exec_move_register_to_register(&mut self) -> (r: Result<(), CpuError>)
        requires
            old(self).wf(),
        ensures
            final(self).wf(),
            final(self)@ == spec_exec_move_register_to_register(old(self)@).0,
            r == spec_exec_move_register_to_register(old(self)@).1,
    {
        let from = match self.fetch_register_index() {
            Ok(v) => v,
            Err(e) => return Err(e),
        };
        let to = match self.fetch_register_index() {
            Ok(v) => v,
            Err(e) => return Err(e),
        };
        let value = self.registers[from as usize];
        self.registers.set(to as usize, value);
        Ok(())
    }

    /// `MoveRegisterToMemory`, as `spec_exec_move_register_to_memory`.
    fn exec_move_register_to_memory(&mut self) -> (r: Result<(), CpuError>)
        requires
            old(self).wf(),
        ensures
            final(self).wf(),
            final(self)@ == spec_exec_move_register_to_memory(old(self)@).0,
            r == spec_exec_move_register_to_memory(old(self)@).1,
    {
        let index = match self.fetch_register_index() {
            Ok(v) => v,
            Err(e) => return Err(e),
        };
        let value = self.registers[index as usize];
        let address = match self.fetch16() {
            Ok(v) => v,
            Err(e) => return Err(e),
        };
        self.set_memory16(address, value)
    }

    /// `MoveMemoryToRegister`, as `spec_exec_move_memory_to_register`.
    fn exec_move_memory_to_register(&mut self) -> (r: Result<(), CpuError>)
        requires
            old(self).wf(),
        ensures
            final(self).wf(),
            final(self)@ == spec_exec_move_memory_to_register(old(self)@).0,
            r == spec_exec_move_memory_to_register(old(self)@).1,
    {
        let address = match self.fetch16() {
            Ok(v) => v,
            Err(e) => return Err(e),
        };
        let index = match self.fetch_register_index() {
            Ok(v) => v,
            Err(e) => return Err(e),
        };
        let value = match self.get_memory_16(address) {
            Ok(v) => v,
            Err(e) => return Err(e),
        };
        self.registers.set(index as usize, value);
        Ok(())
    }

    /// `AddRegisterToRegister`, as `spec_exec_add_register_to_register`.
    fn exec_add_register_to_register(&mut self) -> (r: Result<(), CpuError>)
        requires
            old(self).wf(),
        ensures
            final(self).wf(),
            final(self)@ == spec_exec_add_register_to_register(old(self)@).0,
            r == spec_exec_add_register_to_register(old(self)@).1,
    {
        let first = match self.fetch_register_index() {
            Ok(v) => v,
            Err(e) => return Err(e),
        };
        let second = match self.fetch_register_index() {
            Ok(v) => v,
            Err(e) => return Err(e),
        };
        let v1 = self.registers[first as usize];
        let v2 = self.registers[second as usize];
        let sum: u16 = (((v1 as u32) + (v2 as u32)) % 0x10000) as u16;
        let i = register_index(RegisterName::Acc);
        self.registers.set(i, sum);
        Ok(())
    }

    /// `JumpNotEq`, as `spec_exec_jump_not_eq`.
    fn exec_jump_not_eq(&mut self) -> (r: Result<(), CpuError>)
        requires
            old(self).wf(),
        ensures
            final(self).wf(),
            final(self)@ == spec_exec_jump_not_eq(old(self)@).0,
            r == spec_exec_jump_not_eq(old(self)@).1,
    {
        let value = match self.fetch16() {
            Ok(v) => v,
            Err(e) => return Err(e),
        };
        let address = match self.fetch16() {
            Ok(v) => v,
            Err(e) => return Err(e),
        };
        let acc = match self.get_register(RegisterName::Acc) {
            Ok(v) => v,
            Err(e) => return Err(e),
        };
        if value != acc {
            if let Err(e) = self.set_register(RegisterName::Ip, address) {
                return Err(e);
            }
        }
        Ok(())
    }

    /// `PushLiteral`, as `spec_exec_push_literal`.
    fn exec_push_literal(&mut self) -> (r: Result<(), CpuError>)
        requires
            old(self).wf(),
        ensures
            final(self).wf(),
            final(self)@ == spec_exec_push_literal(old(self)@).0,
            r == spec_exec_push_literal(old(self)@).1,
    {
        let value = match self.fetch16() {
            Ok(v) => v,
            Err(e) => return Err(e),
        };
        self.push(value)
    }

    /// `PushRegister`, as `spec_exec_push_register`.
    fn exec_push_register(&mut self) -> (r: Result<(), CpuError>)
        requires
            old(self).wf(),
        ensures
            final(self).wf(),
            final(self)@ == spec_exec_push_register(old(self)@).0,
            r == spec_exec_push_register(old(self)@).1,
    {
        let index = match self.fetch_register_index() {
            Ok(v) => v,
            Err(e) => return Err(e),
        };
        let value = self.registers[index as usize];
        self.push(value)
    }

    /// `Pop`, as `spec_exec_pop`.
    fn exec_pop(&mut self) -> (r: Result<(), CpuError>)
        requires
            old(self).wf(),
        ensures
            final(self).wf(),
            final(self)@ == spec_exec_pop(old(self)@).0,
            r == spec_exec_pop(old(self)@).1,
    {
        let index = match self.fetch_register_index() {
            Ok(v) => v,
            Err(e) => return Err(e),
        };
        let value = match self.pop() {
            Ok(v) => v,
            Err(e) => return Err(e),
        };
        self.registers.set(index as usize, value);
        Ok(())
    }

    /// `CallLiteral`, as `spec_exec_call_literal`.
    fn exec_call_literal(&mut self) -> (r: Result<(), CpuError>)
        requires
            old(self).wf(),
        ensures
            final(self).wf(),
            final(self)@ == spec_exec_call_literal(old(self)@).0,
            r == spec_exec_call_literal(old(self)@).1,
    {
        let address = match self.fetch16() {
            Ok(v) => v,
            Err(e) => return Err(e),
        };
        if let Err(e) = self.push_state() {
            return Err(e);
        }
        if let Err(e) = self.set_register(RegisterName::Ip, address) {
            return Err(e);
        }
        Ok(())
    }

    /// `CallRegister`, as `spec_exec_call_register`.
    fn exec_call_register(&mut self) -> (r: Result<(), CpuError>)
        requires
            old(self).wf(),
        ensures
            final(self).wf(),
            final(self)@ == spec_exec_call_register(old(self)@).0,
            r == spec_exec_call_register(old(self)@).1,
    {
        let index = match self.fetch_register_index() {
            Ok(v) => v,
            Err(e) => return Err(e),
        };
        let address = self.registers[index as usize];
        if let Err(e) = self.push_state() {
            return Err(e);
        }
        if let Err(e) = self.set_register(RegisterName::Ip, address) {
            return Err(e);
        }
        Ok(())
    }

    /// Executes one already-decoded instruction: fetches its operands in the
    /// fixed order of the encoding, then applies its effect. A failure stops
    /// the instruction with the state as it stands.
    pub fn execute(&mut self, instruction: Instruction) -> (r: Result<(), CpuError>)
        requires
            old(self).wf(),
        ensures
            final(self).wf(),
            final(self)@ == spec_execute(old(self)@, instruction).0,
            r == spec_execute(old(self)@, instruction).1,
    {
        match instruction {
            Instruction::MoveLiteralToRegister => self.exec_move_literal_to_register(),
            Instruction::MoveRegisterToRegister => self.exec_move_register_to_register(),
            Instruction::MoveRegisterToMemory => self.exec_move_register_to_memory(),
            Instruction::MoveMemoryToRegister => self.exec_move_memory_to_register(),
            Instruction::AddRegisterToRegister => self.exec_add_register_to_register(),
            Instruction::JumpNotEq => self.exec_jump_not_eq(),
            Instruction::PushLiteral => self.exec_push_literal(),
            Instruction::PushRegister => self.exec_push_register(),
            Instruction::Pop => self.exec_pop(),
            Instruction::CallLiteral => self.exec_call_literal(),
            Instruction::CallRegister => self.exec_call_register(),
            Instruction::Return => self.pop_state(),
        }
    }

    /// One whole machine step: fetch the opcode byte at `Ip`, decode it,
    /// execute it. The step's outcome is exactly the mathematical transition
    /// `spec_step` of the machine's state.
    pub fn step(&mut self) -> (r: Result<(), CpuError>)
        requires
            old(self).wf(),
        ensures
            final(self).wf(),
            final(self)@ == spec_step(old(self)@).0,
            r == spec_step(old(self)@).1,
    {
        let byte = match self.fetch() {
            Ok(b) => b,
            Err(e) => return Err(e),
        };
        let instruction = match Instruction::from_byte(byte) {
            Ok(i) => i,
            Err(e) => return Err(e),
        };
        self.execute(instruction)
    }
}

} // verus!

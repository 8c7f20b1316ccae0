//! The mathematical model of the machine: its state as plain sequences, and
//! the transition that each primitive operation and each instruction makes.
//!
//! Every executable operation of the engine is specified as equal to one of
//! the spec functions here, so the whole fetch/decode/execute cycle is pinned
//! down by a single mathematical step function, `spec_step`.

use vstd::prelude::*;

use crate::instructions::{spec_decode, Instruction};

verus! {

/// The named registers of the machine, in register-file order.
#[derive(Clone, Copy, Debug, PartialEq, Eq, Structural)]
pub enum RegisterName {
    /// Instruction pointer: address of the next opcode byte to fetch.
    Ip,
    /// Accumulator: receives the result of arithmetic instructions.
    Acc,
    R1,
    R2,
    R3,
    R4,
    R5,
    R6,
    R7,
    R8,
    /// Stack pointer: the next free, downward-growing stack slot.
    Sp,
    /// Frame pointer: boundary of the most recently completed call frame.
    Fp,
}

/// Every failure the engine can report. Each one is terminal for the current
/// step; no operation retries or rolls back.
#[derive(Clone, Copy, Debug, PartialEq, Eq, Structural)]
pub enum CpuError {
    /// A register name could not be resolved (unreachable with the closed
    /// register enum, kept as a defensive distinct kind).
    UnknownRegisterName,
    /// A numeric register index did not resolve to a register.
    RegisterIndexOutOfRange,
    /// A memory access, or the second byte of a 16-bit access, fell outside
    /// `[0, size)`, or address arithmetic left the 16-bit address space.
    MemoryAddressOutOfRange,
    /// An opcode byte matched no instruction.
    InvalidOpcode,
    /// A push was attempted when the stack pointer had reached the bottom of
    /// the address space, or the frame-byte counter its ceiling.
    StackOverflow,
    /// A pop was attempted when the stack pointer stood at or above its
    /// initial top-of-memory position.
    StackUnderflow,
}

/// How many registers the machine has.
pub const NUM_REGISTERS: usize = 12;

/// The whole machine state, as mathematics: the register file and the memory
/// as sequences, and the running count of bytes pushed since the last call.
#[verifier::ext_equal]
pub struct MachineState {
    pub regs: Seq<u16>,
    pub mem: Seq<u8>,
    pub frame: u16,
}

/// The index of each named register in the register file.
pub open spec fn reg_index_spec(name: RegisterName) -> int {
    match name {
        RegisterName::Ip => 0,
        RegisterName::Acc => 1,
        RegisterName::R1 => 2,
        RegisterName::R2 => 3,
        RegisterName::R3 => 4,
        RegisterName::R4 => 5,
        RegisterName::R5 => 6,
        RegisterName::R6 => 7,
        RegisterName::R7 => 8,
        RegisterName::R8 => 9,
        RegisterName::Sp => 10,
        RegisterName::Fp => 11,
    }
}

/// The register at each index of the register file; the inverse of
/// `reg_index_spec`.
pub open spec fn reg_name_spec(i: int) -> RegisterName {
    if i == 0 {
        RegisterName::Ip
    } else if i == 1 {
        RegisterName::Acc
    } else if i == 2 {
        RegisterName::R1
    } else if i == 3 {
        RegisterName::R2
    } else if i == 4 {
        RegisterName::R3
    } else if i == 5 {
        RegisterName::R4
    } else if i == 6 {
        RegisterName::R5
    } else if i == 7 {
        RegisterName::R6
    } else if i == 8 {
        RegisterName::R7
    } else if i == 9 {
        RegisterName::R8
    } else if i == 10 {
        RegisterName::Sp
    } else {
        RegisterName::Fp
    }
}

/// Well-formedness of a machine state: a full register file, and a memory
/// that fits the 16-bit address space (so the initial stack slot
/// `size - 2` is a 16-bit address).
pub open spec fn state_wf(s: MachineState) -> bool {
    &&& s.regs.len() == NUM_REGISTERS
    &&& 2 <= s.mem.len() <= 0x10000
}

/// The 16-bit value that two adjacent bytes encode, most-significant byte
/// first (big-endian), the one byte order of every 16-bit access.
pub open spec fn word_of(hi: u8, lo: u8) -> u16 {
    (hi as int * 256 + lo as int) as u16
}

/// The most-significant byte of a 16-bit value.
pub open spec fn hi_byte(v: u16) -> u8 {
    (v as int / 256) as u8
}

/// The least-significant byte of a 16-bit value.
pub open spec fn lo_byte(v: u16) -> u8 {
    (v as int % 256) as u8
}

/// The value of the register at index `i`.
pub open spec fn read_reg_idx(s: MachineState, i: int) -> u16 {
    s.regs[i]
}

/// The state with the register at index `i` set to `v`.
pub open spec fn write_reg_idx(s: MachineState, i: int, v: u16) -> MachineState {
    MachineState { regs: s.regs.update(i, v), ..s }
}

/// The value of the named register.
pub open spec fn read_reg(s: MachineState, name: RegisterName) -> u16 {
    read_reg_idx(s, reg_index_spec(name))
}

/// The state with the named register set to `v`.
pub open spec fn write_reg(s: MachineState, name: RegisterName, v: u16) -> MachineState {
    write_reg_idx(s, reg_index_spec(name), v)
}

/// Reading 16 bits at `addr`, big-endian; an error if `addr + 1` lies
/// outside memory. The state is untouched.
pub open spec fn spec_read16(s: MachineState, addr: u16) -> Result<u16, CpuError> {
    if addr as int + 1 < s.mem.len() {
        Ok(word_of(s.mem[addr as int], s.mem[addr as int + 1]))
    } else {
        Err(CpuError::MemoryAddressOutOfRange)
    }
}

/// Writing 16 bits at `addr`, big-endian; on an out-of-bounds address the
/// state is unchanged and the error reported.
pub open spec fn spec_write16(s: MachineState, addr: u16, v: u16) -> (MachineState, Result<
    (),
    CpuError,
>) {
    if addr as int + 1 < s.mem.len() {
        (
            MachineState {
                mem: s.mem.update(addr as int, hi_byte(v)).update(addr as int + 1, lo_byte(v)),
                ..s
            },
            Ok(()),
        )
    } else {
        (s, Err(CpuError::MemoryAddressOutOfRange))
    }
}

/// Fetching one opcode or operand byte: the byte at `Ip`, with `Ip` advanced
/// by 1. Advancing past the 16-bit address space is a checked error before
/// any change; a read outside memory fails with `Ip` already advanced (no
/// rollback within a step).
pub open spec fn spec_fetch(s: MachineState) -> (MachineState, Result<u8, CpuError>) {
    let ip = read_reg(s, RegisterName::Ip);
    if ip == 0xFFFF {
        (s, Err(CpuError::MemoryAddressOutOfRange))
    } else {
        let s1 = write_reg(s, RegisterName::Ip, (ip + 1) as u16);
        if ip < s.mem.len() {
            (s1, Ok(s.mem[ip as int]))
        } else {
            (s1, Err(CpuError::MemoryAddressOutOfRange))
        }
    }
}

/// Fetching a 16-bit operand: the big-endian word at `Ip`, with `Ip`
/// advanced by 2 (before the read, as with `spec_fetch`).
pub open spec fn spec_fetch16(s: MachineState) -> (MachineState, Result<u16, CpuError>) {
    let ip = read_reg(s, RegisterName::Ip);
    if ip >= 0xFFFE {
        (s, Err(CpuError::MemoryAddressOutOfRange))
    } else {
        let s1 = write_reg(s, RegisterName::Ip, (ip + 2) as u16);
        (s1, spec_read16(s, ip))
    }
}

/// Fetching a register-index operand: one byte, reduced modulo the register
/// count, so every byte value aliases onto some register.
pub open spec fn spec_fetch_register_index(s: MachineState) -> (MachineState, Result<
    u8,
    CpuError,
>) {
    let f = spec_fetch(s);
    match f.1 {
        Ok(byte) => (f.0, Ok((byte as int % NUM_REGISTERS as int) as u8)),
        Err(e) => (f.0, Err(e)),
    }
}

/// Resolving a numeric register index to its name; defensive, since indices
/// arrive already reduced modulo the register count.
pub open spec fn spec_register_name(index: u8) -> Result<RegisterName, CpuError> {
    if index < NUM_REGISTERS as u8 {
        Ok(reg_name_spec(index as int))
    } else {
        Err(CpuError::RegisterIndexOutOfRange)
    }
}

/// Pushing a 16-bit value: write it at `Sp`, then move `Sp` down by 2 and
/// count the two bytes in the frame counter. Pushing with `Sp` at the bottom
/// of the address space, or with the frame counter at its ceiling, is a
/// stack overflow; a write outside memory fails with nothing changed.
pub open spec fn spec_push(s: MachineState, v: u16) -> (MachineState, Result<(), CpuError>) {
    let sp = read_reg(s, RegisterName::Sp);
    if sp < 2 || s.frame > 0xFFFD {
        (s, Err(CpuError::StackOverflow))
    } else if sp as int + 1 >= s.mem.len() {
        (s, Err(CpuError::MemoryAddressOutOfRange))
    } else {
        let s1 = spec_write16(s, sp, v).0;
        let s2 = write_reg(s1, RegisterName::Sp, (sp - 2) as u16);
        (MachineState { frame: (s.frame + 2) as u16, ..s2 }, Ok(()))
    }
}

/// Popping a 16-bit value: move `Sp` up by 2, then read the word there.
/// Popping with `Sp` at or above its initial top-of-memory slot is a stack
/// underflow with nothing changed; the frame counter loses the two bytes,
/// stopping at zero.
pub open spec fn spec_pop(s: MachineState) -> (MachineState, Result<u16, CpuError>) {
    let sp = read_reg(s, RegisterName::Sp);
    if sp as int + 2 >= s.mem.len() {
        (s, Err(CpuError::StackUnderflow))
    } else {
        let sp2 = (sp + 2) as u16;
        let frame2: u16 = if s.frame >= 2 {
            (s.frame - 2) as u16
        } else {
            0
        };
        let s1 = MachineState { frame: frame2, ..write_reg(s, RegisterName::Sp, sp2) };
        (s1, spec_read16(s, sp2))
    }
}

/// Pushing the named register's current value.
pub open spec fn spec_push_reg(s: MachineState, name: RegisterName) -> (MachineState, Result<
    (),
    CpuError,
>) {
    spec_push(s, read_reg(s, name))
}

/// Chaining one more register push onto an earlier outcome: a prior error
/// stands, with the state it left.
pub open spec fn spec_then_push_reg(
    prior: (MachineState, Result<(), CpuError>),
    name: RegisterName,
) -> (MachineState, Result<(), CpuError>) {
    match prior.1 {
        Ok(u) => spec_push_reg(prior.0, name),
        Err(e) => prior,
    }
}

/// Popping into the named register.
pub open spec fn spec_pop_reg(s: MachineState, name: RegisterName) -> (MachineState, Result<
    (),
    CpuError,
>) {
    let p = spec_pop(s);
    match p.1 {
        Ok(v) => (write_reg(p.0, name, v), Ok(())),
        Err(e) => (p.0, Err(e)),
    }
}

/// Chaining one more register pop onto an earlier outcome.
pub open spec fn spec_then_pop_reg(
    prior: (MachineState, Result<(), CpuError>),
    name: RegisterName,
) -> (MachineState, Result<(), CpuError>) {
    match prior.1 {
        Ok(u) => spec_pop_reg(prior.0, name),
        Err(e) => prior,
    }
}

/// Popping and discarding `n` values, stopping at the first failure.
pub open spec fn spec_pop_n(s: MachineState, n: nat) -> (MachineState, Result<(), CpuError>)
    decreases n,
{
    if n == 0 {
        (s, Ok(()))
    } else {
        let p = spec_pop(s);
        match p.1 {
            Ok(v) => spec_pop_n(p.0, (n - 1) as nat),
            Err(e) => (p.0, Err(e)),
        }
    }
}

/// Saving the machine state for a call: push `R1` through `R8`, then the
/// return address in `Ip`, then the frame-byte counter plus 2 (the slot that
/// holds the counter itself counts too); then `Fp` marks the just-completed
/// save and the counter restarts at 0 for the callee.
pub open spec fn spec_push_state(s: MachineState) -> (MachineState, Result<(), CpuError>) {
    let p = spec_then_push_reg(
        spec_then_push_reg(
            spec_then_push_reg(
                spec_then_push_reg(
                    spec_then_push_reg(
                        spec_then_push_reg(
                            spec_then_push_reg(
                                spec_then_push_reg(
                                    spec_push_reg(s, RegisterName::R1),
                                    RegisterName::R2,
                                ),
                                RegisterName::R3,
                            ),
                            RegisterName::R4,
                        ),
                        RegisterName::R5,
                    ),
                    RegisterName::R6,
                ),
                RegisterName::R7,
            ),
            RegisterName::R8,
        ),
        RegisterName::Ip,
    );
    match p.1 {
        Err(e) => p,
        Ok(u) => {
            let counter = p.0.frame;
            if counter > 0xFFFD {
                (p.0, Err(CpuError::StackOverflow))
            } else {
                let q = spec_push(p.0, (counter + 2) as u16);
                match q.1 {
                    Err(e) => q,
                    Ok(u2) => {
                        let sp = read_reg(q.0, RegisterName::Sp);
                        (
                            MachineState { frame: 0, ..write_reg(q.0, RegisterName::Fp, sp) },
                            Ok(()),
                        )
                    },
                }
            }
        },
    }
}

/// Restoring the machine state for a return: discard everything above the
/// saved frame by setting `Sp` to `Fp`; pop the frame-size counter, the
/// return address into `Ip`, then `R8` back down to `R1`; pop the count of
/// caller-pushed argument slots and discard that many values; finally move
/// `Fp` up by the frame size, a checked error if that leaves the 16-bit
/// address space.
pub open spec fn spec_pop_state(s: MachineState) -> (MachineState, Result<(), CpuError>) {
    let fp = read_reg(s, RegisterName::Fp);
    let s0 = write_reg(s, RegisterName::Sp, fp);
    let pc = spec_pop(s0);
    match pc.1 {
        Err(e) => (pc.0, Err(e)),
        Ok(frame_size) => {
            let s1 = MachineState { frame: frame_size, ..pc.0 };
            let pr = spec_then_pop_reg(
                spec_then_pop_reg(
                    spec_then_pop_reg(
                        spec_then_pop_reg(
                            spec_then_pop_reg(
                                spec_then_pop_reg(
                                    spec_then_pop_reg(
                                        spec_then_pop_reg(
                                            spec_pop_reg(s1, RegisterName::Ip),
                                            RegisterName::R8,
                                        ),
                                        RegisterName::R7,
                                    ),
                                    RegisterName::R6,
                                ),
                                RegisterName::R5,
                            ),
                            RegisterName::R4,
                        ),
                        RegisterName::R3,
                    ),
                    RegisterName::R2,
                ),
                RegisterName::R1,
            );
            match pr.1 {
                Err(e) => pr,
                Ok(u) => {
                    let pa = spec_pop(pr.0);
                    match pa.1 {
                        Err(e) => (pa.0, Err(e)),
                        Ok(arg_count) => {
                            let pd = spec_pop_n(pa.0, arg_count as nat);
                            match pd.1 {
                                Err(e) => pd,
                                Ok(u2) => {
                                    if fp as int + frame_size as int > 0xFFFF {
                                        (pd.0, Err(CpuError::MemoryAddressOutOfRange))
                                    } else {
                                        (
                                            write_reg(
                                                pd.0,
                                                RegisterName::Fp,
                                                (fp + frame_size) as u16,
                                            ),
                                            Ok(()),
                                        )
                                    }
                                },
                            }
                        },
                    }
                },
            }
        },
    }
}

/// `MoveLiteralToRegister`: fetch a 16-bit literal, fetch a register index,
/// set that register to the literal.
pub open spec fn spec_exec_move_literal_to_register(s: MachineState) -> (MachineState, Result<
    (),
    CpuError,
>) {
    let f1 = spec_fetch16(s);
    match f1.1 {
        Err(e) => (f1.0, Err(e)),
        Ok(literal) => {
            let f2 = spec_fetch_register_index(f1.0);
            match f2.1 {
                Err(e) => (f2.0, Err(e)),
                Ok(index) => (write_reg_idx(f2.0, index as int, literal), Ok(())),
            }
        },
    }
}

/// `MoveRegisterToRegister`: fetch the source index, then the destination
/// index; only then copy the source register's value across.
pub open spec fn spec_exec_move_register_to_register(s: MachineState) -> (MachineState, Result<
    (),
    CpuError,
>) {
    let f1 = spec_fetch_register_index(s);
    match f1.1 {
        Err(e) => (f1.0, Err(e)),
        Ok(from) => {
            let f2 = spec_fetch_register_index(f1.0);
            match f2.1 {
                Err(e) => (f2.0, Err(e)),
                Ok(to) => {
                    let value = read_reg_idx(f2.0, from as int);
                    (write_reg_idx(f2.0, to as int, value), Ok(()))
                },
            }
        },
    }
}

/// `MoveRegisterToMemory`: fetch a register index and read its value, fetch
/// a 16-bit destination address, store the value there big-endian.
pub open spec fn spec_exec_move_register_to_memory(s: MachineState) -> (MachineState, Result<
    (),
    CpuError,
>) {
    let f1 = spec_fetch_register_index(s);
    match f1.1 {
        Err(e) => (f1.0, Err(e)),
        Ok(index) => {
            let value = read_reg_idx(f1.0, index as int);
            let f2 = spec_fetch16(f1.0);
            match f2.1 {
                Err(e) => (f2.0, Err(e)),
                Ok(address) => spec_write16(f2.0, address, value),
            }
        },
    }
}

/// `MoveMemoryToRegister`: fetch a 16-bit source address, fetch a register
/// index, load the big-endian word at the address into the register.
pub open spec fn spec_exec_move_memory_to_register(s: MachineState) -> (MachineState, Result<
    (),
    CpuError,
>) {
    let f1 = spec_fetch16(s);
    match f1.1 {
        Err(e) => (f1.0, Err(e)),
        Ok(address) => {
            let f2 = spec_fetch_register_index(f1.0);
            match f2.1 {
                Err(e) => (f2.0, Err(e)),
                Ok(index) => match spec_read16(f2.0, address) {
                    Err(e) => (f2.0, Err(e)),
                    Ok(value) => (write_reg_idx(f2.0, index as int, value), Ok(())),
                },
            }
        },
    }
}

/// `AddRegisterToRegister`: fetch two register indices; their values' sum,
/// modulo 65536, goes to `Acc`.
pub open spec fn spec_exec_add_register_to_register(s: MachineState) -> (MachineState, Result<
    (),
    CpuError,
>) {
    let f1 = spec_fetch_register_index(s);
    match f1.1 {
        Err(e) => (f1.0, Err(e)),
        Ok(first) => {
            let f2 = spec_fetch_register_index(f1.0);
            match f2.1 {
                Err(e) => (f2.0, Err(e)),
                Ok(second) => {
                    let v1 = read_reg_idx(f2.0, first as int);
                    let v2 = read_reg_idx(f2.0, second as int);
                    let sum = ((v1 as int + v2 as int) % 0x10000) as u16;
                    (write_reg(f2.0, RegisterName::Acc, sum), Ok(()))
                },
            }
        },
    }
}

/// `JumpNotEq`: fetch a 16-bit comparison value and a 16-bit target; if
/// `Acc` differs from the value, `Ip` moves to the target, else the
/// instruction falls through.
pub open spec fn spec_exec_jump_not_eq(s: MachineState) -> (MachineState, Result<(), CpuError>) {
    let f1 = spec_fetch16(s);
    match f1.1 {
        Err(e) => (f1.0, Err(e)),
        Ok(value) => {
            let f2 = spec_fetch16(f1.0);
            match f2.1 {
                Err(e) => (f2.0, Err(e)),
                Ok(address) => {
                    if value != read_reg(f2.0, RegisterName::Acc) {
                        (write_reg(f2.0, RegisterName::Ip, address), Ok(()))
                    } else {
                        (f2.0, Ok(()))
                    }
                },
            }
        },
    }
}

/// `PushLiteral`: fetch a 16-bit literal and push it.
pub open spec fn spec_exec_push_literal(s: MachineState) -> (MachineState, Result<(), CpuError>) {
    let f1 = spec_fetch16(s);
    match f1.1 {
        Err(e) => (f1.0, Err(e)),
        Ok(value) => spec_push(f1.0, value),
    }
}

/// `PushRegister`: fetch a register index and push that register's value.
pub open spec fn spec_exec_push_register(s: MachineState) -> (MachineState, Result<(), CpuError>) {
    let f1 = spec_fetch_register_index(s);
    match f1.1 {
        Err(e) => (f1.0, Err(e)),
        Ok(index) => spec_push(f1.0, read_reg_idx(f1.0, index as int)),
    }
}

/// `Pop`: fetch a register index and pop the top of the stack into that
/// register.
pub open spec fn spec_exec_pop(s: MachineState) -> (MachineState, Result<(), CpuError>) {
    let f1 = spec_fetch_register_index(s);
    match f1.1 {
        Err(e) => (f1.0, Err(e)),
        Ok(index) => {
            let p = spec_pop(f1.0);
            match p.1 {
                Err(e) => (p.0, Err(e)),
                Ok(value) => (write_reg_idx(p.0, index as int, value), Ok(())),
            }
        },
    }
}

/// `CallLiteral`: fetch a 16-bit target address, save the machine state,
/// then jump there.
pub open spec fn spec_exec_call_literal(s: MachineState) -> (MachineState, Result<(), CpuError>) {
    let f1 = spec_fetch16(s);
    match f1.1 {
        Err(e) => (f1.0, Err(e)),
        Ok(address) => {
            let p = spec_push_state(f1.0);
            match p.1 {
                Err(e) => p,
                Ok(u) => (write_reg(p.0, RegisterName::Ip, address), Ok(())),
            }
        },
    }
}

/// `CallRegister`: fetch a register index and read the address it holds
/// (before any saving), save the machine state, then jump there.
pub open spec fn spec_exec_call_register(s: MachineState) -> (MachineState, Result<(), CpuError>) {
    let f1 = spec_fetch_register_index(s);
    match f1.1 {
        Err(e) => (f1.0, Err(e)),
        Ok(index) => {
            let address = read_reg_idx(f1.0, index as int);
            let p = spec_push_state(f1.0);
            match p.1 {
                Err(e) => p,
                Ok(u) => (write_reg(p.0, RegisterName::Ip, address), Ok(())),
            }
        },
    }
}

/// Executing one already-decoded instruction: each one fetches its operands
/// in the fixed order of the encoding, then applies the instruction's
/// effect. A failure at any point stops the instruction with the state as it
/// stands (no rollback within a step).
pub open spec fn spec_execute(s: MachineState, instruction: Instruction) -> (MachineState, Result<
    (),
    CpuError,
>) {
    match instruction {
        Instruction::MoveLiteralToRegister => spec_exec_move_literal_to_register(s),
        Instruction::MoveRegisterToRegister => spec_exec_move_register_to_register(s),
        Instruction::MoveRegisterToMemory => spec_exec_move_register_to_memory(s),
        Instruction::MoveMemoryToRegister => spec_exec_move_memory_to_register(s),
        Instruction::AddRegisterToRegister => spec_exec_add_register_to_register(s),
        Instruction::JumpNotEq => spec_exec_jump_not_eq(s),
        Instruction::PushLiteral => spec_exec_push_literal(s),
        Instruction::PushRegister => spec_exec_push_register(s),
        Instruction::Pop => spec_exec_pop(s),
        Instruction::CallLiteral => spec_exec_call_literal(s),
        Instruction::CallRegister => spec_exec_call_register(s),
        Instruction::Return => spec_pop_state(s),
    }
}

/// Running at most `fuel` whole steps, stopping at the first failure; the
/// outcome of driving the machine that far.
pub open spec fn spec_run(s: MachineState, fuel: nat) -> (MachineState, Result<(), CpuError>)
    decreases fuel,
{
    if fuel == 0 {
        (s, Ok(()))
    } else {
        let p = spec_step(s);
        match p.1 {
            Ok(u) => spec_run(p.0, (fuel - 1) as nat),
            Err(e) => (p.0, Err(e)),
        }
    }
}

/// One whole machine step: fetch the opcode byte at `Ip`, decode it, execute
/// it. A fetch or decode failure ends the step with `Ip` as the fetch left
/// it and nothing else changed.
pub open spec fn spec_step(s: MachineState) -> (MachineState, Result<(), CpuError>) {
    let f = spec_fetch(s);
    match f.1 {
        Err(e) => (f.0, Err(e)),
        Ok(byte) => match spec_decode(byte) {
            Err(e) => (f.0, Err(e)),
            Ok(instruction) => spec_execute(f.0, instruction),
        },
    }
}

} // verus!

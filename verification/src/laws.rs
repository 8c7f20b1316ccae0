//! The laws of the machine: proved properties that relate the operations of
//! `crate::semantics` to one another, each stated over every state and every
//! value that satisfies its hypotheses.

use vstd::prelude::*;

use crate::instructions::spec_decode;
use crate::semantics::{
    hi_byte, lo_byte, read_reg, read_reg_idx, reg_index_spec,
    spec_exec_add_register_to_register, spec_exec_jump_not_eq,
    spec_exec_move_literal_to_register, spec_pop, spec_pop_n, spec_pop_reg, spec_pop_state,
    spec_push, spec_push_state, spec_read16, spec_step, spec_then_pop_reg, spec_write16, state_wf,
    word_of, write_reg, write_reg_idx, CpuError, MachineState, RegisterName,
};

verus! {

/// Law: writing any named register and reading it back gives the value
/// written, while every other register keeps its value.
pub proof fn lemma_register_write_then_read(s: MachineState, name: RegisterName, v: u16)
    requires
        state_wf(s),
    ensures
        state_wf(write_reg(s, name, v)),
        read_reg(write_reg(s, name, v), name) == v,
        forall|other: RegisterName|
            other != name ==> read_reg(write_reg(s, name, v), other) == read_reg(s, other),
{
    assert forall|other: RegisterName| other != name implies read_reg(write_reg(s, name, v), other)
        == read_reg(s, other) by {
        assert(reg_index_spec(other) != reg_index_spec(name));
    }
}

/// Law: for any in-bounds address, writing a 16-bit value and reading 16
/// bits back at the same address round-trips the value, in the one fixed
/// byte order.
pub proof fn lemma_memory_write16_then_read16(s: MachineState, addr: u16, v: u16)
    requires
        state_wf(s),
        addr as int + 1 < s.mem.len(),
    ensures
        spec_write16(s, addr, v).1 == Ok::<(), CpuError>(()),
        spec_read16(spec_write16(s, addr, v).0, addr) == Ok::<u16, CpuError>(v),
{
    assert(v as int / 256 * 256 + v as int % 256 == v as int);
}

/// Law: a push that succeeds, followed by a pop, returns the pushed value
/// unchanged and leaves every register — `Sp` included — and the frame
/// counter at their pre-push values.
pub proof fn lemma_push_then_pop(s: MachineState, v: u16)
    requires
        state_wf(s),
        spec_push(s, v).1 is Ok,
    ensures
        spec_pop(spec_push(s, v).0).1 == Ok::<u16, CpuError>(v),
        spec_pop(spec_push(s, v).0).0.regs == s.regs,
        spec_pop(spec_push(s, v).0).0.frame == s.frame,
        read_reg(spec_pop(spec_push(s, v).0).0, RegisterName::Sp) == read_reg(s, RegisterName::Sp),
{
    let pushed = spec_push(s, v).0;
    let sp = read_reg(s, RegisterName::Sp);
    assert(spec_pop(pushed).1 == Ok::<u16, CpuError>(v)) by {
        assert(v as int / 256 * 256 + v as int % 256 == v as int);
    }
    assert(spec_pop(pushed).0.regs =~= s.regs);
}

/// Law: `JumpNotEq`, with its two operands in bounds, always succeeds;
/// when `Acc` differs from the fetched comparison value `Ip` moves to the
/// fetched target, and when `Acc` equals it `Ip` merely advances past the
/// operands (the instruction falls through). Memory, the other registers
/// and the frame counter are untouched either way.
pub proof fn lemma_jump_not_eq(s: MachineState)
    requires
        state_wf(s),
        read_reg(s, RegisterName::Ip) as int + 4 < s.mem.len(),
    ensures
        ({
            let ip = read_reg(s, RegisterName::Ip);
            let value = word_of(s.mem[ip as int], s.mem[ip as int + 1]);
            let target = word_of(s.mem[ip as int + 2], s.mem[ip as int + 3]);
            let outcome = spec_exec_jump_not_eq(s);
            &&& outcome.1 == Ok::<(), CpuError>(())
            &&& read_reg(outcome.0, RegisterName::Ip) == if value != read_reg(
                s,
                RegisterName::Acc,
            ) {
                target
            } else {
                (ip + 4) as u16
            }
            &&& outcome.0.mem == s.mem
            &&& outcome.0.frame == s.frame
            &&& forall|other: RegisterName|
                other != RegisterName::Ip ==> read_reg(outcome.0, other) == read_reg(s, other)
        }),
{
    let ip = read_reg(s, RegisterName::Ip);
    let outcome = spec_exec_jump_not_eq(s);
    assert forall|other: RegisterName| other != RegisterName::Ip implies read_reg(outcome.0, other)
        == read_reg(s, other) by {
        assert(reg_index_spec(other) != reg_index_spec(RegisterName::Ip));
    }
}

/// Law: `AddRegisterToRegister`, with its two index operands in bounds,
/// always succeeds and leaves in `Acc` the sum of the two referenced
/// registers modulo 65536 — unsigned overflow wraps, it never fails.
pub proof fn lemma_add_wraps(s: MachineState)
    requires
        state_wf(s),
        read_reg(s, RegisterName::Ip) as int + 2 < s.mem.len(),
    ensures
        ({
            let ip = read_reg(s, RegisterName::Ip);
            let first = s.mem[ip as int] as int % 12;
            let second = s.mem[ip as int + 1] as int % 12;
            let fetched = write_reg(s, RegisterName::Ip, (ip + 2) as u16);
            let sum = ((read_reg_idx(fetched, first) as int + read_reg_idx(fetched, second) as int)
                % 0x10000) as u16;
            let outcome = spec_exec_add_register_to_register(s);
            &&& outcome.1 == Ok::<(), CpuError>(())
            &&& outcome.0 == write_reg(fetched, RegisterName::Acc, sum)
        }),
{
    let ip = read_reg(s, RegisterName::Ip);
    let fetched = write_reg(s, RegisterName::Ip, (ip + 2) as u16);
    let after_two = write_reg(write_reg(s, RegisterName::Ip, (ip + 1) as u16), RegisterName::Ip, (
    ip + 2) as u16);
    assert(after_two =~= fetched);
}

/// Law: `MoveLiteralToRegister`, with its operands in bounds, always
/// succeeds and sets the register named by the index operand — any index,
/// reduced modulo the register count — to the fetched literal.
pub proof fn lemma_move_literal_to_register(s: MachineState)
    requires
        state_wf(s),
        read_reg(s, RegisterName::Ip) as int + 3 < s.mem.len(),
    ensures
        ({
            let ip = read_reg(s, RegisterName::Ip);
            let literal = word_of(s.mem[ip as int], s.mem[ip as int + 1]);
            let index = s.mem[ip as int + 2] as int % 12;
            let fetched = write_reg(s, RegisterName::Ip, (ip + 3) as u16);
            let outcome = spec_exec_move_literal_to_register(s);
            &&& outcome.1 == Ok::<(), CpuError>(())
            &&& outcome.0 == write_reg_idx(fetched, index, literal)
        }),
{
    let ip = read_reg(s, RegisterName::Ip);
    let fetched = write_reg(s, RegisterName::Ip, (ip + 3) as u16);
    let after_two = write_reg(write_reg(s, RegisterName::Ip, (ip + 2) as u16), RegisterName::Ip, (
    ip + 3) as u16);
    assert(after_two =~= fetched);
}

/// Law: a step that fetches a byte outside the opcode table fails with
/// `InvalidOpcode`, and the only change it makes is the fetch's own advance
/// of `Ip` by 1: memory, the other registers and the frame counter are
/// untouched.
pub proof fn lemma_step_unmapped_opcode(s: MachineState)
    requires
        state_wf(s),
        read_reg(s, RegisterName::Ip) < s.mem.len(),
        read_reg(s, RegisterName::Ip) != 0xFFFF,
        spec_decode(s.mem[read_reg(s, RegisterName::Ip) as int]) is Err,
    ensures
        ({
            let ip = read_reg(s, RegisterName::Ip);
            &&& spec_step(s).1 == Err::<(), CpuError>(CpuError::InvalidOpcode)
            &&& spec_step(s).0 == write_reg(s, RegisterName::Ip, (ip + 1) as u16)
            &&& spec_step(s).0.mem == s.mem
            &&& spec_step(s).0.frame == s.frame
        }),
{
}

/// Law: a pop with `Sp` at or above its initial top-of-memory slot (the
/// stack is empty, or `Sp` was moved past it) fails with `StackUnderflow`
/// and changes nothing, rather than reading beyond the stack.
pub proof fn lemma_pop_on_empty_stack(s: MachineState)
    requires
        state_wf(s),
        read_reg(s, RegisterName::Sp) as int + 2 >= s.mem.len(),
    ensures
        spec_pop(s).1 == Err::<u16, CpuError>(CpuError::StackUnderflow),
        spec_pop(s).0 == s,
{
}

/// A 16-bit value split into its two bytes and reassembled big-endian is
/// itself.
pub proof fn lemma_word_round_trip(v: u16)
    ensures
        word_of(hi_byte(v), lo_byte(v)) == v,
{
    assert(v as int / 256 * 256 + v as int % 256 == v as int);
}

/// Popping and discarding `n` values succeeds whenever they all lie inside
/// memory, and only moves `Sp` up past them; memory and the other registers
/// are untouched.
pub proof fn lemma_pop_n_in_bounds(s: MachineState, n: nat)
    requires
        state_wf(s),
        read_reg(s, RegisterName::Sp) as int + 2 * n + 1 < s.mem.len(),
    ensures
        spec_pop_n(s, n).1 == Ok::<(), CpuError>(()),
        spec_pop_n(s, n).0.mem == s.mem,
        spec_pop_n(s, n).0.regs == s.regs.update(
            reg_index_spec(RegisterName::Sp),
            (read_reg(s, RegisterName::Sp) + 2 * n) as u16,
        ),
    decreases n,
{
    if n == 0 {
        assert(s.regs.update(
            reg_index_spec(RegisterName::Sp),
            (read_reg(s, RegisterName::Sp) + 0) as u16,
        ) =~= s.regs);
    } else {
        let p = spec_pop(s);
        lemma_pop_n_in_bounds(p.0, (n - 1) as nat);
        assert(spec_pop_n(p.0, (n - 1) as nat).0.regs =~= s.regs.update(
            reg_index_spec(RegisterName::Sp),
            (read_reg(s, RegisterName::Sp) + 2 * n) as u16,
        ));
    }
}

/// Law: a state save that has room lays down exactly the frame of the
/// protocol — `R1` at the old `Sp` down through `R8`, the return address,
/// and the frame-byte counter plus 2 (its own slot included) at the bottom —
/// moves `Sp` and `Fp` to the bottom of that save, restarts the counter,
/// and touches nothing else: no other register, no other memory cell.
pub proof fn lemma_push_state_layout(s: MachineState)
    requires
        state_wf(s),
        20 <= read_reg(s, RegisterName::Sp),
        read_reg(s, RegisterName::Sp) as int + 1 < s.mem.len(),
        s.frame as int + 18 <= 0xFFFD,
    ensures
        ({
            let sp = read_reg(s, RegisterName::Sp) as int;
            let outcome = spec_push_state(s);
            let saved = outcome.0;
            &&& outcome.1 == Ok::<(), CpuError>(())
            &&& saved.frame == 0
            &&& read_reg(saved, RegisterName::Sp) == sp - 20
            &&& read_reg(saved, RegisterName::Fp) == sp - 20
            &&& forall|name: RegisterName|
                name != RegisterName::Sp && name != RegisterName::Fp ==> read_reg(saved, name)
                    == read_reg(s, name)
            &&& spec_read16(saved, (sp - 18) as u16) == Ok::<u16, CpuError>(
                (s.frame + 20) as u16,
            )
            &&& spec_read16(saved, (sp - 16) as u16) == Ok::<u16, CpuError>(
                read_reg(s, RegisterName::Ip),
            )
            &&& spec_read16(saved, (sp - 14) as u16) == Ok::<u16, CpuError>(
                read_reg(s, RegisterName::R8),
            )
            &&& spec_read16(saved, (sp - 12) as u16) == Ok::<u16, CpuError>(
                read_reg(s, RegisterName::R7),
            )
            &&& spec_read16(saved, (sp - 10) as u16) == Ok::<u16, CpuError>(
                read_reg(s, RegisterName::R6),
            )
            &&& spec_read16(saved, (sp - 8) as u16) == Ok::<u16, CpuError>(
                read_reg(s, RegisterName::R5),
            )
            &&& spec_read16(saved, (sp - 6) as u16) == Ok::<u16, CpuError>(
                read_reg(s, RegisterName::R4),
            )
            &&& spec_read16(saved, (sp - 4) as u16) == Ok::<u16, CpuError>(
                read_reg(s, RegisterName::R3),
            )
            &&& spec_read16(saved, (sp - 2) as u16) == Ok::<u16, CpuError>(
                read_reg(s, RegisterName::R2),
            )
            &&& spec_read16(saved, sp as u16) == Ok::<u16, CpuError>(
                read_reg(s, RegisterName::R1),
            )
            &&& forall|a: int|
                0 <= a < s.mem.len() && !(sp - 18 <= a <= sp + 1) ==> saved.mem[a] == s.mem[a]
        }),
{
    assert forall|v: u16| word_of(hi_byte(v), lo_byte(v)) == v by {
        lemma_word_round_trip(v);
    }
}

/// Law: save and restore are exact inverses, operand for operand. From any
/// state that keeps the frame protocol's bookkeeping — `Fp` standing
/// `frame` bytes above `Sp`, the caller's argument count in the slot just
/// above `Sp`, and room below for the ten slots of a save — a state save
/// followed by a state restore succeeds and brings every register but `Sp`
/// back to its pre-save value, `Fp` included; `Sp` comes back just above
/// the argument block, which the restore has cleaned off the stack.
#[verifier::rlimit(100)]
pub proof fn lemma_save_then_restore(s: MachineState, arg_count: u16)
    requires
        state_wf(s),
        20 <= read_reg(s, RegisterName::Sp),
        read_reg(s, RegisterName::Sp) as int + 2 * arg_count as int + 3 < s.mem.len(),
        s.frame as int + 18 <= 0xFFFD,
        read_reg(s, RegisterName::Fp) as int == read_reg(s, RegisterName::Sp) as int
            + s.frame as int,
        spec_read16(s, (read_reg(s, RegisterName::Sp) + 2) as u16) == Ok::<u16, CpuError>(
            arg_count,
        ),
    ensures
        ({
            let sp = read_reg(s, RegisterName::Sp) as int;
            let saved = spec_push_state(s).0;
            let outcome = spec_pop_state(saved);
            &&& spec_push_state(s).1 == Ok::<(), CpuError>(())
            &&& outcome.1 == Ok::<(), CpuError>(())
            &&& forall|name: RegisterName|
                name != RegisterName::Sp ==> read_reg(outcome.0, name) == read_reg(s, name)
            &&& read_reg(outcome.0, RegisterName::Sp) == sp + 2 + 2 * arg_count
            &&& outcome.0.mem == saved.mem
        }),
{
    lemma_push_state_layout(s);
    assert forall|v: u16| word_of(hi_byte(v), lo_byte(v)) == v by {
        lemma_word_round_trip(v);
    }
    let sp = read_reg(s, RegisterName::Sp) as int;
    let saved = spec_push_state(s).0;

    // The restore walks back up the frame the save laid down.
    let fp1 = read_reg(saved, RegisterName::Fp);
    assert(fp1 == sp - 20);
    let s0 = write_reg(saved, RegisterName::Sp, fp1);
    let pc = spec_pop(s0);
    assert(pc.1 == Ok::<u16, CpuError>((s.frame + 20) as u16));
    assert(pc.0.mem == saved.mem);
    let s1 = MachineState { frame: (s.frame + 20) as u16, ..pc.0 };
    assert(read_reg(s1, RegisterName::Sp) == sp - 18);

    let q1 = spec_pop_reg(s1, RegisterName::Ip);
    assert(q1.1 == Ok::<(), CpuError>(()) && q1.0.mem == saved.mem);
    assert(read_reg(q1.0, RegisterName::Sp) == sp - 16);
    let q2 = spec_then_pop_reg(q1, RegisterName::R8);
    assert(q2.1 == Ok::<(), CpuError>(()) && q2.0.mem == saved.mem);
    assert(read_reg(q2.0, RegisterName::Sp) == sp - 14);
    let q3 = spec_then_pop_reg(q2, RegisterName::R7);
    assert(q3.1 == Ok::<(), CpuError>(()) && q3.0.mem == saved.mem);
    assert(read_reg(q3.0, RegisterName::Sp) == sp - 12);
    let q4 = spec_then_pop_reg(q3, RegisterName::R6);
    assert(q4.1 == Ok::<(), CpuError>(()) && q4.0.mem == saved.mem);
    assert(read_reg(q4.0, RegisterName::Sp) == sp - 10);
    let q5 = spec_then_pop_reg(q4, RegisterName::R5);
    assert(q5.1 == Ok::<(), CpuError>(()) && q5.0.mem == saved.mem);
    assert(read_reg(q5.0, RegisterName::Sp) == sp - 8);
    let q6 = spec_then_pop_reg(q5, RegisterName::R4);
    assert(q6.1 == Ok::<(), CpuError>(()) && q6.0.mem == saved.mem);
    assert(read_reg(q6.0, RegisterName::Sp) == sp - 6);
    let q7 = spec_then_pop_reg(q6, RegisterName::R3);
    assert(q7.1 == Ok::<(), CpuError>(()) && q7.0.mem == saved.mem);
    assert(read_reg(q7.0, RegisterName::Sp) == sp - 4);
    let q8 = spec_then_pop_reg(q7, RegisterName::R2);
    assert(q8.1 == Ok::<(), CpuError>(()) && q8.0.mem == saved.mem);
    assert(read_reg(q8.0, RegisterName::Sp) == sp - 2);
    let q9 = spec_then_pop_reg(q8, RegisterName::R1);
    assert(q9.1 == Ok::<(), CpuError>(()) && q9.0.mem == saved.mem);
    let s2 = q9.0;
    assert(read_reg(s2, RegisterName::Sp) == sp);

    // Every saved register is back; Acc was never touched.
    assert(read_reg(s2, RegisterName::Ip) == read_reg(s, RegisterName::Ip));
    assert(read_reg(s2, RegisterName::Acc) == read_reg(s, RegisterName::Acc));
    assert(read_reg(s2, RegisterName::R1) == read_reg(s, RegisterName::R1));
    assert(read_reg(s2, RegisterName::R2) == read_reg(s, RegisterName::R2));
    assert(read_reg(s2, RegisterName::R3) == read_reg(s, RegisterName::R3));
    assert(read_reg(s2, RegisterName::R4) == read_reg(s, RegisterName::R4));
    assert(read_reg(s2, RegisterName::R5) == read_reg(s, RegisterName::R5));
    assert(read_reg(s2, RegisterName::R6) == read_reg(s, RegisterName::R6));
    assert(read_reg(s2, RegisterName::R7) == read_reg(s, RegisterName::R7));
    assert(read_reg(s2, RegisterName::R8) == read_reg(s, RegisterName::R8));

    // The argument count sits untouched just above the saved frame.
    assert(spec_read16(saved, (sp + 2) as u16) == Ok::<u16, CpuError>(arg_count));
    let pa = spec_pop(s2);
    assert(pa.1 == Ok::<u16, CpuError>(arg_count));
    let s3 = pa.0;
    assert(read_reg(s3, RegisterName::Sp) == sp + 2);
    assert(s3.mem == saved.mem);

    // Discarding the argument block stays inside memory.
    lemma_pop_n_in_bounds(s3, arg_count as nat);
    let pd = spec_pop_n(s3, arg_count as nat);
    assert(pd.1 == Ok::<(), CpuError>(()));
    assert(read_reg(pd.0, RegisterName::Sp) == sp + 2 + 2 * arg_count);

    // Fp moves up by exactly the frame size the restore popped first,
    // landing back at its pre-save place.
    assert(fp1 as int + (s.frame + 20) == read_reg(s, RegisterName::Fp));
    let restored = spec_pop_state(saved).0;
    assert(restored == write_reg(pd.0, RegisterName::Fp, (fp1 + (s.frame + 20) as u16) as u16));
    assert forall|name: RegisterName| name != RegisterName::Sp implies read_reg(restored, name)
        == read_reg(s, name) by {
        assert(0 <= reg_index_spec(name) < 12);
    }
}

} // verus!

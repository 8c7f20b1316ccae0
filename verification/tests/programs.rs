use vm16::cpu::Cpu;
use vm16::create_memory::create_memory;
use vm16::demo::{demo_memory, test_cpu, SUBROUTINE_ADDRESS};
use vm16::instructions::Instruction;
use vm16::semantics::{CpuError, RegisterName};

fn all_instructions() -> Vec<(Instruction, u8)> {
    vec![
        (Instruction::MoveLiteralToRegister, 0x10),
        (Instruction::MoveRegisterToRegister, 0x11),
        (Instruction::MoveRegisterToMemory, 0x12),
        (Instruction::MoveMemoryToRegister, 0x13),
        (Instruction::AddRegisterToRegister, 0x14),
        (Instruction::JumpNotEq, 0x15),
        (Instruction::PushLiteral, 0x16),
        (Instruction::PushRegister, 0x17),
        (Instruction::Pop, 0x18),
        (Instruction::CallLiteral, 0x19),
        (Instruction::CallRegister, 0x1A),
        (Instruction::Return, 0x1B),
    ]
}

fn machine_with_program(program: &[u8]) -> Cpu {
    let mut memory = create_memory(0x10000);
    memory[..program.len()].copy_from_slice(program);
    Cpu::new(memory)
}

#[test]
fn decode_and_encode_are_one_bijection() {
    for (instruction, byte) in all_instructions() {
        assert_eq!(Instruction::from_byte(byte), Ok(instruction));
        assert_eq!(instruction.to_byte(), byte);
    }
    for byte in 0u8..=0xFF {
        match Instruction::from_byte(byte) {
            Ok(instruction) => assert_eq!(instruction.to_byte(), byte),
            Err(e) => {
                assert_eq!(e, CpuError::InvalidOpcode);
                assert!(!(0x10..=0x1B).contains(&byte));
            }
        }
    }
}

#[test]
fn decode_of_unmapped_byte_fails() {
    assert_eq!(Instruction::from_byte(0xFF), Err(CpuError::InvalidOpcode));
    assert_eq!(Instruction::from_byte(0x00), Err(CpuError::InvalidOpcode));
    assert_eq!(Instruction::from_byte(0x0F), Err(CpuError::InvalidOpcode));
    assert_eq!(Instruction::from_byte(0x1C), Err(CpuError::InvalidOpcode));
}

#[test]
fn step_on_unmapped_byte_fails_and_touches_nothing_but_ip() {
    let mut cpu = machine_with_program(&[0xFF]);
    let registers_before = cpu.registers.clone();
    let memory_before = cpu.memory.clone();
    assert_eq!(cpu.step(), Err(CpuError::InvalidOpcode));
    assert_eq!(cpu.memory, memory_before);
    assert_eq!(cpu.get_register(RegisterName::Ip), Ok(1));
    for index in 1..registers_before.len() {
        assert_eq!(cpu.registers[index], registers_before[index]);
    }
}

#[test]
fn move_literal_to_register_sets_the_register() {
    // MoveLiteralToRegister 0x1234 -> R1 (register index 2).
    let mut cpu = machine_with_program(&[0x10, 0x12, 0x34, 0x02]);
    assert_eq!(cpu.step(), Ok(()));
    assert_eq!(cpu.get_register(RegisterName::R1), Ok(0x1234));
    assert_eq!(cpu.get_register(RegisterName::Ip), Ok(4));
}

#[test]
fn move_register_to_register_copies_the_value() {
    // R1 := 0x0A0B, then copy R1 (index 2) into R3 (index 4).
    let mut cpu = machine_with_program(&[0x10, 0x0A, 0x0B, 0x02, 0x11, 0x02, 0x04]);
    assert_eq!(cpu.step(), Ok(()));
    assert_eq!(cpu.step(), Ok(()));
    assert_eq!(cpu.get_register(RegisterName::R3), Ok(0x0A0B));
    assert_eq!(cpu.get_register(RegisterName::R1), Ok(0x0A0B));
}

#[test]
fn move_register_to_memory_stores_big_endian() {
    // R2 := 0xCAFE, then store R2 (index 3) at address 0x2000.
    let mut cpu = machine_with_program(&[0x10, 0xCA, 0xFE, 0x03, 0x12, 0x03, 0x20, 0x00]);
    assert_eq!(cpu.step(), Ok(()));
    assert_eq!(cpu.step(), Ok(()));
    assert_eq!(cpu.get_memory_16(0x2000), Ok(0xCAFE));
    assert_eq!(cpu.memory[0x2000], 0xCA);
    assert_eq!(cpu.memory[0x2001], 0xFE);
}

#[test]
fn move_memory_to_register_loads_what_was_stored() {
    // Load the word at 0x2000 into R5 (index 6).
    let mut cpu = machine_with_program(&[0x13, 0x20, 0x00, 0x06]);
    cpu.set_memory16(0x2000, 0xD00D).unwrap();
    assert_eq!(cpu.step(), Ok(()));
    assert_eq!(cpu.get_register(RegisterName::R5), Ok(0xD00D));
}

#[test]
fn add_wraps_modulo_65536() {
    // R1 := 0x0001, R2 := 0xFFFF, Acc := R1 + R2.
    let mut cpu = machine_with_program(&[
        0x10, 0x00, 0x01, 0x02, // MoveLiteralToRegister 0x0001 -> R1
        0x10, 0xFF, 0xFF, 0x03, // MoveLiteralToRegister 0xFFFF -> R2
        0x14, 0x02, 0x03, // AddRegisterToRegister R1 R2
    ]);
    assert_eq!(cpu.step(), Ok(()));
    assert_eq!(cpu.step(), Ok(()));
    assert_eq!(cpu.step(), Ok(()));
    assert_eq!(cpu.get_register(RegisterName::Acc), Ok(0x0000));
}

#[test]
fn add_of_small_values_is_exact() {
    let mut cpu = machine_with_program(&[
        0x10, 0x00, 0x02, 0x02, // R1 := 2
        0x10, 0x00, 0x03, 0x03, // R2 := 3
        0x14, 0x02, 0x03, // Acc := R1 + R2
    ]);
    for _ in 0..3 {
        assert_eq!(cpu.step(), Ok(()));
    }
    assert_eq!(cpu.get_register(RegisterName::Acc), Ok(5));
}

#[test]
fn jump_not_eq_jumps_when_acc_differs() {
    // Acc is 0; compare with 1, so the jump to 0x0123 is taken.
    let mut cpu = machine_with_program(&[0x15, 0x00, 0x01, 0x01, 0x23]);
    assert_eq!(cpu.step(), Ok(()));
    assert_eq!(cpu.get_register(RegisterName::Ip), Ok(0x0123));
}

#[test]
fn jump_not_eq_falls_through_when_acc_equal() {
    // Acc is 0; compare with 0, so Ip just advances past the operands.
    let mut cpu = machine_with_program(&[0x15, 0x00, 0x00, 0x01, 0x23]);
    assert_eq!(cpu.step(), Ok(()));
    assert_eq!(cpu.get_register(RegisterName::Ip), Ok(5));
}

#[test]
fn push_literal_and_pop_through_instructions() {
    // PushLiteral 0x5678, then Pop into R7 (index 8).
    let mut cpu = machine_with_program(&[0x16, 0x56, 0x78, 0x18, 0x08]);
    let sp_before = cpu.get_register(RegisterName::Sp).unwrap();
    assert_eq!(cpu.step(), Ok(()));
    assert_eq!(cpu.get_register(RegisterName::Sp), Ok(sp_before - 2));
    assert_eq!(cpu.step(), Ok(()));
    assert_eq!(cpu.get_register(RegisterName::R7), Ok(0x5678));
    assert_eq!(cpu.get_register(RegisterName::Sp), Ok(sp_before));
}

#[test]
fn push_register_pushes_the_registers_value() {
    // R6 := 0x4321 (index 7), then PushRegister R6, then Pop into R8.
    let mut cpu = machine_with_program(&[0x10, 0x43, 0x21, 0x07, 0x17, 0x07, 0x18, 0x09]);
    for _ in 0..3 {
        assert_eq!(cpu.step(), Ok(()));
    }
    assert_eq!(cpu.get_register(RegisterName::R8), Ok(0x4321));
}

#[test]
fn pop_instruction_on_empty_stack_underflows() {
    let mut cpu = machine_with_program(&[0x18, 0x02]);
    assert_eq!(cpu.step(), Err(CpuError::StackUnderflow));
}

#[test]
fn call_register_jumps_to_the_held_address() {
    // R3 := 0x3000 (register index 4), then CallRegister through R3.
    let mut cpu = machine_with_program(&[0x10, 0x30, 0x00, 0x04, 0x1A, 0x04]);
    assert_eq!(cpu.step(), Ok(()));
    assert_eq!(cpu.step(), Ok(()));
    assert_eq!(cpu.get_register(RegisterName::Ip), Ok(0x3000));
}

#[test]
fn call_and_return_restore_saved_state() {
    // The demonstration program: the caller stacks 0x3333, 0x2222, 0x1111,
    // sets R1 and R4, pushes an argument count of 0 and calls the
    // subroutine, which disturbs R1 and R8 and returns.
    let mut cpu = Cpu::new(demo_memory());

    // Seven caller steps: three pushes, two register moves, the argument
    // count push, and the call.
    for _ in 0..7 {
        assert_eq!(cpu.step(), Ok(()));
    }
    assert_eq!(cpu.get_register(RegisterName::Ip), Ok(SUBROUTINE_ADDRESS as u16));

    // Six subroutine steps: three pushes, two register moves, the return.
    for _ in 0..5 {
        assert_eq!(cpu.step(), Ok(()));
    }
    assert_eq!(cpu.get_register(RegisterName::R1), Ok(0x0708));
    assert_eq!(cpu.get_register(RegisterName::R8), Ok(0x090A));
    assert_eq!(cpu.step(), Ok(()));

    // The callee's clobbering of R1 and R8 is undone; R4 survives.
    assert_eq!(cpu.get_register(RegisterName::R1), Ok(0x1234));
    assert_eq!(cpu.get_register(RegisterName::R4), Ok(0x5678));
    assert_eq!(cpu.get_register(RegisterName::R8), Ok(0x0000));

    // Control returned to the instruction after the call.
    assert_eq!(cpu.get_register(RegisterName::Ip), Ok(23));

    // The stack is back at the caller's frame boundary: the argument block
    // is cleaned off, and Fp is back at its initial top-of-memory slot.
    assert_eq!(cpu.get_register(RegisterName::Sp), Ok(0xFFF8));
    assert_eq!(cpu.get_register(RegisterName::Fp), Ok(0xFFFE));

    // The caller's three literals are still there, in reverse push order.
    assert_eq!(cpu.pop(), Ok(0x1111));
    assert_eq!(cpu.pop(), Ok(0x2222));
    assert_eq!(cpu.pop(), Ok(0x3333));
}

#[test]
fn demo_run_ends_on_the_first_unmapped_byte() {
    // After the subroutine returns and the caller's last push runs, the
    // machine fetches a zero byte, which decodes to no instruction.
    assert_eq!(test_cpu(), Err(CpuError::InvalidOpcode));
}

use vm16::cpu::Cpu;
use vm16::create_memory::{create_memory, create_registers};
use vm16::semantics::{CpuError, RegisterName};

fn fresh_cpu(size: usize) -> Cpu {
    Cpu::new(create_memory(size))
}

fn all_registers() -> Vec<RegisterName> {
    vec![
        RegisterName::Ip,
        RegisterName::Acc,
        RegisterName::R1,
        RegisterName::R2,
        RegisterName::R3,
        RegisterName::R4,
        RegisterName::R5,
        RegisterName::R6,
        RegisterName::R7,
        RegisterName::R8,
        RegisterName::Sp,
        RegisterName::Fp,
    ]
}

#[test]
fn create_memory_is_zeroed() {
    let memory = create_memory(64);
    assert_eq!(memory.len(), 64);
    assert!(memory.iter().all(|&byte| byte == 0));
}

#[test]
fn create_registers_is_zeroed() {
    let registers = create_registers(12);
    assert_eq!(registers.len(), 12);
    assert!(registers.iter().all(|&cell| cell == 0));
}

#[test]
fn new_machine_points_stack_at_top_of_memory() {
    let cpu = fresh_cpu(0x10000);
    assert_eq!(cpu.get_register(RegisterName::Sp), Ok(0xFFFE));
    assert_eq!(cpu.get_register(RegisterName::Fp), Ok(0xFFFE));
    assert_eq!(cpu.get_register(RegisterName::Ip), Ok(0));
    assert_eq!(cpu.get_register(RegisterName::Acc), Ok(0));
    assert_eq!(cpu.stack_frame_size, 0);
}

#[test]
fn register_write_then_read_round_trips_every_name() {
    let mut cpu = fresh_cpu(256);
    let mut value: u16 = 0xA001;
    for name in all_registers() {
        assert_eq!(cpu.set_register(name, value), Ok(()));
        assert_eq!(cpu.get_register(name), Ok(value));
        value = value.wrapping_add(0x1111);
    }
}

#[test]
fn register_writes_do_not_alias() {
    let mut cpu = fresh_cpu(256);
    for (i, name) in all_registers().iter().enumerate() {
        cpu.set_register(*name, 100 + i as u16).unwrap();
    }
    for (i, name) in all_registers().iter().enumerate() {
        assert_eq!(cpu.get_register(*name), Ok(100 + i as u16));
    }
}

#[test]
fn memory_write16_then_read16_round_trips() {
    let mut cpu = fresh_cpu(0x10000);
    assert_eq!(cpu.set_memory16(0x0100, 0xBEEF), Ok(()));
    assert_eq!(cpu.get_memory_16(0x0100), Ok(0xBEEF));
    assert_eq!(cpu.set_memory16(0x0000, 0x0001), Ok(()));
    assert_eq!(cpu.get_memory_16(0x0000), Ok(0x0001));
    assert_eq!(cpu.set_memory16(0xFFFE, 0x1234), Ok(()));
    assert_eq!(cpu.get_memory_16(0xFFFE), Ok(0x1234));
}

#[test]
fn memory_write16_is_big_endian() {
    let mut cpu = fresh_cpu(0x10000);
    cpu.set_memory16(0x0200, 0xABCD).unwrap();
    assert_eq!(cpu.memory[0x0200], 0xAB);
    assert_eq!(cpu.memory[0x0201], 0xCD);
}

#[test]
fn memory_access_out_of_bounds_fails() {
    let mut cpu = fresh_cpu(16);
    assert_eq!(cpu.get_memory_16(16), Err(CpuError::MemoryAddressOutOfRange));
    assert_eq!(cpu.get_memory_16(15), Err(CpuError::MemoryAddressOutOfRange));
    assert_eq!(cpu.set_memory16(15, 7), Err(CpuError::MemoryAddressOutOfRange));
    assert_eq!(cpu.get_memory_16(14), Ok(0));
}

#[test]
fn push_then_pop_returns_value_and_restores_sp() {
    let mut cpu = fresh_cpu(0x10000);
    let sp_before = cpu.get_register(RegisterName::Sp).unwrap();
    assert_eq!(cpu.push(0x5151), Ok(()));
    assert_eq!(cpu.get_register(RegisterName::Sp), Ok(sp_before - 2));
    assert_eq!(cpu.pop(), Ok(0x5151));
    assert_eq!(cpu.get_register(RegisterName::Sp), Ok(sp_before));
}

#[test]
fn stack_pops_in_reverse_push_order() {
    let mut cpu = fresh_cpu(0x10000);
    cpu.push(0x5151).unwrap();
    cpu.push(0x4242).unwrap();
    assert_eq!(cpu.pop(), Ok(0x4242));
    assert_eq!(cpu.pop(), Ok(0x5151));
}

#[test]
fn pop_on_empty_stack_underflows() {
    let mut cpu = fresh_cpu(0x10000);
    assert_eq!(cpu.pop(), Err(CpuError::StackUnderflow));
    assert_eq!(cpu.get_register(RegisterName::Sp), Ok(0xFFFE));
}

#[test]
fn push_at_bottom_of_address_space_overflows() {
    let mut cpu = fresh_cpu(0x10000);
    cpu.set_register(RegisterName::Sp, 0).unwrap();
    assert_eq!(cpu.push(1), Err(CpuError::StackOverflow));
    cpu.set_register(RegisterName::Sp, 1).unwrap();
    assert_eq!(cpu.push(1), Err(CpuError::StackOverflow));
}

#[test]
fn push_state_lays_down_the_frame_in_order() {
    let mut cpu = fresh_cpu(0x10000);
    for (i, name) in all_registers().iter().enumerate() {
        if *name != RegisterName::Sp && *name != RegisterName::Fp {
            cpu.set_register(*name, 0x0A00 + i as u16).unwrap();
        }
    }
    cpu.push(0x0000).unwrap(); // the argument count a caller would push
    assert_eq!(cpu.push_state(), Ok(()));

    // Sp and Fp both sit at the bottom of the ten-slot save; the counter
    // restarts for the callee.
    assert_eq!(cpu.get_register(RegisterName::Sp), Ok(0xFFFC - 20));
    assert_eq!(cpu.get_register(RegisterName::Fp), Ok(0xFFFC - 20));
    assert_eq!(cpu.stack_frame_size, 0);

    // From the bottom up: the counter (the argument push's 2 bytes plus the
    // frame's own 20), the return address, then R8 back down to R1.
    assert_eq!(cpu.get_memory_16(0xFFFC - 18), Ok(22));
    assert_eq!(cpu.get_memory_16(0xFFFC - 16), Ok(0x0A00)); // Ip
    assert_eq!(cpu.get_memory_16(0xFFFC - 14), Ok(0x0A09)); // R8
    assert_eq!(cpu.get_memory_16(0xFFFC - 12), Ok(0x0A08)); // R7
    assert_eq!(cpu.get_memory_16(0xFFFC - 2), Ok(0x0A03)); // R2
    assert_eq!(cpu.get_memory_16(0xFFFC), Ok(0x0A02)); // R1
}

#[test]
fn register_name_resolves_in_file_order() {
    let cpu = fresh_cpu(16);
    assert_eq!(cpu.get_register_name(0), Ok(RegisterName::Ip));
    assert_eq!(cpu.get_register_name(1), Ok(RegisterName::Acc));
    assert_eq!(cpu.get_register_name(2), Ok(RegisterName::R1));
    assert_eq!(cpu.get_register_name(9), Ok(RegisterName::R8));
    assert_eq!(cpu.get_register_name(10), Ok(RegisterName::Sp));
    assert_eq!(cpu.get_register_name(11), Ok(RegisterName::Fp));
    assert_eq!(cpu.get_register_name(12), Err(CpuError::RegisterIndexOutOfRange));
    assert_eq!(cpu.get_register_name(0xFF), Err(CpuError::RegisterIndexOutOfRange));
}

#[test]
fn fetch_reads_at_ip_and_advances() {
    let mut memory = create_memory(8);
    memory[3] = 0xAB;
    let mut cpu = Cpu::new(memory);
    cpu.set_register(RegisterName::Ip, 3).unwrap();
    assert_eq!(cpu.fetch(), Ok(0xAB));
    assert_eq!(cpu.get_register(RegisterName::Ip), Ok(4));
}

#[test]
fn fetch16_reads_big_endian_and_advances_by_two() {
    let mut memory = create_memory(8);
    memory[2] = 0x12;
    memory[3] = 0x34;
    let mut cpu = Cpu::new(memory);
    cpu.set_register(RegisterName::Ip, 2).unwrap();
    assert_eq!(cpu.fetch16(), Ok(0x1234));
    assert_eq!(cpu.get_register(RegisterName::Ip), Ok(4));
}

#[test]
fn fetch_outside_memory_fails() {
    let mut cpu = fresh_cpu(8);
    cpu.set_register(RegisterName::Ip, 8).unwrap();
    assert_eq!(cpu.fetch(), Err(CpuError::MemoryAddressOutOfRange));
}

#[test]
fn fetch_at_top_of_address_space_fails_instead_of_wrapping() {
    let mut cpu = fresh_cpu(0x10000);
    cpu.set_register(RegisterName::Ip, 0xFFFF).unwrap();
    assert_eq!(cpu.fetch(), Err(CpuError::MemoryAddressOutOfRange));
    // The checked failure comes before any change: Ip did not wrap.
    assert_eq!(cpu.get_register(RegisterName::Ip), Ok(0xFFFF));
    cpu.set_register(RegisterName::Ip, 0xFFFE).unwrap();
    assert_eq!(cpu.fetch16(), Err(CpuError::MemoryAddressOutOfRange));
    assert_eq!(cpu.get_register(RegisterName::Ip), Ok(0xFFFE));
}

#[test]
fn fetch_register_index_reduces_modulo_register_count() {
    let mut memory = create_memory(8);
    memory[0] = 26; // 26 % 12 == 2, aliasing onto R1's index
    let mut cpu = Cpu::new(memory);
    assert_eq!(cpu.fetch_register_index(), Ok(2));
}

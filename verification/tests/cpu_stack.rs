#![allow(unused_imports)]
#![allow(dead_code)]

use nes::emulator::cpu;
use nes::emulator::cpu::flags::Flag;
use nes::emulator::cpu::opcodes;
use nes::emulator::cpu::CPU;
use nes::emulator::memory::{Memory, Writer};
use nes::emulator::util;

const PROGRAM_ROOT: u16 = 0xF000;

fn new_cpu() -> CPU<Memory> {
    cpu::new(Memory::new_ram(0x10000))
}

fn load_data(memory: &mut Memory, addr: u16, bytes: &[u8]) {
    for (ix, byte) in bytes.iter().enumerate() {
        memory.write(addr + (ix as u16), *byte);
    }
}

fn load_program(cpu: &mut CPU<Memory>, program: &[u8]) {
    load_data(&mut cpu.memory, PROGRAM_ROOT, program);
    cpu.pc = PROGRAM_ROOT;
}

// Returns total number of elapsed cycles.
fn run_program(cpu: &mut CPU<Memory>, program: &[u8]) -> u32 {
    let program_size = program.len() as u16;
    load_program(cpu, program);
    cpu.pc = PROGRAM_ROOT;

    let mut cycles = 0;
    for _ in 1..1000 {
        if cpu.pc >= PROGRAM_ROOT + program_size {
            return cycles;
        }
        cycles += cpu.execute_next_instruction();
    }

    panic!("Program didn't terminate after 1000 ticks");
}

fn run_instructions(cpu: &mut CPU<Memory>, num_instructions: u32) -> u32 {
    let mut cycles = 0;
    for _ in 0..num_instructions {
        cycles += cpu.execute_next_instruction();
    }
    cycles
}

#[test]
fn test_jsr() {
    let mut cpu = new_cpu();
    load_program(&mut cpu, &[0x20, 0xEF, 0xBE]);
    let pc_before = cpu.pc;
    let cycles = run_instructions(&mut cpu, 1);
    assert_eq!(cpu.pc, 0xBEEF);

    // Test that the PC was pushed to the stack.
    let pc_low = cpu.stack_pop();
    let pc_high = cpu.stack_pop();
    assert_eq!(util::combine_bytes(pc_high, pc_low), pc_before + 2);

    assert_eq!(cycles, 6);
}

#[test]
fn test_rts() {
    let mut cpu = new_cpu();
    cpu.stack_push(0xBE);
    cpu.stack_push(0xEE);
    load_program(&mut cpu, &[0x60]);
    let cycles = run_instructions(&mut cpu, 1);
    assert_eq!(cpu.pc, 0xBEEF);
    assert_eq!(cycles, 6);
}

#[test]
fn test_pha() {
    let mut cpu = new_cpu();
    cpu.a = 0x34;
    let cycles = run_program(&mut cpu, &[0x48]);
    assert_eq!(cpu.a, 0x34);
    assert_eq!(cpu.stack_pop(), 0x34);
    assert_eq!(cycles, 3);
}

#[test]
fn test_pla() {
    let mut cpu = new_cpu();
    cpu.stack_push(0x34);
    let cycles = run_program(&mut cpu, &[0x68]);
    assert_eq!(cpu.a, 0x34);
    assert_eq!(cycles, 3);
}

#[test]
fn test_pla_sets_negative_flag() {
    let mut cpu = new_cpu();
    cpu.stack_push(0xFF);
    let cycles = run_program(&mut cpu, &[0x68]);
    assert_eq!(cpu.a, 0xFF);
    assert_eq!(cpu.p.is_set(Flag::N.bits()), true);
    assert_eq!(cycles, 3);
}

#[test]
fn test_pla_sets_zero_flag() {
    let mut cpu = new_cpu();
    cpu.stack_push(0x00);
    let cycles = run_program(&mut cpu, &[0x68]);
    assert_eq!(cpu.a, 0x00);
    assert_eq!(cpu.p.is_set(Flag::Z.bits()), true);
    assert_eq!(cycles, 3);
}


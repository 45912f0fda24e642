#![allow(unused_imports)]
#![allow(dead_code)]

use nes::emulator::cpu;
use nes::emulator::cpu::flags::Flag;
use nes::emulator::cpu::opcodes;
use nes::emulator::cpu::CPU;
use nes::emulator::memory::{Memory, Writer};
use nes::emulator::util;

const PROGRAM_ROOT: u16 = 0xF000;

fn new_cpu() -> CPU<Memory> {
    cpu::new(Memory::new_ram(0x10000))
}

fn load_data(memory: &mut Memory, addr: u16, bytes: &[u8]) {
    for (ix, byte) in bytes.iter().enumerate() {
        memory.write(addr + (ix as u16), *byte);
    }
}

fn load_program(cpu: &mut CPU<Memory>, program: &[u8]) {
    load_data(&mut cpu.memory, PROGRAM_ROOT, program);
    cpu.pc = PROGRAM_ROOT;
}

// Returns total number of elapsed cycles.
fn run_program(cpu: &mut CPU<Memory>, program: &[u8]) -> u32 {
    let program_size = program.len() as u16;
    load_program(cpu, program);
    cpu.pc = PROGRAM_ROOT;

    let mut cycles = 0;
    for _ in 1..1000 {
        if cpu.pc >= PROGRAM_ROOT + program_size {
            return cycles;
        }
        cycles += cpu.execute_next_instruction();
    }

    panic!("Program didn't terminate after 1000 ticks");
}

fn run_instructions(cpu: &mut CPU<Memory>, num_instructions: u32) -> u32 {
    let mut cycles = 0;
    for _ in 0..num_instructions {
        cycles += cpu.execute_next_instruction();
    }
    cycles
}

#[test]
fn test_lda_sets_zero_flag() {
    let mut cpu = new_cpu();
    assert_eq!(cpu.p.is_set(Flag::Z.bits()), false);
    run_program(&mut cpu, &[0xA9, 0x00]);
    assert_eq!(cpu.a, 0x00);
    assert_eq!(cpu.p.is_set(Flag::Z.bits()), true);
}

#[test]
fn test_lda_sets_negative_flag() {
    let mut cpu = new_cpu();
    assert_eq!(cpu.p.is_set(Flag::N.bits()), false);
    run_program(&mut cpu, &[0xA9, 0x90]);
    assert_eq!(cpu.a, 0x90);
    assert_eq!(cpu.p.is_set(Flag::N.bits()), true);
}

#[test]
fn test_lda_immediate() {
    let mut cpu = new_cpu();
    let cycles = run_program(&mut cpu, &[0xA9, 0x12]);
    assert_eq!(cpu.a, 0x12);
    assert_eq!(cycles, 2);
}

#[test]
fn test_lda_zero_page() {
    let mut cpu = new_cpu();
    load_data(&mut cpu.memory, 0x0034, &[0x97]);
    let cycles = run_program(&mut cpu, &[0xA5, 0x34]);
    assert_eq!(cpu.a, 0x97);
    assert_eq!(cycles, 3);
}

#[test]
fn test_lda_zero_page_indexed() {
    let mut cpu = new_cpu();
    cpu.x = 0x12;
    load_data(&mut cpu.memory, 0x0034, &[0x97]);
    let cycles = run_program(&mut cpu, &[0xB5, 0x22]);
    assert_eq!(cpu.a, 0x97);
    assert_eq!(cycles, 4);
}

#[test]
fn test_lda_absolute() {
    let mut cpu = new_cpu();
    load_data(&mut cpu.memory, 0x5678, &[0x97]);
    let cycles = run_program(&mut cpu, &[0xAD, 0x78, 0x56]);
    assert_eq!(cpu.a, 0x97);
    assert_eq!(cycles, 4);
}

#[test]
fn test_lda_absolute_x() {
    let mut cpu = new_cpu();
    cpu.x = 0x34;
    load_data(&mut cpu.memory, 0x5678, &[0x97]);
    let cycles = run_program(&mut cpu, &[0xBD, 0x44, 0x56]);
    assert_eq!(cpu.a, 0x97);
    assert_eq!(cycles, 4);
}

#[test]
fn test_lda_absolute_y() {
    let mut cpu = new_cpu();
    cpu.y = 0x02;
    load_data(&mut cpu.memory, 0x5701, &[0x97]);
    let cycles = run_program(&mut cpu, &[0xB9, 0xFF, 0x56]);
    assert_eq!(cpu.a, 0x97);
    // Crosses page boundary.
    assert_eq!(cycles, 5);
}

#[test]
fn test_lda_indexed_indirect() {
    let mut cpu = new_cpu();
    cpu.x = 0x12;
    load_data(&mut cpu.memory, 0x0046, &[0xEF, 0xBE]);
    load_data(&mut cpu.memory, 0xBEEF, &[0x97]);
    let cycles = run_program(&mut cpu, &[0xA1, 0x34]);
    assert_eq!(cpu.a, 0x97);
    assert_eq!(cycles, 6);
}

#[test]
fn test_lda_indirect_indexed() {
    let mut cpu = new_cpu();
    cpu.y = 0x12;
    load_data(&mut cpu.memory, 0x0034, &[0xDD, 0xBE]);
    load_data(&mut cpu.memory, 0xBEEF, &[0x97]);
    let cycles = run_program(&mut cpu, &[0xB1, 0x34]);
    assert_eq!(cpu.a, 0x97);
    assert_eq!(cycles, 5);
}

#[test]
fn test_sta_zero_page() {
    let mut cpu = new_cpu();
    cpu.a = 0x34;
    let cycles = run_program(&mut cpu, &[0x85, 0x67]);
    assert_eq!(cpu.a, 0x34);
    assert_eq!(cpu.load_memory(0x0067), 0x34);
    assert_eq!(cycles, 3);
}

#[test]
fn test_sta_zero_page_indexed() {
    let mut cpu = new_cpu();
    cpu.a = 0x34;
    cpu.x = 0x08;
    let cycles = run_program(&mut cpu, &[0x95, 0x67]);
    assert_eq!(cpu.a, 0x34);
    assert_eq!(cpu.load_memory(0x006F), 0x34);
    assert_eq!(cycles, 4);
}

#[test]
fn test_sta_absolute() {
    let mut cpu = new_cpu();
    cpu.a = 0x34;
    let cycles = run_program(&mut cpu, &[0x8D, 0x67, 0x45]);
    assert_eq!(cpu.a, 0x34);
    assert_eq!(cpu.load_memory(0x4567), 0x34);
    assert_eq!(cycles, 4);
}

#[test]
fn test_sta_absolute_x() {
    let mut cpu = new_cpu();
    cpu.a = 0x97;
    cpu.x = 0x34;
    let cycles = run_program(&mut cpu, &[0x9D, 0x44, 0x56]);
    assert_eq!(cpu.a, 0x97);
    assert_eq!(cpu.load_memory(0x5678), 0x97);
    assert_eq!(cycles, 5);
}

#[test]
fn test_sta_absolute_y() {
    let mut cpu = new_cpu();
    cpu.a = 0x97;
    cpu.y = 0x34;
    let cycles = run_program(&mut cpu, &[0x99, 0x44, 0x56]);
    assert_eq!(cpu.a, 0x97);
    assert_eq!(cpu.load_memory(0x5678), 0x97);
    assert_eq!(cycles, 5);
}

#[test]
fn test_sta_indexed_indirect() {
    let mut cpu = new_cpu();
    cpu.a = 0x97;
    cpu.x = 0x12;
    load_data(&mut cpu.memory, 0x0046, &[0xEF, 0xBE]);
    let cycles = run_program(&mut cpu, &[0x81, 0x34]);
    assert_eq!(cpu.a, 0x97);
    assert_eq!(cpu.load_memory(0xBEEF), 0x97);
    assert_eq!(cycles, 6);
}

#[test]
fn test_sta_indirect_indexed() {
    let mut cpu = new_cpu();
    cpu.a = 0x97;
    cpu.y = 0x12;
    load_data(&mut cpu.memory, 0x0034, &[0xDD, 0xBE]);
    let cycles = run_program(&mut cpu, &[0x91, 0x34]);
    assert_eq!(cpu.a, 0x97);
    assert_eq!(cpu.load_memory(0xBEEF), 0x97);
    assert_eq!(cycles, 6);
}

#[test]
fn test_nop_does_nothing_and_takes_2_cycles() {
    let mut cpu = new_cpu();
    let cycles = run_program(&mut cpu, &[0xEA]);
    assert_eq!(cycles, 2);
}


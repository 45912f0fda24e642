#![allow(unused_imports)]
#![allow(dead_code)]

use nes::emulator::cpu;
use nes::emulator::cpu::flags::Flag;
use nes::emulator::cpu::opcodes;
use nes::emulator::cpu::CPU;
use nes::emulator::memory::{Memory, Writer};
use nes::emulator::util;

const PROGRAM_ROOT: u16 = 0xF000;

fn new_cpu() -> CPU<Memory> {
    cpu::new(Memory::new_ram(0x10000))
}

fn load_data(memory: &mut Memory, addr: u16, bytes: &[u8]) {
    for (ix, byte) in bytes.iter().enumerate() {
        memory.write(addr + (ix as u16), *byte);
    }
}

fn load_program(cpu: &mut CPU<Memory>, program: &[u8]) {
    load_data(&mut cpu.memory, PROGRAM_ROOT, program);
    cpu.pc = PROGRAM_ROOT;
}

// Returns total number of elapsed cycles.
fn run_program(cpu: &mut CPU<Memory>, program: &[u8]) -> u32 {
    let program_size = program.len() as u16;
    load_program(cpu, program);
    cpu.pc = PROGRAM_ROOT;

    let mut cycles = 0;
    for _ in 1..1000 {
        if cpu.pc >= PROGRAM_ROOT + program_size {
            return cycles;
        }
        cycles += cpu.execute_next_instruction();
    }

    panic!("Program didn't terminate after 1000 ticks");
}

fn run_instructions(cpu: &mut CPU<Memory>, num_instructions: u32) -> u32 {
    let mut cycles = 0;
    for _ in 0..num_instructions {
        cycles += cpu.execute_next_instruction();
    }
    cycles
}

#[test]
fn test_sec() {
    let mut cpu = new_cpu();
    assert_eq!(cpu.p.is_set(Flag::C.bits()), false);
    let cycles = run_program(&mut cpu, &[0x38]);
    assert_eq!(cpu.p.is_set(Flag::C.bits()), true);
    assert_eq!(cycles, 2);
}

#[test]
fn test_clc() {
    let mut cpu = new_cpu();
    cpu.p.set(Flag::C.bits());
    assert_eq!(cpu.p.is_set(Flag::C.bits()), true);
    let cycles = run_program(&mut cpu, &[0x18]);
    assert_eq!(cpu.p.is_set(Flag::C.bits()), false);
    assert_eq!(cycles, 2);
}

#[test]
fn test_sei() {
    let mut cpu = new_cpu();
    assert_eq!(cpu.p.is_set(Flag::I.bits()), false);
    let cycles = run_program(&mut cpu, &[0x78]);
    assert_eq!(cpu.p.is_set(Flag::I.bits()), true);
    assert_eq!(cycles, 2);
}

#[test]
fn test_cli() {
    let mut cpu = new_cpu();
    cpu.p.set(Flag::I.bits());
    assert_eq!(cpu.p.is_set(Flag::I.bits()), true);
    let cycles = run_program(&mut cpu, &[0x58]);
    assert_eq!(cpu.p.is_set(Flag::I.bits()), false);
    assert_eq!(cycles, 2);
}

#[test]
fn test_sed() {
    let mut cpu = new_cpu();
    assert_eq!(cpu.p.is_set(Flag::D.bits()), false);
    let cycles = run_program(&mut cpu, &[0xF8]);
    assert_eq!(cpu.p.is_set(Flag::D.bits()), true);
    assert_eq!(cycles, 2);
}

#[test]
fn test_cld() {
    let mut cpu = new_cpu();
    cpu.p.set(Flag::D.bits());
    assert_eq!(cpu.p.is_set(Flag::D.bits()), true);
    let cycles = run_program(&mut cpu, &[0xD8]);
    assert_eq!(cpu.p.is_set(Flag::D.bits()), false);
    assert_eq!(cycles, 2);
}

#[test]
fn test_clv() {
    let mut cpu = new_cpu();
    cpu.p.set(Flag::V.bits());
    assert_eq!(cpu.p.is_set(Flag::V.bits()), true);
    let cycles = run_program(&mut cpu, &[0xB8]);
    assert_eq!(cpu.p.is_set(Flag::V.bits()), false);
    assert_eq!(cycles, 2);
}

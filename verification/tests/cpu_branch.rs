#![allow(unused_imports)]
#![allow(dead_code)]

use nes::emulator::cpu;
use nes::emulator::cpu::flags::Flag;
use nes::emulator::cpu::opcodes;
use nes::emulator::cpu::CPU;
use nes::emulator::memory::{Memory, Writer};
use nes::emulator::util;

const PROGRAM_ROOT: u16 = 0xF000;

fn new_cpu() -> CPU<Memory> {
    cpu::new(Memory::new_ram(0x10000))
}

fn load_data(memory: &mut Memory, addr: u16, bytes: &[u8]) {
    for (ix, byte) in bytes.iter().enumerate() {
        memory.write(addr + (ix as u16), *byte);
    }
}

fn load_program(cpu: &mut CPU<Memory>, program: &[u8]) {
    load_data(&mut cpu.memory, PROGRAM_ROOT, program);
    cpu.pc = PROGRAM_ROOT;
}

// Returns total number of elapsed cycles.
fn run_program(cpu: &mut CPU<Memory>, program: &[u8]) -> u32 {
    let program_size = program.len() as u16;
    load_program(cpu, program);
    cpu.pc = PROGRAM_ROOT;

    let mut cycles = 0;
    for _ in 1..1000 {
        if cpu.pc >= PROGRAM_ROOT + program_size {
            return cycles;
        }
        cycles += cpu.execute_next_instruction();
    }

    panic!("Program didn't terminate after 1000 ticks");
}

fn run_instructions(cpu: &mut CPU<Memory>, num_instructions: u32) -> u32 {
    let mut cycles = 0;
    for _ in 0..num_instructions {
        cycles += cpu.execute_next_instruction();
    }
    cycles
}

#[test]
fn test_jmp_absolute() {
    let mut cpu = new_cpu();
    load_program(&mut cpu, &[0x4C, 0xEF, 0xBE]);
    let cycles = run_instructions(&mut cpu, 1);
    assert_eq!(cpu.pc, 0xBEEF);
    assert_eq!(cycles, 3);
}

#[test]
fn test_jmp_indirect() {
    let mut cpu = new_cpu();
    load_data(&mut cpu.memory, 0xDEAD, &[0xEF, 0xBE]);
    load_program(&mut cpu, &[0x6C, 0xAD, 0xDE]);
    let cycles = run_instructions(&mut cpu, 1);
    assert_eq!(cpu.pc, 0xBEEF);
    assert_eq!(cycles, 5);
}

#[test]
fn test_bcc_no_branch() {
    let mut cpu = new_cpu();
    cpu.p.set(Flag::C.bits());
    load_program(&mut cpu, &[0x90, 0xFF]);

    let pc_before = cpu.pc;
    let cycles = run_instructions(&mut cpu, 1);
    assert_eq!(cpu.pc, pc_before + 2);
    assert_eq!(cycles, 2);
}

#[test]
fn test_bcc_branch_positive() {
    let mut cpu = new_cpu();
    cpu.p.clear(Flag::C.bits());
    load_program(&mut cpu, &[0x90, 0x08]);

    let pc_before = cpu.pc;
    let cycles = run_instructions(&mut cpu, 1);
    assert_eq!(cpu.pc, pc_before + 2 + 8);
    assert_eq!(cycles, 3);
}

#[test]
fn test_bcc_branch_negative_page_boundary() {
    let mut cpu = new_cpu();
    cpu.p.clear(Flag::C.bits());
    load_program(&mut cpu, &[0x90, 0b1111_1100]); // -4

    let pc_before = cpu.pc;
    let cycles = run_instructions(&mut cpu, 1);
    assert_eq!(cpu.pc, pc_before + 2 - 4);
    assert_eq!(cycles, 4);
}

#[test]
fn test_bcs_branch_positive() {
    let mut cpu = new_cpu();
    cpu.p.set(Flag::C.bits());
    load_program(&mut cpu, &[0xB0, 0x08]);

    let pc_before = cpu.pc;
    let cycles = run_instructions(&mut cpu, 1);
    assert_eq!(cpu.pc, pc_before + 2 + 8);
    assert_eq!(cycles, 3);
}

#[test]
fn test_beq_branch_positive() {
    let mut cpu = new_cpu();
    cpu.p.set(Flag::Z.bits());
    load_program(&mut cpu, &[0xF0, 0x08]);

    let pc_before = cpu.pc;
    let cycles = run_instructions(&mut cpu, 1);
    assert_eq!(cpu.pc, pc_before + 2 + 8);
    assert_eq!(cycles, 3);
}

#[test]
fn test_bmi_branch_positive() {
    let mut cpu = new_cpu();
    cpu.p.set(Flag::N.bits());
    load_program(&mut cpu, &[0x30, 0x08]);

    let pc_before = cpu.pc;
    let cycles = run_instructions(&mut cpu, 1);
    assert_eq!(cpu.pc, pc_before + 2 + 8);
    assert_eq!(cycles, 3)
}

#[test]
fn test_bne_branch_positive() {
    let mut cpu = new_cpu();
    cpu.p.clear(Flag::Z.bits());
    load_program(&mut cpu, &[0xD0, 0x08]);

    let pc_before = cpu.pc;
    let cycles = run_instructions(&mut cpu, 1);
    assert_eq!(cpu.pc, pc_before + 2 + 8);
    assert_eq!(cycles, 3)
}

#[test]
fn test_bpl_branch_positive() {
    let mut cpu = new_cpu();
    cpu.p.clear(Flag::N.bits());
    load_program(&mut cpu, &[0x10, 0x08]);

    let pc_before = cpu.pc;
    let cycles = run_instructions(&mut cpu, 1);
    assert_eq!(cpu.pc, pc_before + 2 + 8);
    assert_eq!(cycles, 3)
}

#[test]
fn test_bvc_branch_positive() {
    let mut cpu = new_cpu();
    cpu.p.clear(Flag::V.bits());
    load_program(&mut cpu, &[0x10, 0x08]);

    let pc_before = cpu.pc;
    let cycles = run_instructions(&mut cpu, 1);
    assert_eq!(cpu.pc, pc_before + 2 + 8);
    assert_eq!(cycles, 3)
}

#[test]
fn test_bvs_branch_positive() {
    let mut cpu = new_cpu();
    cpu.p.set(Flag::V.bits());
    load_program(&mut cpu, &[0x10, 0x08]);

    let pc_before = cpu.pc;
    let cycles = run_instructions(&mut cpu, 1);
    assert_eq!(cpu.pc, pc_before + 2 + 8);
    assert_eq!(cycles, 3)
}


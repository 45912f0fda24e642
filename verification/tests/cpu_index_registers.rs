#![allow(unused_imports)]
#![allow(dead_code)]

use nes::emulator::cpu;
use nes::emulator::cpu::flags::Flag;
use nes::emulator::cpu::opcodes;
use nes::emulator::cpu::CPU;
use nes::emulator::memory::{Memory, Writer};
use nes::emulator::util;

const PROGRAM_ROOT: u16 = 0xF000;

fn new_cpu() -> CPU<Memory> {
    cpu::new(Memory::new_ram(0x10000))
}

fn load_data(memory: &mut Memory, addr: u16, bytes: &[u8]) {
    for (ix, byte) in bytes.iter().enumerate() {
        memory.write(addr + (ix as u16), *byte);
    }
}

fn load_program(cpu: &mut CPU<Memory>, program: &[u8]) {
    load_data(&mut cpu.memory, PROGRAM_ROOT, program);
    cpu.pc = PROGRAM_ROOT;
}

// Returns total number of elapsed cycles.
fn run_program(cpu: &mut CPU<Memory>, program: &[u8]) -> u32 {
    let program_size = program.len() as u16;
    load_program(cpu, program);
    cpu.pc = PROGRAM_ROOT;

    let mut cycles = 0;
    for _ in 1..1000 {
        if cpu.pc >= PROGRAM_ROOT + program_size {
            return cycles;
        }
        cycles += cpu.execute_next_instruction();
    }

    panic!("Program didn't terminate after 1000 ticks");
}

fn run_instructions(cpu: &mut CPU<Memory>, num_instructions: u32) -> u32 {
    let mut cycles = 0;
    for _ in 0..num_instructions {
        cycles += cpu.execute_next_instruction();
    }
    cycles
}

#[test]
fn test_ldx_immediate() {
    let mut cpu = new_cpu();
    let cycles = run_program(&mut cpu, &[0xA2, 0xDE]);
    assert_eq!(cpu.x, 0xDE);
    assert_eq!(cycles, 2);
}

#[test]
fn test_ldx_immediate_sets_zero_flag() {
    let mut cpu = new_cpu();
    let cycles = run_program(&mut cpu, &[0xA2, 0x00]);
    assert_eq!(cpu.x, 0x00);
    assert_eq!(cpu.p.is_set(Flag::Z.bits()), true);
    assert_eq!(cycles, 2);
}

#[test]
fn test_ldx_immediate_sets_negative_flag() {
    let mut cpu = new_cpu();
    let cycles = run_program(&mut cpu, &[0xA2, 0xFF]);
    assert_eq!(cpu.x, 0xFF);
    assert_eq!(cpu.p.is_set(Flag::N.bits()), true);
    assert_eq!(cycles, 2);
}

#[test]
fn test_ldx_zero_page() {
    let mut cpu = new_cpu();
    load_data(&mut cpu.memory, 0x0024, &[0xDE]);
    let cycles = run_program(&mut cpu, &[0xA6, 0x24]);
    assert_eq!(cpu.x, 0xDE);
    assert_eq!(cycles, 3);
}

#[test]
fn test_ldx_zero_page_y() {
    let mut cpu = new_cpu();
    cpu.y = 0x10;
    load_data(&mut cpu.memory, 0x0034, &[0xDE]);
    let cycles = run_program(&mut cpu, &[0xB6, 0x24]);
    assert_eq!(cpu.x, 0xDE);
    assert_eq!(cycles, 4);
}

#[test]
fn test_ldx_absolute() {
    let mut cpu = new_cpu();
    load_data(&mut cpu.memory, 0xBEEF, &[0xDE]);
    let cycles = run_program(&mut cpu, &[0xAE, 0xEF, 0xBE]);
    assert_eq!(cpu.x, 0xDE);
    assert_eq!(cycles, 4);
}

#[test]
fn test_ldx_absolute_y() {
    let mut cpu = new_cpu();
    cpu.y = 0x10;
    load_data(&mut cpu.memory, 0xBEEF, &[0xDE]);
    let cycles = run_program(&mut cpu, &[0xBE, 0xDF, 0xBE]);
    assert_eq!(cpu.x, 0xDE);
    assert_eq!(cycles, 4);
}

#[test]
fn test_ldy_immediate() {
    let mut cpu = new_cpu();
    let cycles = run_program(&mut cpu, &[0xA0, 0xDE]);
    assert_eq!(cpu.y, 0xDE);
    assert_eq!(cycles, 2);
}

#[test]
fn test_ldy_immediate_sets_zero_flag() {
    let mut cpu = new_cpu();
    let cycles = run_program(&mut cpu, &[0xA0, 0x00]);
    assert_eq!(cpu.y, 0x00);
    assert_eq!(cpu.p.is_set(Flag::Z.bits()), true);
    assert_eq!(cycles, 2);
}

#[test]
fn test_ldy_immediate_sets_negative_flag() {
    let mut cpu = new_cpu();
    let cycles = run_program(&mut cpu, &[0xA0, 0xFF]);
    assert_eq!(cpu.y, 0xFF);
    assert_eq!(cpu.p.is_set(Flag::N.bits()), true);
    assert_eq!(cycles, 2);
}

#[test]
fn test_ldy_zero_page() {
    let mut cpu = new_cpu();
    load_data(&mut cpu.memory, 0x0024, &[0xDE]);
    let cycles = run_program(&mut cpu, &[0xA4, 0x24]);
    assert_eq!(cpu.y, 0xDE);
    assert_eq!(cycles, 3);
}

#[test]
fn test_ldy_zero_page_x() {
    let mut cpu = new_cpu();
    cpu.x = 0x10;
    load_data(&mut cpu.memory, 0x0034, &[0xDE]);
    let cycles = run_program(&mut cpu, &[0xB4, 0x24]);
    assert_eq!(cpu.y, 0xDE);
    assert_eq!(cycles, 4);
}

#[test]
fn test_ldy_absolute() {
    let mut cpu = new_cpu();
    load_data(&mut cpu.memory, 0xBEEF, &[0xDE]);
    let cycles = run_program(&mut cpu, &[0xAC, 0xEF, 0xBE]);
    assert_eq!(cpu.y, 0xDE);
    assert_eq!(cycles, 4);
}

#[test]
fn test_ldy_absolute_x() {
    let mut cpu = new_cpu();
    cpu.x = 0x10;
    load_data(&mut cpu.memory, 0xBEEF, &[0xDE]);
    let cycles = run_program(&mut cpu, &[0xBC, 0xDF, 0xBE]);
    assert_eq!(cpu.y, 0xDE);
    assert_eq!(cycles, 4);
}

#[test]
fn test_stx_zero_page() {
    let mut cpu = new_cpu();
    cpu.x = 0x34;
    let cycles = run_program(&mut cpu, &[0x86, 0x67]);
    assert_eq!(cpu.x, 0x34);
    assert_eq!(cpu.load_memory(0x0067), 0x34);
    assert_eq!(cycles, 3);
}

#[test]
fn test_stx_zero_page_y() {
    let mut cpu = new_cpu();
    cpu.x = 0x34;
    cpu.y = 0x08;
    let cycles = run_program(&mut cpu, &[0x96, 0x67]);
    assert_eq!(cpu.x, 0x34);
    assert_eq!(cpu.load_memory(0x006F), 0x34);
    assert_eq!(cycles, 4);
}

#[test]
fn test_stx_absolute() {
    let mut cpu = new_cpu();
    cpu.x = 0x34;
    let cycles = run_program(&mut cpu, &[0x8E, 0x67, 0x45]);
    assert_eq!(cpu.x, 0x34);
    assert_eq!(cpu.load_memory(0x4567), 0x34);
    assert_eq!(cycles, 4);
}

#[test]
fn test_sty_zero_page() {
    let mut cpu = new_cpu();
    cpu.y = 0x34;
    let cycles = run_program(&mut cpu, &[0x84, 0x67]);
    assert_eq!(cpu.y, 0x34);
    assert_eq!(cpu.load_memory(0x0067), 0x34);
    assert_eq!(cycles, 3);
}

#[test]
fn test_sty_zero_page_y() {
    let mut cpu = new_cpu();
    cpu.y = 0x34;
    cpu.x = 0x08;
    let cycles = run_program(&mut cpu, &[0x94, 0x67]);
    assert_eq!(cpu.y, 0x34);
    assert_eq!(cpu.load_memory(0x006F), 0x34);
    assert_eq!(cycles, 4);
}

#[test]
fn test_sty_absolute() {
    let mut cpu = new_cpu();
    cpu.y = 0x34;
    let cycles = run_program(&mut cpu, &[0x8C, 0x67, 0x45]);
    assert_eq!(cpu.y, 0x34);
    assert_eq!(cpu.load_memory(0x4567), 0x34);
    assert_eq!(cycles, 4);
}

#[test]
fn test_inx_no_wrap() {
    let mut cpu = new_cpu();
    cpu.x = 0x34;
    let cycles = run_program(&mut cpu, &[0xE8]);
    assert_eq!(cpu.x, 0x35);
    assert_eq!(cycles, 2);
}

#[test]
fn test_inx_wrap() {
    let mut cpu = new_cpu();
    cpu.x = 0xFF;
    let cycles = run_program(&mut cpu, &[0xE8]);
    assert_eq!(cpu.x, 0x00);
    assert_eq!(cycles, 2);
}

#[test]
fn test_iny_no_wrap() {
    let mut cpu = new_cpu();
    cpu.y = 0x34;
    let cycles = run_program(&mut cpu, &[0xC8]);
    assert_eq!(cpu.y, 0x35);
    assert_eq!(cycles, 2);
}

#[test]
fn test_iny_wrap() {
    let mut cpu = new_cpu();
    cpu.y = 0xFF;
    let cycles = run_program(&mut cpu, &[0xC8]);
    assert_eq!(cpu.y, 0x00);
    assert_eq!(cycles, 2);
}

#[test]
fn test_dex_no_wrap() {
    let mut cpu = new_cpu();
    cpu.x = 0x34;
    let cycles = run_program(&mut cpu, &[0xCA]);
    assert_eq!(cpu.x, 0x33);
    assert_eq!(cycles, 2);
}

#[test]
fn test_dex_wrap() {
    let mut cpu = new_cpu();
    cpu.x = 0x00;
    let cycles = run_program(&mut cpu, &[0xCA]);
    assert_eq!(cpu.x, 0xFF);
    assert_eq!(cycles, 2);
}

#[test]
fn test_dey_no_wrap() {
    let mut cpu = new_cpu();
    cpu.y = 0x34;
    let cycles = run_program(&mut cpu, &[0x88]);
    assert_eq!(cpu.y, 0x33);
    assert_eq!(cycles, 2);
}

#[test]
fn test_dey_wrap() {
    let mut cpu = new_cpu();
    cpu.y = 0x00;
    let cycles = run_program(&mut cpu, &[0x88]);
    assert_eq!(cpu.y, 0xFF);
    assert_eq!(cycles, 2);
}

#[test]
fn test_cpx_immediate_lt() {
    let mut cpu = new_cpu();
    cpu.x = 0x15;
    let cycles = run_program(&mut cpu, &[0xE0, 0x25]);
    assert_eq!(cpu.p.is_set(Flag::N.bits()), true);
    assert_eq!(cpu.p.is_set(Flag::C.bits()), false);
    assert_eq!(cpu.p.is_set(Flag::Z.bits()), false);
    assert_eq!(cpu.p.is_set(Flag::V.bits()), false);
    assert_eq!(cycles, 2);
}

#[test]
fn test_cpx_zero_page_lt() {
    let mut cpu = new_cpu();
    cpu.x = 0x15;
    load_data(&mut cpu.memory, 0x00AB, &[0x25]);
    let cycles = run_program(&mut cpu, &[0xE4, 0xAB]);
    assert_eq!(cpu.p.is_set(Flag::N.bits()), true);
    assert_eq!(cpu.p.is_set(Flag::C.bits()), false);
    assert_eq!(cpu.p.is_set(Flag::Z.bits()), false);
    assert_eq!(cpu.p.is_set(Flag::V.bits()), false);
    assert_eq!(cycles, 3);
}

#[test]
fn test_cpx_absolute_lt() {
    let mut cpu = new_cpu();
    cpu.x = 0x15;
    load_data(&mut cpu.memory, 0xBEEF, &[0x25]);
    let cycles = run_program(&mut cpu, &[0xEC, 0xEF, 0xBE]);
    assert_eq!(cpu.p.is_set(Flag::N.bits()), true);
    assert_eq!(cpu.p.is_set(Flag::C.bits()), false);
    assert_eq!(cpu.p.is_set(Flag::Z.bits()), false);
    assert_eq!(cpu.p.is_set(Flag::V.bits()), false);
    assert_eq!(cycles, 4);
}

#[test]
fn test_cpy_immediate_lt() {
    let mut cpu = new_cpu();
    cpu.y = 0x15;
    let cycles = run_program(&mut cpu, &[0xC0, 0x25]);
    assert_eq!(cpu.p.is_set(Flag::N.bits()), true);
    assert_eq!(cpu.p.is_set(Flag::C.bits()), false);
    assert_eq!(cpu.p.is_set(Flag::Z.bits()), false);
    assert_eq!(cpu.p.is_set(Flag::V.bits()), false);
    assert_eq!(cycles, 2);
}

#[test]
fn test_cpy_zero_page_lt() {
    let mut cpu = new_cpu();
    cpu.y = 0x15;
    load_data(&mut cpu.memory, 0x00AB, &[0x25]);
    let cycles = run_program(&mut cpu, &[0xC4, 0xAB]);
    assert_eq!(cpu.p.is_set(Flag::N.bits()), true);
    assert_eq!(cpu.p.is_set(Flag::C.bits()), false);
    assert_eq!(cpu.p.is_set(Flag::Z.bits()), false);
    assert_eq!(cpu.p.is_set(Flag::V.bits()), false);
    assert_eq!(cycles, 3);
}

#[test]
fn test_cpy_absolute_lt() {
    let mut cpu = new_cpu();
    cpu.y = 0x15;
    load_data(&mut cpu.memory, 0xBEEF, &[0x25]);
    let cycles = run_program(&mut cpu, &[0xCC, 0xEF, 0xBE]);
    assert_eq!(cpu.p.is_set(Flag::N.bits()), true);
    assert_eq!(cpu.p.is_set(Flag::C.bits()), false);
    assert_eq!(cpu.p.is_set(Flag::Z.bits()), false);
    assert_eq!(cpu.p.is_set(Flag::V.bits()), false);
    assert_eq!(cycles, 4);
}


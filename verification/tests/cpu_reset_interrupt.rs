#![allow(unused_imports)]
#![allow(dead_code)]

use nes::emulator::cpu;
use nes::emulator::cpu::flags::Flag;
use nes::emulator::cpu::opcodes;
use nes::emulator::cpu::CPU;
use nes::emulator::memory::{Memory, Writer};
use nes::emulator::util;

const PROGRAM_ROOT: u16 = 0xF000;

fn new_cpu() -> CPU<Memory> {
    cpu::new(Memory::new_ram(0x10000))
}

fn load_data(memory: &mut Memory, addr: u16, bytes: &[u8]) {
    for (ix, byte) in bytes.iter().enumerate() {
        memory.write(addr + (ix as u16), *byte);
    }
}

fn load_program(cpu: &mut CPU<Memory>, program: &[u8]) {
    load_data(&mut cpu.memory, PROGRAM_ROOT, program);
    cpu.pc = PROGRAM_ROOT;
}

// Returns total number of elapsed cycles.
fn run_program(cpu: &mut CPU<Memory>, program: &[u8]) -> u32 {
    let program_size = program.len() as u16;
    load_program(cpu, program);
    cpu.pc = PROGRAM_ROOT;

    let mut cycles = 0;
    for _ in 1..1000 {
        if cpu.pc >= PROGRAM_ROOT + program_size {
            return cycles;
        }
        cycles += cpu.execute_next_instruction();
    }

    panic!("Program didn't terminate after 1000 ticks");
}

fn run_instructions(cpu: &mut CPU<Memory>, num_instructions: u32) -> u32 {
    let mut cycles = 0;
    for _ in 0..num_instructions {
        cycles += cpu.execute_next_instruction();
    }
    cycles
}

#[test]
fn test_rti() {
    let mut cpu = new_cpu();
    // Push PCH, PCL, P.
    cpu.stack_push(0xBE);
    cpu.stack_push(0xEF);
    cpu.stack_push(0b0011_1010);
    load_program(&mut cpu, &[0x40]);
    let cycles = run_instructions(&mut cpu, 1);
    assert_eq!(cpu.pc, 0xBEEF);

    // Bits 3 and 4 should be ignored when loading status register from stack.
    assert_eq!(cpu.p.as_byte(), 0b0000_1010);
    assert_eq!(cycles, 6);
}

#[test]
fn test_brk() {
    let mut cpu = new_cpu();
    // Set interrupt vector.
    load_data(&mut cpu.memory, 0xFFFE, &[0xEF, 0xBE]);
    load_program(&mut cpu, &[0x00]);
    let pc_before = cpu.pc;
    let stored_pc = pc_before + 2;
    let p_before = cpu.p.as_byte();
    let cycles = run_instructions(&mut cpu, 1);
    assert_eq!(cpu.pc, 0xBEEF); // Jumped to interrup vector.
    assert_eq!(cpu.stack_pop(), p_before | 0b0001_0000); // P was stored, and break bit was set.
    assert_eq!(cpu.stack_pop(), stored_pc as u8); // PCL was stored.
    assert_eq!(cpu.stack_pop(), (stored_pc >> 8) as u8); // PCH was stored.
    assert_eq!(cycles, 7);
}


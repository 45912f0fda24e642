use nes::emulator::cpu;
use nes::emulator::cpu::decode::{decode_instruction, is_documented};
use nes::emulator::cpu::CPU;
use nes::emulator::memory::{Memory, Writer};

fn new_cpu() -> CPU<Memory> {
    cpu::new(Memory::new_ram(0x10000))
}

#[test]
fn test_stack_push_then_pop() {
    let mut cpu = new_cpu();
    let sp = cpu.sp;
    cpu.stack_push(0x5A);
    assert_eq!(cpu.sp, sp.wrapping_sub(1));
    assert_eq!(cpu.stack_pop(), 0x5A);
    assert_eq!(cpu.sp, sp);
}

#[test]
fn test_jsr_then_rts_returns_after_call() {
    let mut cpu = new_cpu();
    // JSR $9000 at $8000; RTS at $9000.
    for (i, b) in [0x20u8, 0x00, 0x90].iter().enumerate() {
        cpu.memory.write(0x8000 + i as u16, *b);
    }
    cpu.memory.write(0x9000, 0x60);
    cpu.pc = 0x8000;
    let sp = cpu.sp;
    cpu.execute_next_instruction();
    assert_eq!(cpu.pc, 0x9000);
    cpu.execute_next_instruction();
    assert_eq!(cpu.pc, 0x8003);
    assert_eq!(cpu.sp, sp);
}

#[test]
fn test_pha_then_pla_restores_a() {
    let mut cpu = new_cpu();
    cpu.memory.write(0x8000, 0x48); // PHA
    cpu.memory.write(0x8001, 0xA9); // LDA #$00
    cpu.memory.write(0x8002, 0x00);
    cpu.memory.write(0x8003, 0x68); // PLA
    cpu.pc = 0x8000;
    cpu.a = 0x81;
    let sp = cpu.sp;
    for _ in 0..3 {
        cpu.execute_next_instruction();
    }
    assert_eq!(cpu.a, 0x81);
    assert_eq!(cpu.sp, sp);
    assert!(cpu.p.is_set(0x80));
    assert!(!cpu.p.is_set(0x02));
}

#[test]
fn test_interrupt_then_rti_resumes() {
    let mut cpu = new_cpu();
    cpu.memory.write(0xFFFE, 0x00);
    cpu.memory.write(0xFFFF, 0x70);
    cpu.memory.write(0x7000, 0x40); // RTI
    cpu.pc = 0x1234;
    cpu.p.load_byte(0b1100_0011);
    let sp = cpu.sp;
    assert_eq!(cpu.interrupt(), 8);
    assert_eq!(cpu.pc, 0x7000);
    assert!(cpu.p.is_set(0x04));
    cpu.execute_next_instruction();
    assert_eq!(cpu.pc, 0x1234);
    assert_eq!(cpu.p.as_byte(), 0b1100_0011);
    assert_eq!(cpu.sp, sp);
}

#[test]
fn test_zero_page_indexed_wraps_in_page_zero() {
    let mut cpu = new_cpu();
    cpu.pc = 0xF001;
    cpu.memory.write(0xF001, 0xF0);
    cpu.memory.write(0xF002, 0x00);
    cpu.x = 0x20;
    let r = nes::emulator::cpu::addressing::zero_page_indexed(&mut cpu);
    assert_eq!(r, (0x0010, 0));
    assert_eq!(cpu.pc, 0xF002);
}

#[test]
fn test_zero_page_indexed_y_wraps_in_page_zero() {
    let mut cpu = new_cpu();
    cpu.pc = 0xF001;
    cpu.memory.write(0xF001, 0xFF);
    cpu.y = 0x02;
    let r = nes::emulator::cpu::addressing::zero_page_indexed_y(&mut cpu);
    assert_eq!(r, (0x0001, 0));
    assert_eq!(cpu.pc, 0xF002);
}

#[test]
fn test_lda_zero_page_x_reads_wrapped_address() {
    let mut cpu = new_cpu();
    cpu.memory.write(0x0010, 0x42);
    cpu.memory.write(0x0110, 0x99);
    // LDA $F0,X with X = $20.
    cpu.memory.write(0x8000, 0xB5);
    cpu.memory.write(0x8001, 0xF0);
    cpu.pc = 0x8000;
    cpu.x = 0x20;
    let cycles = cpu.execute_next_instruction();
    assert_eq!(cpu.a, 0x42);
    assert_eq!(cpu.pc, 0x8002);
    assert_eq!(cycles, 4);
}

#[test]
fn test_decode_instruction_documented_opcodes() {
    assert!(is_documented(0x69));
    assert!(!is_documented(0x02));
    let (_, _, cycles) = decode_instruction(0x71);
    assert_eq!(cycles, 5);
}

use nes::emulator::clock::Ticker;
use nes::emulator::cpu;
use nes::emulator::dma::DMAController;
use nes::emulator::memory::{CPUMemory, IORegisters, Memory, Reader, Writer};

type Bus = CPUMemory<Memory, Memory, IORegisters<Memory, Memory, Memory>, Memory, Memory>;

fn bus() -> Bus {
    CPUMemory::new(
        Memory::new_ram(0x800),
        Memory::new_ram(8),
        IORegisters::new(
            Memory::new_ram(0x10000),
            Memory::new_ram(0x10000),
            Memory::new_ram(0x10000),
        ),
        Memory::new_ram(0x2000),
        Memory::new_ram(0x10000),
    )
}

#[test]
fn test_dma_copies_page_to_oam_data() {
    let mut cpu = cpu::new(bus());
    for i in 0..256u16 {
        cpu.store_memory(0x0300 + i, i as u8);
    }
    cpu.store_memory(0x4014, 0x03);
    let mut dma = DMAController::new(cpu);
    let mut total = 0;
    for _ in 0..256 {
        total += dma.tick();
    }
    assert_eq!(total, 512);
    assert_eq!(dma.copies_remaining, 0);
    assert_eq!(dma.base_address, 0x0300);
    // The last byte copied sits in the OAM data register.
    assert_eq!(dma.cpu.memory.read(0x2004), 0xFF);
}

#[test]
fn test_dma_runs_cpu_when_idle() {
    let mut cpu = cpu::new(bus());
    // NOP at $8000.
    cpu.memory.write(0x8000, 0xEA);
    cpu.pc = 0x8000;
    let mut dma = DMAController::new(cpu);
    assert_eq!(dma.tick(), 2);
    assert_eq!(dma.cpu.pc, 0x8001);
}

#[test]
fn test_trigger_dma_starts_copy() {
    let mut cpu = cpu::new(bus());
    cpu.store_memory(0x0500, 0x42);
    let mut dma = DMAController::new(cpu);
    dma.trigger_dma(0x0500);
    assert_eq!(dma.copies_remaining, 256);
    assert_eq!(dma.base_address, 0x0500);
    assert_eq!(dma.tick(), 2);
    assert_eq!(dma.copies_remaining, 255);
    assert_eq!(dma.cpu.memory.read(0x2004), 0x42);
}

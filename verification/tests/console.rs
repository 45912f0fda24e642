use nes::emulator::ines::ROM;
use nes::emulator::memory::Reader;
use nes::emulator::NES;

// An NROM image with 16KiB of PRG ROM and 8KiB of CHR ROM whose program
// stores 5 at $0200 and then loops on itself.
fn nrom_image() -> Vec<u8> {
    let mut data = vec![0x4E, 0x45, 0x53, 0x1A, 1, 1, 0, 0];
    data.extend(vec![0u8; 8]);
    let mut prg = vec![0xEAu8; 0x4000];
    let program = [0xA9, 0x05, 0x8D, 0x00, 0x02, 0x4C, 0x05, 0x80];
    prg[..program.len()].copy_from_slice(&program);
    // Reset vector: $8000.
    prg[0x3FFC] = 0x00;
    prg[0x3FFD] = 0x80;
    data.extend(prg);
    data.extend(vec![0u8; 0x2000]);
    data
}

#[test]
fn test_nes_new_runs_startup_sequence() {
    let rom = ROM::from_bytes(nrom_image());
    let nes = NES::new(&rom);
    assert_eq!(nes.dma.cpu.pc, 0x8000);
    assert_eq!(nes.elapsed_cycles, 0);
    assert_eq!(nes.cpu_due, 0);
    assert_eq!(nes.apu_due, 0);
    assert_eq!(nes.dma.copies_remaining, 0);
}

#[test]
fn test_nes_tick_steps_cpu_and_apu_on_their_clocks() {
    let rom = ROM::from_bytes(nrom_image());
    let mut nes = NES::new(&rom);
    // The processor goes first among equals: LDA #$05 takes 2 CPU cycles.
    assert_eq!(nes.tick(), 0);
    assert_eq!(nes.dma.cpu.a, 5);
    assert_eq!(nes.cpu_due, 24);
    // Then the APU, due at 0, takes one APU cycle of 24 master cycles.
    assert_eq!(nes.tick(), 0);
    assert_eq!(nes.apu_due, 24);
    // Both are due at 24: the processor runs STA $0200 (4 cycles).
    assert_eq!(nes.tick(), 24);
    assert_eq!(nes.elapsed_cycles, 24);
    assert_eq!(nes.cpu_due, 24 + 48);
    assert_eq!(nes.dma.cpu.memory.read(0x0200), 5);
    // Then the APU at 24.
    assert_eq!(nes.tick(), 0);
    assert_eq!(nes.apu_due, 48);
    // The APU again at 48, before the processor at 72.
    assert_eq!(nes.tick(), 24);
    assert_eq!(nes.apu_due, 72);
    assert_eq!(nes.cpu_due, 72);
}

#[test]
fn test_nes_reset_restarts_cpu() {
    let rom = ROM::from_bytes(nrom_image());
    let mut nes = NES::new(&rom);
    for _ in 0..6 {
        nes.tick();
    }
    assert_ne!(nes.dma.cpu.pc, 0x8000);
    nes.reset();
    assert_eq!(nes.dma.cpu.pc, 0x8000);
    // The APU's channels are silenced: $4015 reads no active channel.
    assert_eq!(nes.dma.cpu.memory.read(0x4015) & 0x1F, 0);
}

// An MMC3 image with 32KiB of PRG ROM, each 8KiB bank filled with its number,
// whose program in the last bank switches bank 1 in at $8000 and reads it.
fn mmc3_image() -> Vec<u8> {
    let mut data = vec![0x4E, 0x45, 0x53, 0x1A, 2, 1, 0x40, 0];
    data.extend(vec![0u8; 8]);
    let mut prg: Vec<u8> = (0..0x8000).map(|i| (i / 0x2000) as u8).collect();
    let program = [
        0xA9, 0x06, 0x8D, 0x00, 0x80, // R6 selected
        0xA9, 0x01, 0x8D, 0x01, 0x80, // bank 1 at $8000
        0xAD, 0x00, 0x80, // LDA $8000
        0x4C, 0x0D, 0xE0, // JMP $E00D
    ];
    prg[0x6000..0x6000 + program.len()].copy_from_slice(&program);
    prg[0x7FFC] = 0x00;
    prg[0x7FFD] = 0xE0;
    data.extend(prg);
    data.extend(vec![0u8; 0x2000]);
    data
}

#[test]
fn test_nes_runs_mmc3_bank_switching() {
    let rom = ROM::from_bytes(mmc3_image());
    let mut nes = NES::new(&rom);
    assert_eq!(nes.dma.cpu.pc, 0xE000);
    for _ in 0..20 {
        nes.tick();
        assert!(!nes.faulted());
    }
    assert_eq!(nes.dma.cpu.a, 1);
    assert_eq!(nes.dma.cpu.pc, 0xE00D);
}

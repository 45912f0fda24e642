use nes::emulator::mappers::{AXROM, CNROM, ColorDreams, MMC1, MMC3, NROM, UXROM};
use nes::emulator::memory::{Mapper, Memory, PrgMapper, Reader, Writer};
use nes::emulator::ppu::MirrorMode;

// A ROM whose every byte holds the number of its bank of `bank_size` bytes.
fn banked_rom(len: usize, bank_size: usize) -> Vec<u8> {
    (0..len).map(|i| (i / bank_size) as u8).collect()
}

#[test]
fn board_nrom_mirrors_16k_prg() {
    let mut prg = vec![0u8; 0x4000];
    prg[0x10] = 0x77;
    let mut m = NROM::new(Memory::new_rom(prg), Memory::new_ram(0x2000), MirrorMode::Vertical);
    assert_eq!(m.read_prg(0x8010), 0x77);
    assert_eq!(m.read_prg(0xC010), 0x77);
    m.write_prg(0x8010, 0x00);
    assert_eq!(m.read_prg(0x8010), 0x77);
    m.write_chr(0x0005, 0x12);
    assert_eq!(m.read_chr(0x0005), 0x12);
    assert!(m.mirror_mode() == MirrorMode::Vertical);
    assert_eq!(m.irq_triggered(), false);
}

#[test]
fn board_uxrom_switches_low_bank_and_fixes_last() {
    let mut m = UXROM::new(
        Memory::new_rom(banked_rom(0x20000, 0x4000)),
        Memory::new_ram(0x2000),
        MirrorMode::Horizontal,
    );
    assert_eq!(m.read_prg(0x8000), 0);
    assert_eq!(m.read_prg(0xC000), 7);
    m.write_prg(0x8000, 3);
    assert_eq!(m.read_prg(0x8000), 3);
    assert_eq!(m.read_prg(0xFFFF), 7);
    // Bank numbers wrap at the size of the ROM.
    m.write_prg(0x8000, 9);
    assert_eq!(m.read_prg(0x8000), 1);
}

#[test]
fn board_axrom_switches_32k_and_mirroring() {
    let mut m = AXROM::new(Memory::new_rom(banked_rom(0x20000, 0x8000)), Memory::new_ram(0x2000));
    assert!(m.mirror_mode() == MirrorMode::SingleLower);
    assert_eq!(m.read_prg(0x8000), 0);
    m.write_prg(0x8000, 0x12);
    assert_eq!(m.read_prg(0x8000), 2);
    assert_eq!(m.read_prg(0xFFFF), 2);
    assert!(m.mirror_mode() == MirrorMode::SingleUpper);
    m.write_prg(0x8000, 0x03);
    assert!(m.mirror_mode() == MirrorMode::SingleLower);
}

#[test]
fn board_cnrom_switches_chr_bank() {
    let mut m = CNROM::new(
        Memory::new_rom(vec![0xEA; 0x8000]),
        Memory::new_rom(banked_rom(0x8000, 0x2000)),
        MirrorMode::Vertical,
    );
    assert_eq!(m.read_chr(0x0010), 0);
    m.write_prg(0x8000, 0xFE);
    assert_eq!(m.read_chr(0x0010), 2);
    assert_eq!(m.read_prg(0x8000), 0xEA);
}

#[test]
fn board_color_dreams_switches_both_banks() {
    let mut m = ColorDreams::new(
        Memory::new_rom(banked_rom(0x20000, 0x8000)),
        Memory::new_rom(banked_rom(0x20000, 0x2000)),
        MirrorMode::Horizontal,
    );
    m.write_prg(0x8000, 0x52);
    assert_eq!(m.read_prg(0x8000), 2);
    assert_eq!(m.read_chr(0x1000), 5);
}

fn mmc1_load(m: &mut MMC1, address: u16, value: u8) {
    for i in 0..5 {
        m.write_prg(address, (value >> i) & 1);
    }
}

#[test]
fn board_mmc1_power_on_banks() {
    let mut m = MMC1::new(
        Memory::new_rom(banked_rom(0x20000, 0x4000)),
        Memory::new_rom(banked_rom(0x8000, 0x1000)),
    );
    // PRG mode 3: bank 0 at $8000, last bank fixed at $C000.
    assert_eq!(m.read_prg(0x8000), 0);
    assert_eq!(m.read_prg(0xC000), 7);
    assert!(m.mirror_mode() == MirrorMode::SingleLower);
}

#[test]
fn board_mmc1_serial_port_selects_banks() {
    let mut m = MMC1::new(
        Memory::new_rom(banked_rom(0x20000, 0x4000)),
        Memory::new_rom(banked_rom(0x8000, 0x1000)),
    );
    mmc1_load(&mut m, 0xE000, 5);
    assert_eq!(m.read_prg(0x8000), 5);
    assert_eq!(m.read_prg(0xC000), 7);
    // Control: vertical mirroring, PRG mode 2, CHR mode 1.
    mmc1_load(&mut m, 0x8000, 0b1_1010);
    assert!(m.mirror_mode() == MirrorMode::Vertical);
    assert_eq!(m.read_prg(0x8000), 0);
    assert_eq!(m.read_prg(0xC000), 5);
    mmc1_load(&mut m, 0xA000, 3);
    mmc1_load(&mut m, 0xC000, 6);
    assert_eq!(m.read_chr(0x0000), 3);
    assert_eq!(m.read_chr(0x1000), 6);
}

#[test]
fn board_mmc1_reset_bit_clears_shift_register() {
    let mut m = MMC1::new(
        Memory::new_rom(banked_rom(0x20000, 0x4000)),
        Memory::new_rom(banked_rom(0x8000, 0x1000)),
    );
    m.write_prg(0xE000, 1);
    m.write_prg(0xE000, 1);
    m.write_prg(0xE000, 0x80);
    mmc1_load(&mut m, 0xE000, 2);
    assert_eq!(m.read_prg(0x8000), 2);
}

#[test]
fn board_mmc3_power_on_windows() {
    let mut m = MMC3::new(
        Memory::new_rom(banked_rom(0x10000, 0x2000)),
        Memory::new_rom(banked_rom(0x2000, 0x400)),
    );
    assert_eq!(m.read_prg(0x8000), 0);
    assert_eq!(m.read_prg(0xC000), 6);
    assert_eq!(m.read_prg(0xE000), 7);
    // PRG inversion swaps $8000 and $C000.
    m.write_prg(0x8000, 0x40);
    assert_eq!(m.read_prg(0x8000), 6);
    assert_eq!(m.read_prg(0xC000), 0);
    assert!(m.mirror_mode() == MirrorMode::Horizontal);
    m.write_prg(0xA000, 0);
    assert!(m.mirror_mode() == MirrorMode::Vertical);
}

#[test]
fn board_mmc3_scanline_irq() {
    let mut m = MMC3::new(
        Memory::new_rom(banked_rom(0x10000, 0x2000)),
        Memory::new_rom(banked_rom(0x2000, 0x400)),
    );
    m.write_prg(0xC000, 1); // Latch.
    m.write_prg(0xC001, 0); // Reload.
    m.write_prg(0xE001, 0); // Enable.
    let mut raised = vec![];
    for _ in 0..3 {
        // Thirteen reads with A12 low, then one with A12 high.
        for _ in 0..13 {
            m.read_chr(0x0000);
        }
        m.read_chr(0x1000);
        raised.push(m.irq_triggered());
    }
    // The first rise reloads the counter (to 1) and raises the IRQ, the
    // second counts down to 0, the third reloads and raises it again.
    assert_eq!(raised, vec![true, false, true]);
    assert_eq!(m.irq_triggered(), false);
}

#[test]
fn board_mmc3_bank_data_switches_banks() {
    let mut m = MMC3::new(
        Memory::new_rom(banked_rom(0x10000, 0x2000)),
        Memory::new_rom(banked_rom(0x4000, 0x400)),
    );
    // R6 selects the PRG bank at $8000.
    m.write_prg(0x8000, 6);
    m.write_prg(0x8001, 3);
    assert_eq!(m.read_prg(0x8000), 3);
    // R7 selects the PRG bank at $A000; the top bit is ignored.
    m.write_prg(0x8000, 7);
    m.write_prg(0x8001, 0x85);
    assert_eq!(m.read_prg(0xA000), 5);
    // R2 selects a 1KiB CHR bank at $1000.
    m.write_prg(0x8000, 2);
    m.write_prg(0x8001, 9);
    assert_eq!(m.read_chr(0x1000), 9);
    // R0 selects a 2KiB CHR bank at $0000, even banks only.
    m.write_prg(0x8000, 0);
    m.write_prg(0x8001, 5);
    assert_eq!(m.read_chr(0x0000), 4);
    assert_eq!(m.read_chr(0x0400), 5);
}

#[test]
fn board_cnrom_small_chr_reads_first_banks() {
    let mut m = CNROM::new(
        Memory::new_rom(vec![0xEA; 0x4000]),
        Memory::new_rom(banked_rom(0x4000, 0x2000)),
        MirrorMode::Vertical,
    );
    m.write_prg(0x8000, 0x01);
    assert_eq!(m.read_chr(0x0010), 1);
}

#[test]
fn board_color_dreams_small_roms_read_first_banks() {
    let mut m = ColorDreams::new(
        Memory::new_rom(banked_rom(0x10000, 0x8000)),
        Memory::new_rom(banked_rom(0x4000, 0x2000)),
        MirrorMode::Horizontal,
    );
    m.write_prg(0x8000, 0x11);
    assert_eq!(m.read_prg(0x8000), 1);
    assert_eq!(m.read_chr(0x0000), 1);
}

#[test]
fn board_mmc3_bank_data_past_registers_faults_on_the_bus() {
    let mut bus = PrgMapper::new(MMC3::new(
        Memory::new_rom(banked_rom(0x10000, 0x2000)),
        Memory::new_rom(banked_rom(0x2000, 0x400)),
    ));
    bus.write(0x8000, 0x06);
    bus.write(0x8001, 0x02);
    assert_eq!(bus.read(0x8000), 2);
    assert!(!bus.faulted());
    // Bank select 15 names no register: the bank data write faults.
    bus.write(0x8000, 0x0F);
    bus.write(0x8001, 0x01);
    assert!(bus.faulted());
}

#[test]
fn board_mmc3_bank_past_rom_faults_on_read() {
    let mut bus = PrgMapper::new(MMC3::new(
        Memory::new_rom(banked_rom(0x10000, 0x2000)),
        Memory::new_rom(banked_rom(0x2000, 0x400)),
    ));
    // R6 selects bank 0x40, past the eight banks of the ROM.
    bus.write(0x8000, 0x06);
    bus.write(0x8001, 0x40);
    assert!(!bus.faulted());
    assert_eq!(bus.read(0x8000), 0);
    assert!(bus.faulted());
}

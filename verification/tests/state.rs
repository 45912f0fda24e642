use nes::emulator::io::Screen;
use nes::emulator::mappers::{CNROM, MMC1, NROM, UXROM};
use nes::emulator::memory::{Mapper, Memory, Reader, Writer};
use nes::emulator::ppu::MirrorMode;
use nes::emulator::state::{MapperState, SaveState};

fn banked_rom(len: usize, bank_size: usize) -> Vec<u8> {
    (0..len).map(|i| (i / bank_size) as u8).collect()
}

#[test]
fn test_ram_state_round_trip() {
    let mut ram = Memory::new_ram(16);
    ram.write(3, 0x33);
    let saved = ram.freeze();
    assert_eq!(saved.data.len(), 16);
    ram.write(3, 0x44);
    ram.hydrate(saved);
    assert_eq!(ram.read(3), 0x33);
}

#[test]
fn test_rom_saves_nothing() {
    let mut rom = Memory::new_rom(vec![1, 2, 3]);
    let saved = rom.freeze();
    assert!(saved.data.is_empty());
    rom.hydrate(saved);
    assert_eq!(rom.read(2), 3);
}

#[test]
fn test_mmc1_state_round_trip() {
    let mut m = MMC1::new(
        Memory::new_rom(banked_rom(0x20000, 0x4000)),
        Memory::new_ram(0x2000),
    );
    for i in 0..5 {
        m.write_prg(0xE000, (5u8 >> i) & 1);
    }
    m.write_chr(0x0010, 0x99);
    let saved = m.freeze();
    for i in 0..5 {
        m.write_prg(0xE000, (2u8 >> i) & 1);
    }
    m.write_chr(0x0010, 0x00);
    assert_eq!(m.read_prg(0x8000), 2);
    m.hydrate(saved);
    assert_eq!(m.read_prg(0x8000), 5);
    assert_eq!(m.read_chr(0x0010), 0x99);
}

#[test]
fn test_uxrom_and_cnrom_state_round_trip() {
    let mut u = UXROM::new(
        Memory::new_rom(banked_rom(0x20000, 0x4000)),
        Memory::new_ram(0x2000),
        MirrorMode::Vertical,
    );
    u.write_prg(0x8000, 4);
    let saved = u.freeze();
    u.write_prg(0x8000, 1);
    u.hydrate(saved);
    assert_eq!(u.read_prg(0x8000), 4);

    let mut c = CNROM::new(
        Memory::new_rom(vec![0; 0x8000]),
        Memory::new_rom(banked_rom(0x8000, 0x2000)),
        MirrorMode::Horizontal,
    );
    c.write_prg(0x8000, 3);
    let saved = c.freeze();
    c.write_prg(0x8000, 0);
    c.hydrate(saved);
    assert_eq!(c.read_chr(0x0000), 3);
}

#[test]
fn test_nrom_state_is_empty() {
    let mut n = NROM::new(Memory::new_rom(vec![0; 0x4000]), Memory::new_ram(0x2000), MirrorMode::Vertical);
    assert!(matches!(n.freeze(), MapperState::NROM));
    n.hydrate(MapperState::NROM);
}

#[test]
fn test_screen_state_round_trip() {
    let mut screen = Screen::new();
    screen.set_double_buffering(false);
    for _ in 0..300 {
        screen.emit(1, 1, 1);
    }
    let saved = screen.freeze();
    assert_eq!((saved.scanline, saved.dot), (1, 44));
    screen.emit(2, 2, 2);
    screen.hydrate(saved);
    assert_eq!(screen.freeze(), saved);
}

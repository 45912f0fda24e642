use nes::emulator::ines::ROM;
use nes::emulator::mappers::Cartridge;
use nes::emulator::memory::Mapper;
use nes::emulator::ppu::MirrorMode;

fn image(prg_units: u8, chr_units: u8, flags6: u8, flags7: u8) -> Vec<u8> {
    let mut data = vec![0x4E, 0x45, 0x53, 0x1A, prg_units, chr_units, flags6, flags7];
    data.resize(16, 0);
    for i in 0..(prg_units as usize * 16384) {
        data.push((i / 16384) as u8 + 0x10);
    }
    for i in 0..(chr_units as usize * 8192) {
        data.push((i / 8192) as u8 + 0x80);
    }
    data
}

#[test]
fn test_header_fields() {
    let rom = ROM::from_bytes(image(2, 1, 0x11, 0x40));
    assert_eq!(rom.mapper_number(), 0x41);
    assert_eq!(rom.prg_rom_size_bytes(), 32768);
    assert_eq!(rom.chr_rom_size_bytes(), 8192);
    assert!(rom.mirror_mode() == MirrorMode::Vertical);
    let rom = ROM::from_bytes(image(1, 0, 0x00, 0x00));
    assert!(rom.mirror_mode() == MirrorMode::Horizontal);
    assert_eq!(rom.mapper_number(), 0);
}

#[test]
fn test_prg_and_chr_contents() {
    let rom = ROM::from_bytes(image(2, 1, 0x00, 0x00));
    let prg = rom.prg_rom();
    assert_eq!(prg.len(), 32768);
    assert_eq!(prg.get(0), 0x10);
    assert_eq!(prg.get(16384), 0x11);
    let chr = rom.chr_mem();
    assert_eq!(chr.len(), 8192);
    assert_eq!(chr.get(0), 0x80);
    assert_eq!(rom.chr_rom(), vec![0x80; 8192]);
}

#[test]
fn test_chr_ram_when_no_chr_rom() {
    let rom = ROM::from_bytes(image(1, 0, 0x00, 0x00));
    let mut chr = rom.chr_mem();
    assert_eq!(chr.len(), 0x2000);
    chr.put(5, 9);
    assert_eq!(chr.get(5), 9);
    assert_eq!(rom.chr_rom(), vec![0; 0x2000]);
}

#[test]
fn test_get_mapper_by_number() {
    let rom = ROM::from_bytes(image(1, 1, 0x01, 0x00));
    let mut mapper = rom.get_mapper();
    assert!(matches!(mapper, Cartridge::Nrom(_)));
    assert_eq!(mapper.read_prg(0x8000), 0x10);
    assert_eq!(mapper.read_prg(0xC000), 0x10);
    assert_eq!(mapper.read_chr(0x0000), 0x80);
    assert!(mapper.mirror_mode() == MirrorMode::Vertical);

    let rom = ROM::from_bytes(image(8, 0, 0x10, 0x00));
    let mut mapper = rom.get_mapper();
    assert!(matches!(mapper, Cartridge::Mmc1(_)));
    assert_eq!(mapper.read_prg(0xC000), 0x17);

    assert!(matches!(ROM::from_bytes(image(2, 0, 0x20, 0x00)).get_mapper(), Cartridge::Uxrom(_)));
    assert!(matches!(ROM::from_bytes(image(2, 4, 0x30, 0x00)).get_mapper(), Cartridge::Cnrom(_)));
    assert!(matches!(ROM::from_bytes(image(4, 1, 0x40, 0x00)).get_mapper(), Cartridge::Mmc3(_)));
    assert!(matches!(ROM::from_bytes(image(2, 0, 0x70, 0x00)).get_mapper(), Cartridge::Axrom(_)));
    assert!(matches!(
        ROM::from_bytes(image(8, 16, 0xB0, 0x00)).get_mapper(),
        Cartridge::ColorDreams(_)
    ));
}

use nes::emulator::mappers::NROM;
use nes::emulator::memory::{
    ChrMapper, CPUMemory, IORegisters, Memory, PPUMemory, PrgMapper, Reader, Writer,
};
use nes::emulator::ppu::MirrorMode;

#[test]
fn test_get_and_set() {
    let mut ram = Memory::new_ram(2048);
    ram.write(1234, 23);
    assert_eq!(ram.read(1234), 23);
}

#[test]
fn test_rom_ignores_writes() {
    let mut rom = Memory::new_rom(vec![1, 2, 3]);
    rom.write(1, 99);
    assert_eq!(rom.read(1), 2);
    assert_eq!(rom.len(), 3);
    rom.put(2, 7);
    assert_eq!(rom.get(2), 3);
}

fn cpu_memory() -> CPUMemory<Memory, Memory, Memory, Memory, Memory> {
    CPUMemory::new(
        Memory::new_ram(0x800),
        Memory::new_ram(8),
        Memory::new_ram(0x10000),
        Memory::new_ram(0x2000),
        Memory::new_ram(0x10000),
    )
}

#[test]
fn test_cpu_memory_ram_mirrors() {
    let mut mem = cpu_memory();
    mem.write(0x0001, 0x42);
    assert_eq!(mem.read(0x0801), 0x42);
    assert_eq!(mem.read(0x1001), 0x42);
    assert_eq!(mem.read(0x1801), 0x42);
    mem.write(0x1FFF, 0x17);
    assert_eq!(mem.read(0x07FF), 0x17);
}

#[test]
fn test_cpu_memory_ppu_registers_mirror() {
    let mut mem = cpu_memory();
    mem.write(0x2008, 0x99);
    assert_eq!(mem.read(0x2000), 0x99);
    assert_eq!(mem.read(0x3FF8), 0x99);
}

#[test]
fn test_cpu_memory_regions() {
    let mut mem = cpu_memory();
    mem.write(0x6000, 0x11);
    assert_eq!(mem.read(0x6000), 0x11);
    mem.write(0x8000, 0x22);
    assert_eq!(mem.read(0x8000), 0x22);
    mem.write(0x4015, 0x33);
    assert_eq!(mem.read(0x4015), 0x33);
    // Open bus.
    mem.write(0x5000, 0x44);
    assert_eq!(mem.read(0x5000), 0x00);
}

#[test]
fn test_io_registers_oamdma() {
    let mut io = IORegisters::new(
        Memory::new_ram(0x10000),
        Memory::new_ram(0x10000),
        Memory::new_ram(0x10000),
    );
    assert_eq!(io.read(0x4014), 0);
    assert_eq!(io.get_oamdma(), None);
    io.write(0x4014, 0x02);
    assert_eq!(io.read(0x4014), 0x02);
    assert_eq!(io.get_oamdma(), Some(0x02));
    assert_eq!(io.get_oamdma(), None);
}

#[test]
fn test_io_registers_routing() {
    let mut io = IORegisters::new(
        Memory::new_ram(0x10000),
        Memory::new_ram(0x10000),
        Memory::new_ram(0x10000),
    );
    io.write(0x4000, 0x5A);
    assert_eq!(io.read(0x4000), 0x5A);
    io.write(0x4016, 0x01);
    assert_eq!(io.read(0x4016), 0x01);
    // $4017 reads the second joypad, written along with the APU.
    io.write(0x4017, 0x07);
    assert_eq!(io.read(0x4017), 0x07);
    // Unmapped registers read zero.
    io.write(0x4018, 0x09);
    assert_eq!(io.read(0x4018), 0x00);
}

fn ppu_memory(mode: MirrorMode) -> PPUMemory<ChrMapper<NROM>, NROM, Memory> {
    let chr: Vec<u8> = (0..0x2000u32).map(|i| (i % 251) as u8).collect();
    let cart = NROM::new(Memory::new_rom(vec![0; 0x4000]), Memory::new_rom(chr), mode);
    let mirror = NROM::new(Memory::new_rom(vec![0; 0x4000]), Memory::new_ram(0x2000), mode);
    PPUMemory::new(ChrMapper::new(cart), mirror, Memory::new_ram(0x2000))
}

#[test]
fn test_ppu_memory_pattern_tables() {
    let mut mem = ppu_memory(MirrorMode::Horizontal);
    assert_eq!(mem.read(0x0000), 0);
    assert_eq!(mem.read(0x0100), (0x100 % 251) as u8);
    // Everything repeats above $4000.
    assert_eq!(mem.read(0x4100), (0x100 % 251) as u8);
}

#[test]
fn test_ppu_memory_horizontal_mirroring() {
    let mut mem = ppu_memory(MirrorMode::Horizontal);
    mem.write(0x2005, 0xAA);
    assert_eq!(mem.read(0x2405), 0xAA);
    assert_eq!(mem.read(0x2805), 0x00);
    mem.write(0x2C05, 0xBB);
    assert_eq!(mem.read(0x2805), 0xBB);
    assert_eq!(mem.read(0x2005), 0xAA);
}

#[test]
fn test_ppu_memory_vertical_mirroring() {
    let mut mem = ppu_memory(MirrorMode::Vertical);
    mem.write(0x2005, 0xAA);
    assert_eq!(mem.read(0x2805), 0xAA);
    assert_eq!(mem.read(0x2405), 0x00);
    // $3000-$3EFF mirrors the nametables.
    assert_eq!(mem.read(0x3005), 0xAA);
}

#[test]
fn test_ppu_memory_palette_mirrors() {
    let mut mem = ppu_memory(MirrorMode::Vertical);
    mem.write(0x3F10, 0x0F);
    assert_eq!(mem.read(0x3F00), 0x0F);
    mem.write(0x3F01, 0x21);
    assert_eq!(mem.read(0x3F21), 0x21);
    assert_eq!(mem.read(0x3F11), 0x00);
}

#[test]
fn test_prg_mapper_reads_program_rom() {
    let prg: Vec<u8> = (0..0x4000u32).map(|i| (i % 256) as u8).collect();
    let cart = NROM::new(Memory::new_rom(prg), Memory::new_ram(0x2000), MirrorMode::Vertical);
    let mut prg_mapper = PrgMapper::new(cart);
    assert_eq!(prg_mapper.read(0x8001), 1);
    // 16KiB of PRG ROM appears twice.
    assert_eq!(prg_mapper.read(0xC001), 1);
}

#[test]
fn test_rom_put_past_end_is_ignored() {
    let mut rom = Memory::new_rom(vec![1, 2, 3]);
    rom.put(10, 0xFF);
    rom.put(1, 0xFF);
    assert_eq!(rom.len(), 3);
    assert_eq!(rom.get(0), 1);
    assert_eq!(rom.get(1), 2);
    assert_eq!(rom.get(2), 3);
}

#[test]
fn test_rom_write_past_end_is_ignored() {
    let mut rom = Memory::new_rom(vec![1, 2, 3]);
    rom.write(0x100, 0xFF);
    rom.write(0, 0xFF);
    assert_eq!(rom.len(), 3);
    assert_eq!(rom.get(0), 1);
}

use nes::emulator::apu::debug::{APUDebug, WAVEFORM_BYTES};
use nes::emulator::apu::length_counter_lookup;
use nes::emulator::apu::APU;
use nes::emulator::clock::Ticker;
use nes::emulator::memory::{Memory, Reader, Writer};

fn apu() -> APU<Memory> {
    APU::new(Memory::new_rom(vec![0; 0x10000]))
}

#[test]
fn test_length_counter_table() {
    assert_eq!(length_counter_lookup(0), 10);
    assert_eq!(length_counter_lookup(1), 254);
    assert_eq!(length_counter_lookup(0x1F), 30);
}

#[test]
fn test_status_reports_length_counters() {
    let mut apu = apu();
    assert_eq!(apu.read(0x4015), 0);
    // Enable pulse 1 and load its length counter.
    apu.write(0x4015, 0x01);
    apu.write(0x4003, 0x08);
    assert_eq!(apu.read(0x4015) & 0x01, 0x01);
    // Disabling the channel clears its length counter.
    apu.write(0x4015, 0x00);
    assert_eq!(apu.read(0x4015) & 0x01, 0x00);
}

#[test]
fn test_apu_tick_counts_one_cycle() {
    let mut apu = apu();
    assert_eq!(apu.tick(), 1);
}

#[test]
fn test_waveform_view_draws_pulse_1() {
    let mut apu = apu();
    // Duty 1 (25%), constant volume 15, period 64.
    apu.write(0x4000, 0b0101_1111);
    apu.write(0x4002, 0x40);
    apu.write(0x4003, 0x00);
    let mut frame = vec![];
    let mut debug = APUDebug::new(&apu);
    debug.do_render(|pixels: &[u8]| frame.extend_from_slice(pixels));
    assert_eq!(frame.len(), WAVEFORM_BYTES);
    let pixel = |row: usize, col: usize| frame[(row * 256 + col) * 3];
    // Low for six steps at row 8, high for two at row 23, with edges.
    assert_eq!(pixel(8, 0), 0xFF);
    assert_eq!(pixel(23, 0), 0x00);
    assert_eq!(pixel(23, 6), 0xFF);
    assert_eq!(pixel(15, 6), 0xFF);
    assert_eq!(pixel(15, 5), 0x00);
    assert_eq!(pixel(23, 7), 0xFF);
    assert_eq!(pixel(15, 7), 0x00);
    assert_eq!(pixel(15, 8), 0xFF);
    // Pulse 2 has period 0 and is not drawn.
    assert_eq!(pixel(40, 0), 0x00);
}

use nes::emulator::components::bitfield::BitField;
use nes::emulator::components::latch;
use nes::emulator::components::latch::State;
use nes::emulator::components::ringbuffer::RingBuffer;

#[test]
fn tests() {
    let mut bits = BitField::new();
    let bit1: u8 = 1;
    let bit2: u8 = 1 << 1;
    assert_eq!(bits.is_set(bit1), false);
    assert_eq!(bits.is_set(bit2), false);

    bits.set(bit2);
    assert_eq!(bits.is_set(bit1), false);
    assert_eq!(bits.is_set(bit2), true);

    bits.clear(bit1);
    assert_eq!(bits.is_set(bit1), false);
    assert_eq!(bits.is_set(bit2), true);

    bits.set(bit1);
    assert_eq!(bits.is_set(bit1), true);
    assert_eq!(bits.is_set(bit2), true);

    bits.clear(bit2);
    assert_eq!(bits.is_set(bit1), true);
    assert_eq!(bits.is_set(bit2), false);

    bits.clear(bit1);
    assert_eq!(bits.is_set(bit1), false);
    assert_eq!(bits.is_set(bit2), false);
}

#[test]
fn test_bitfield_byte_round_trip() {
    let mut bits = BitField::new();
    bits.load_byte(0b1010_0101);
    assert_eq!(bits.as_byte(), 0b1010_0101);
    bits.set(0b0000_0010);
    bits.clear(0b0000_0010);
    assert_eq!(bits.as_byte(), 0b1010_0101);
}

#[test]
fn test_latch_toggles_and_resets() {
    let mut l = latch::new();
    assert!(l.get() == State::OFF);
    l.toggle();
    assert!(l.get() == State::ON);
    assert_eq!(l.as_bool(), true);
    l.toggle();
    assert_eq!(l.as_bool(), false);
    l.load_bool(true);
    assert!(l.get() == State::ON);
    l.reset();
    assert!(l.get() == State::OFF);
}

#[test]
fn test_ring_buffer_keeps_newest() {
    let mut rb: RingBuffer<u32> = RingBuffer::new(3);
    for i in 1..=5u32 {
        rb.push(i);
    }
    assert_eq!(rb.len(), 3);
    assert_eq!(rb.flush_vec(), vec![3, 4, 5]);
    assert_eq!(rb.len(), 0);
    rb.push(9);
    rb.clear();
    assert_eq!(rb.len(), 0);
}

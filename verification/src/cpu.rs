//! A register file with a status byte of flags.
use vstd::prelude::*;

verus! {

pub struct CPU {
    /// Accumulator.
    pub a: u8,
    /// X index register.
    pub x: u8,
    /// Y index register.
    pub y: u8,
    /// Stack pointer.
    pub sp: u8,
    /// Program counter.
    pub pc: u16,
    /// Processor flags NV_BDIZC.
    pub p: u8,
}

pub fn new() -> (cpu: CPU)
    ensures
        cpu.a == 0 && cpu.x == 0 && cpu.y == 0 && cpu.sp == 0 && cpu.pc == 0,
        cpu.flags() == 0,
{
    CPU { a: 0, x: 0, y: 0, sp: 0, pc: 0, p: 0 }
}

#[derive(Clone, Copy, Debug, PartialEq, Eq)]
pub enum Flag {
    /// Negative.
    N,
    /// Overflow.
    V,
    B,
    /// BCD mode.
    D,
    I,
    /// Zero.
    Z,
    /// Carry.
    C,
}

/// The position of the flag's bit in the status byte.
pub open spec fn flag_index(flag: Flag) -> u8 {
    match flag {
        Flag::N => 7,
        Flag::V => 6,
        Flag::B => 4,
        Flag::D => 3,
        Flag::I => 2,
        Flag::Z => 1,
        Flag::C => 0,
    }
}

pub open spec fn flag_bit(flag: Flag) -> u8 {
    match flag {
        Flag::N => 0b1000_0000,
        Flag::V => 0b0100_0000,
        Flag::B => 0b0001_0000,
        Flag::D => 0b0000_1000,
        Flag::I => 0b0000_0100,
        Flag::Z => 0b0000_0010,
        Flag::C => 0b0000_0001,
    }
}

fn flag_byte(flag: Flag) -> (b: u8)
    ensures
        b == flag_bit(flag),
{
    match flag {
        Flag::N => 0b1000_0000,
        Flag::V => 0b0100_0000,
        Flag::B => 0b0001_0000,
        Flag::D => 0b0000_1000,
        Flag::I => 0b0000_0100,
        Flag::Z => 0b0000_0010,
        Flag::C => 0b0000_0001,
    }
}

impl CPU {
    /// The status byte.
    pub open spec fn flags(&self) -> u8 {
        self.p
    }

    pub fn flag_is_set(&self, flag: Flag) -> (r: bool)
        ensures
            r == (self.flags() & flag_bit(flag) != 0),
    {
        self.p & flag_byte(flag) != 0
    }

    pub fn set_flag(&mut self, flag: Flag)
        ensures
            final(self).flags() == old(self).flags() | flag_bit(flag),
            final(self).a == old(self).a && final(self).x == old(self).x,
            final(self).y == old(self).y && final(self).sp == old(self).sp,
            final(self).pc == old(self).pc,
    {
        self.p = self.p | flag_byte(flag);
    }

    pub fn clear_flag(&mut self, flag: Flag)
        ensures
            final(self).flags() == old(self).flags() & (0xFF ^ flag_bit(flag)),
            final(self).a == old(self).a && final(self).x == old(self).x,
            final(self).y == old(self).y && final(self).sp == old(self).sp,
            final(self).pc == old(self).pc,
    {
        self.p = self.p & (0xFF ^ flag_byte(flag));
    }
}

/// A flag reads as set after `set_flag` and as clear after `clear_flag`,
/// and neither touches any other flag.
pub proof fn law_flags_independent(p: u8, flag: Flag, other: Flag)
    ensures
        (p | flag_bit(flag)) & flag_bit(flag) != 0,
        (p & (0xFF ^ flag_bit(flag))) & flag_bit(flag) == 0,
        other != flag ==> ((p | flag_bit(flag)) & flag_bit(other) != 0) == (p & flag_bit(
            other,
        ) != 0),
        other != flag ==> ((p & (0xFF ^ flag_bit(flag))) & flag_bit(other) != 0) == (p
            & flag_bit(other) != 0),
{
    let f = flag_bit(flag);
    let o = flag_bit(other);
    assert((p | f) & f != 0) by (bit_vector)
        requires
            f != 0,
    ;
    assert((p & (0xFF ^ f)) & f == 0) by (bit_vector);
    if other != flag {
        let i = flag_index(flag);
        let j = flag_index(other);
        assert(f == 1u8 << i && o == 1u8 << j) by {
            assert(1u8 << 7u8 == 0x80 && 1u8 << 6u8 == 0x40 && 1u8 << 4u8 == 0x10 && 1u8 << 3u8
                == 0x08) by (bit_vector);
            assert(1u8 << 2u8 == 0x04 && 1u8 << 1u8 == 0x02 && 1u8 << 0u8 == 0x01) by (bit_vector);
        }
        assert((1u8 << i) & (1u8 << j) == 0) by (bit_vector)
            requires
                i != j,
                i < 8,
                j < 8,
        ;
        assert(((p | f) & o != 0) == (p & o != 0)) by (bit_vector)
            requires
                f & o == 0,
        ;
        assert(((p & (0xFF ^ f)) & o != 0) == (p & o != 0)) by (bit_vector)
            requires
                f & o == 0,
        ;
    }
}

} // verus!

//! A byte of independently settable flag bits.
use vstd::prelude::*;

verus! {

#[derive(Debug)]
pub struct BitField {
    byte: u8,
}

impl View for BitField {
    type V = u8;

    closed spec fn view(&self) -> u8 {
        self.byte
    }
}

impl BitField {
    pub fn new() -> (bits: BitField)
        ensures
            bits@ == 0,
    {
        BitField { byte: 0x00 }
    }

    /// Whether any bit of `mask` is set.
    pub fn is_set(&self, mask: u8) -> (r: bool)
        ensures
            r == (self@ & mask != 0),
    {
        self.byte & mask != 0
    }

    pub fn set(&mut self, mask: u8)
        ensures
            final(self)@ == old(self)@ | mask,
    {
        self.byte = self.byte | mask;
    }

    pub fn clear(&mut self, mask: u8)
        ensures
            final(self)@ == old(self)@ & !mask,
    {
        self.byte = self.byte & !mask;
    }

    pub fn as_byte(&self) -> (byte: u8)
        ensures
            byte == self@,
    {
        self.byte
    }

    pub fn load_byte(&mut self, byte: u8)
        ensures
            final(self)@ == byte,
    {
        self.byte = byte;
    }
}

/// After setting a mask, every bit of it reads as set; clearing it leaves
/// every bit of it unset; bits outside the mask keep their value.
pub proof fn law_set_then_clear(b: u8, mask: u8, other: u8)
    requires
        mask != 0,
        mask & other == 0,
    ensures
        (b | mask) & mask != 0,
        (b & !mask) & mask == 0,
        (b | mask) & other == b & other,
        (b & !mask) & other == b & other,
{
    assert((b | mask) & mask != 0) by (bit_vector)
        requires
            mask != 0,
    ;
    assert((b & !mask) & mask == 0) by (bit_vector);
    assert((b | mask) & other == b & other) by (bit_vector)
        requires
            mask & other == 0,
    ;
    assert((b & !mask) & other == b & other) by (bit_vector)
        requires
            mask & other == 0,
    ;
}

} // verus!

//! Address and data buses: a latched 16-bit address and a latched byte.
use vstd::prelude::*;

verus! {

/// A latched 16-bit address. The bus has a single owner: it is neither
/// cloned nor copied, so every reader sees the one latched value.
pub struct AddressBus {
    val: u16,
}

impl View for AddressBus {
    type V = u16;

    closed spec fn view(&self) -> u16 {
        self.val
    }
}

impl AddressBus {
    /// Replaces the high byte of the address, keeping the low byte.
    pub fn load_high_byte(&mut self, byte: u8)
        ensures
            final(self)@ == byte * 256 + old(self)@ % 256,
    {
        let v = self.val;
        assert((v & 0x00FF) | ((byte as u16) << 8u16) == byte * 256 + v % 256) by (bit_vector);
        let new = (self.val & 0x00FF) | ((byte as u16) << 8);
        self.val = new;
    }

    /// Replaces the low byte of the address, keeping the high byte.
    pub fn load_low_byte(&mut self, byte: u8)
        ensures
            final(self)@ == (old(self)@ / 256) * 256 + byte,
    {
        let v = self.val;
        assert((v & 0xFF00) | (byte as u16) == (v / 256) * 256 + byte) by (bit_vector);
        let new = (self.val & 0xFF00) | (byte as u16);
        self.val = new;
    }

    pub fn read(&self) -> (val: u16)
        ensures
            val == self@,
    {
        self.val
    }
}

pub fn new_address_bus() -> (bus: AddressBus)
    ensures
        bus@ == 0,
{
    AddressBus { val: 0 }
}

/// A latched byte. The bus has a single owner: it is neither cloned nor
/// copied, so every reader sees the one latched value.
pub struct DataBus {
    val: u8,
}

impl View for DataBus {
    type V = u8;

    closed spec fn view(&self) -> u8 {
        self.val
    }
}

impl DataBus {
    pub fn load(&mut self, byte: u8)
        ensures
            final(self)@ == byte,
    {
        self.val = byte;
    }

    pub fn read(&self) -> (val: u8)
        ensures
            val == self@,
    {
        self.val
    }
}

pub fn new_data_bus() -> (bus: DataBus)
    ensures
        bus@ == 0,
{
    DataBus { val: 0 }
}

/// Loading the two halves of an address, in either order, latches exactly
/// that address.
pub proof fn law_address_halves(old_val: u16, high: u8, low: u8)
    ensures
        ({
            let after_high = high * 256 + old_val % 256;
            (after_high / 256) * 256 + low == high * 256 + low
        }),
        ({
            let after_low = (old_val / 256) * 256 + low;
            high * 256 + after_low % 256 == high * 256 + low
        }),
{
}

} // verus!

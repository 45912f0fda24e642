//! The status register's flags.
use vstd::prelude::*;

verus! {

#[derive(Clone, Copy, Debug, PartialEq, Eq)]
pub enum Flag {
    /// Negative.
    N,
    /// Overflow.
    V,
    /// Break.
    B,
    /// BCD mode.
    D,
    /// Interrupt disable.
    I,
    /// Zero.
    Z,
    /// Carry.
    C,
}

pub open spec fn flag_mask(flag: Flag) -> u8 {
    match flag {
        Flag::N => 0x80,
        Flag::V => 0x40,
        Flag::B => 0x10,
        Flag::D => 0x08,
        Flag::I => 0x04,
        Flag::Z => 0x02,
        Flag::C => 0x01,
    }
}

impl Flag {
    /// The flag's bit in the status register.
    pub fn bits(self) -> (mask: u8)
        ensures
            mask == flag_mask(self),
    {
        match self {
            Flag::N => 0x80,
            Flag::V => 0x40,
            Flag::B => 0x10,
            Flag::D => 0x08,
            Flag::I => 0x04,
            Flag::Z => 0x02,
            Flag::C => 0x01,
        }
    }
}

impl From<Flag> for u8 {
    fn from(flag: Flag) -> (mask: u8) {
        flag.bits()
    }
}

impl vstd::std_specs::convert::FromSpecImpl<Flag> for u8 {
    open spec fn obeys_from_spec() -> bool {
        true
    }

    open spec fn from_spec(v: Flag) -> u8 {
        flag_mask(v)
    }
}

} // verus!

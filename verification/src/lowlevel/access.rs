//! The two header bits of every SPI access: read/write and single/burst.
use vstd::prelude::*;

verus! {

/// Direction of an access, bit 7 of the header byte.
#[derive(Clone, Copy, PartialEq, Eq, Structural, Debug)]
pub enum Access {
    Write,
    Read,
}

/// Single-byte or burst access, bit 6 of the header byte.
#[derive(Clone, Copy, PartialEq, Eq, Structural, Debug)]
pub enum Mode {
    Single,
    Burst,
}

impl Access {
    pub open spec fn spec_bits(self) -> u8 {
        match self {
            Access::Write => 0x00,
            Access::Read => 0x80,
        }
    }

    /// The value of the R/W bit in the header byte.
    #[verifier::when_used_as_spec(spec_bits)]
    pub fn bits(self) -> (b: u8)
        ensures
            b == self.spec_bits(),
    {
        match self {
            Access::Write => 0x00,
            Access::Read => 0x80,
        }
    }
}

impl Mode {
    pub open spec fn spec_bits(self) -> u8 {
        match self {
            Mode::Single => 0x00,
            Mode::Burst => 0x40,
        }
    }

    /// The value of the burst bit in the header byte.
    #[verifier::when_used_as_spec(spec_bits)]
    pub fn bits(self) -> (b: u8)
        ensures
            b == self.spec_bits(),
    {
        match self {
            Mode::Single => 0x00,
            Mode::Burst => 0x40,
        }
    }
}

} // verus!

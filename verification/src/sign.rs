use vstd::prelude::*;
use vstd::std_specs::convert::FromSpecImpl;

verus! {

/// The sign of a byte read as a two's-complement number.
#[derive(Debug, PartialEq, Eq, Clone, Copy, Structural)]
pub enum Sign {
    Positive,
    Negative,
}

/// The sign that bit 7 of `value` encodes.
pub open spec fn sign_of(value: u8) -> Sign {
    if value >= 0x80 {
        Sign::Negative
    } else {
        Sign::Positive
    }
}

impl Sign {
    /// Reads the sign from bit 7 of `value`.
    pub fn get_sign(value: u8) -> (sign: Sign)
        ensures
            sign == sign_of(value),
    {
        if value >= 0x80 {
            Sign::Negative
        } else {
            Sign::Positive
        }
    }
}

/// The flag bit that stands for a sign: 1 for negative, 0 for positive.
pub open spec fn sign_bit(sign: Sign) -> u8 {
    match sign {
        Sign::Positive => 0,
        Sign::Negative => 1,
    }
}

/// The sign that a flag bit stands for: the lowest bit of `value` decides.
pub open spec fn sign_of_bit(value: u8) -> Sign {
    if value % 2 == 1 {
        Sign::Negative
    } else {
        Sign::Positive
    }
}

impl From<u8> for Sign {
    fn from(value: u8) -> (sign: Sign) {
        if value % 2 == 1 {
            Sign::Negative
        } else {
            Sign::Positive
        }
    }
}

impl FromSpecImpl<u8> for Sign {
    open spec fn obeys_from_spec() -> bool {
        true
    }

    open spec fn from_spec(value: u8) -> Sign {
        sign_of_bit(value)
    }
}

impl From<Sign> for u8 {
    fn from(value: Sign) -> (bit: u8) {
        match value {
            Sign::Positive => 0,
            Sign::Negative => 1,
        }
    }
}

impl FromSpecImpl<Sign> for u8 {
    open spec fn obeys_from_spec() -> bool {
        true
    }

    open spec fn from_spec(value: Sign) -> u8 {
        sign_bit(value)
    }
}

} // verus!

use vstd::prelude::*;
use vstd::std_specs::convert::FromSpecImpl;

verus! {

/// Whether a byte holds an even or an odd number of one bits.
#[derive(Debug, PartialEq, Eq, Clone, Copy, Structural)]
pub enum Parity {
    Even,
    Odd,
}

/// The number of one bits in `x`.
#[verifier::opaque]
pub open spec fn count_ones(x: u8) -> int {
    x % 2 + x / 2 % 2 + x / 4 % 2 + x / 8 % 2 + x / 16 % 2 + x / 32 % 2 + x / 64 % 2 + x / 128
}

/// Even when `x` holds an even number of one bits, odd otherwise.
pub open spec fn parity_of(x: u8) -> Parity {
    if count_ones(x) % 2 == 0 {
        Parity::Even
    } else {
        Parity::Odd
    }
}

/// The flag bit that stands for a parity: 1 for even, 0 for odd.
pub open spec fn parity_bit(p: Parity) -> u8 {
    match p {
        Parity::Even => 1,
        Parity::Odd => 0,
    }
}

/// Folding a byte onto its lowest bit with exclusive-or leaves the parity of
/// its number of one bits there.
proof fn lemma_fold_is_count(x: u8)
    ensures
        ({
            let p1 = x ^ (x >> 1u8);
            let p2 = p1 ^ (p1 >> 2u8);
            let p3 = p2 ^ (p2 >> 4u8);
            (p3 & 1u8 == 1u8) <==> (count_ones(x) % 2 == 1)
        }),
{
    reveal(count_ones);
    let p1 = x ^ (x >> 1u8);
    let p2 = p1 ^ (p1 >> 2u8);
    let p3 = p2 ^ (p2 >> 4u8);
    assert((p3 & 1u8 == 1u8) <==> ((x % 2 + x / 2 % 2 + x / 4 % 2 + x / 8 % 2 + x / 16 % 2 + x / 32
        % 2 + x / 64 % 2 + x / 128) % 2 == 1)) by (bit_vector)
        requires
            p1 == x ^ (x >> 1u8),
            p2 == p1 ^ (p1 >> 2u8),
            p3 == p2 ^ (p2 >> 4u8),
    ;
}

/// Returns 1 when `x` holds an even number of one bits and 0 when it holds an
/// odd number.
pub fn parity(x: u8) -> (bit: u8)
    ensures
        bit == parity_bit(parity_of(x)),
        bit == 1 <==> count_ones(x) % 2 == 0,
        bit == 0 || bit == 1,
{
    let p1: u8 = x ^ (x >> 1u8);
    let p2: u8 = p1 ^ (p1 >> 2u8);
    let p3: u8 = p2 ^ (p2 >> 4u8);
    proof {
        lemma_fold_is_count(x);
    }
    if (p3 & 0x01) == 1 {
        0
    } else {
        1
    }
}

impl From<u8> for Parity {
    fn from(value: u8) -> (p: Parity) {
        if parity(value) == 1 {
            Parity::Even
        } else {
            Parity::Odd
        }
    }
}

impl FromSpecImpl<u8> for Parity {
    open spec fn obeys_from_spec() -> bool {
        true
    }

    open spec fn from_spec(value: u8) -> Parity {
        parity_of(value)
    }
}

impl From<Parity> for u8 {
    fn from(value: Parity) -> (bit: u8) {
        match value {
            Parity::Odd => 0,
            Parity::Even => 1,
        }
    }
}

impl FromSpecImpl<Parity> for u8 {
    open spec fn obeys_from_spec() -> bool {
        true
    }

    open spec fn from_spec(value: Parity) -> u8 {
        parity_bit(value)
    }
}

} // verus!

//! Gauge values.
//!
//! A gauge holds a double-precision number. The library never computes with these numbers, it
//! only carries them from an upstream response to a gauge, so it holds each one by its bit
//! pattern and leaves arithmetic and formatting to its caller.

use vstd::prelude::*;

verus! {

/// The bit pattern of the double `0.0`.
pub const ZERO_BITS: u64 = 0;

/// The bit pattern of the double `1.0`: sign 0, biased exponent 1023, mantissa 0.
pub const ONE_BITS: u64 = 0x3FF0_0000_0000_0000;

/// A double-precision number, held by its IEEE 754 bit pattern.
///
/// Two readings are equal when their patterns are, which is stricter than the equality
/// of the numbers they stand for: a reading that is carried over is carried over exactly.
#[derive(Clone, Copy, Debug, PartialEq, Eq, Structural)]
pub struct Reading {
    pub bits: u64,
}

impl Reading {
    /// The reading with the given bit pattern.
    pub fn from_bits(bits: u64) -> (r: Reading)
        ensures
            r.bits == bits,
    {
        Reading { bits }
    }

    /// The bit pattern of this reading.
    pub fn to_bits(self) -> (bits: u64)
        ensures
            bits == self.bits,
    {
        self.bits
    }

    /// The number `0.0`.
    pub open spec fn spec_zero() -> Reading {
        Reading { bits: ZERO_BITS }
    }

    /// The number `1.0`.
    pub open spec fn spec_one() -> Reading {
        Reading { bits: ONE_BITS }
    }

    /// The number `0.0`.
    #[verifier::when_used_as_spec(spec_zero)]
    pub fn zero() -> (r: Reading)
        ensures
            r == Reading::spec_zero(),
    {
        Reading { bits: ZERO_BITS }
    }

    /// The number `1.0`.
    #[verifier::when_used_as_spec(spec_one)]
    pub fn one() -> (r: Reading)
        ensures
            r == Reading::spec_one(),
    {
        Reading { bits: ONE_BITS }
    }
}

} // verus!

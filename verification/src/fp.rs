//! Floating-point quantities carried by their IEEE-754 bit pattern.

use vstd::prelude::*;

verus! {

/// A single-precision floating-point number, held as its IEEE-754 bit
/// pattern. Arithmetic on it happens outside this library; here it is
/// carried, compared with zero and handed on.
#[derive(Clone, Copy, Debug, PartialEq, Eq, Structural)]
pub struct Fp32 {
    pub bits: u32,
}

impl Fp32 {
    /// The bit pattern of `0.0`.
    pub open spec fn zero() -> Fp32 {
        Fp32 { bits: 0 }
    }

    /// The bit pattern of `1.0`.
    pub open spec fn one() -> Fp32 {
        Fp32 { bits: 0x3f80_0000 }
    }

    /// The value is a NaN: all exponent bits set and a non-zero mantissa.
    pub open spec fn is_nan(self) -> bool {
        self.bits % 0x8000_0000 > 0x7f80_0000
    }

    /// `self <= 0.0` under IEEE-754 comparison: false for every NaN, true
    /// for both zeros and for every negative value.
    pub open spec fn at_most_zero(self) -> bool {
        !self.is_nan() && (self.bits == 0 || self.bits >= 0x8000_0000)
    }

    /// Wraps a bit pattern.
    pub fn from_bits(bits: u32) -> (r: Fp32)
        ensures
            r.bits == bits,
    {
        Fp32 { bits }
    }

    /// `0.0`.
    pub fn new_zero() -> (r: Fp32)
        ensures
            r == Fp32::zero(),
    {
        Fp32 { bits: 0 }
    }

    /// `1.0`.
    pub fn new_one() -> (r: Fp32)
        ensures
            r == Fp32::one(),
    {
        Fp32 { bits: 0x3f80_0000 }
    }

    /// Decides `self <= 0.0`.
    pub fn is_at_most_zero(&self) -> (r: bool)
        ensures
            r == self.at_most_zero(),
    {
        let magnitude = self.bits % 0x8000_0000;
        magnitude <= 0x7f80_0000 && (self.bits == 0 || self.bits >= 0x8000_0000)
    }
}

} // verus!

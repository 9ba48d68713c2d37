//! Radio frequencies, held as the 64 bits of an IEEE 754 double precision
//! number of Hertz.

use vstd::prelude::*;

verus! {

/// The bit pattern of positive infinity: every pattern below it with a
/// clear sign bit is a finite number that is not negative.
pub const POSITIVE_INFINITY_BITS: u64 = 0x7FF0_0000_0000_0000;

/// A frequency in Hertz. `bits` is the IEEE 754 double precision encoding of
/// the number: one sign bit, eleven exponent bits, fifty-two fraction bits.
#[derive(Clone, Copy, Debug, PartialEq, Eq, Structural)]
pub struct Hertz {
    pub bits: u64,
}

impl Hertz {
    /// The sign bit: set for negative numbers and for negative zero.
    pub open spec fn sign_bit(self) -> bool {
        self.bits >> 63 == 1
    }

    /// The biased exponent.
    pub open spec fn exponent(self) -> u64 {
        (self.bits >> 52) & 0x7FF
    }

    /// The fraction bits.
    pub open spec fn fraction(self) -> u64 {
        self.bits & 0x000F_FFFF_FFFF_FFFF
    }

    /// The number is neither an infinity nor a NaN.
    pub open spec fn finite(self) -> bool {
        self.exponent() != 0x7FF
    }

    /// The number is zero, of either sign.
    pub open spec fn zero(self) -> bool {
        self.exponent() == 0 && self.fraction() == 0
    }

    /// The number is finite and greater than zero.
    pub open spec fn finite_and_positive(self) -> bool {
        self.finite() && !self.sign_bit() && !self.zero()
    }

    pub fn from_bits(bits: u64) -> (f: Hertz)
        ensures
            f.bits == bits,
    {
        Hertz { bits }
    }

    pub fn to_bits(&self) -> (bits: u64)
        ensures
            bits == self.bits,
    {
        self.bits
    }

    /// Whether the number is finite and greater than zero.
    pub fn is_finite_and_positive(&self) -> (r: bool)
        ensures
            r == self.finite_and_positive(),
    {
        let bits = self.bits;
        proof {
            lemma_finite_and_positive_range(*self);
        }
        0 < bits && bits < POSITIVE_INFINITY_BITS
    }
}

/// The finite numbers above zero are the bit patterns between those of zero
/// and of positive infinity.
pub proof fn lemma_finite_and_positive_range(f: Hertz)
    ensures
        f.finite_and_positive() <==> 0 < f.bits < POSITIVE_INFINITY_BITS,
{
    let bits = f.bits;
    assert((((bits >> 52) & 0x7FF) != 0x7FF && !(bits >> 63 == 1) && !(((bits >> 52) & 0x7FF) == 0
        && (bits & 0x000F_FFFF_FFFF_FFFF) == 0)) <==> (0 < bits && bits < 0x7FF0_0000_0000_0000u64))
        by (bit_vector);
}

} // verus!

//! Real numbers as IEEE 754 bit patterns.
//!
//! Coordinates, scroll amounts and window sizes reach this crate as the bit
//! patterns of the numbers that the windowing library reports, as
//! `f64::to_bits` and `f32::to_bits` give them, so that every function that
//! touches them works on integers. Coordinates and scroll amounts pass
//! through untouched; a window size is cut down to whole pixels by
//! [`Binary64::to_u32`].

use vstd::prelude::*;
use vstd::arithmetic::div_mod::{
    lemma_basic_div, lemma_div_is_ordered, lemma_div_is_ordered_by_denominator,
};
use vstd::arithmetic::power2::{
    lemma2_to64, lemma2_to64_rest, lemma_pow2_pos, lemma_pow2_strictly_increases, pow2,
};
use vstd::bits::lemma_u64_shr_is_div;

verus! {

/// The bit pattern of an IEEE 754 single-precision number.
#[derive(Clone, Copy, Debug, PartialEq, Eq, Hash, Structural)]
pub struct Binary32 {
    /// Sign, exponent and fraction, from the highest bit down.
    pub bits: u32,
}

/// The bit pattern of an IEEE 754 double-precision number.
#[derive(Clone, Copy, Debug, PartialEq, Eq, Hash, Structural)]
pub struct Binary64 {
    /// Sign, exponent and fraction, from the highest bit down.
    pub bits: u64,
}

impl Binary64 {
    /// Whether the sign bit is set.
    pub open spec fn is_negative(self) -> bool {
        self.bits >= 0x8000_0000_0000_0000
    }

    /// The exponent field: the eleven bits below the sign.
    pub open spec fn exponent(self) -> nat {
        ((self.bits as nat) / 0x10_0000_0000_0000) % 0x800
    }

    /// The fraction field: the lowest fifty-two bits.
    pub open spec fn fraction(self) -> nat {
        (self.bits as nat) % 0x10_0000_0000_0000
    }

    /// Whether the pattern stands for no number at all.
    pub open spec fn is_nan(self) -> bool {
        self.exponent() == 0x7ff && self.fraction() != 0
    }

    /// Whether the pattern stands for positive or negative infinity.
    pub open spec fn is_infinite(self) -> bool {
        self.exponent() == 0x7ff && self.fraction() == 0
    }

    /// The significand of a finite number, scaled to an integer: the
    /// fraction, with the implicit leading one unless the number is
    /// subnormal.
    pub open spec fn significand(self) -> nat {
        if self.exponent() == 0 {
            self.fraction()
        } else {
            0x10_0000_0000_0000 + self.fraction()
        }
    }

    /// The power of two by which the significand of a finite number is
    /// scaled, shifted up by 1075 so that it is never negative: the number's
    /// magnitude is `significand() * 2^(scale() - 1075)`.
    pub open spec fn scale(self) -> nat {
        if self.exponent() == 0 {
            1
        } else {
            self.exponent()
        }
    }

    /// The magnitude of a finite number, rounded down to a whole number.
    pub open spec fn whole_magnitude(self) -> nat {
        if self.scale() >= 1075 {
            self.significand() * pow2((self.scale() - 1075) as nat)
        } else {
            self.significand() / pow2((1075 - self.scale()) as nat)
        }
    }

    /// The number cut down to an unsigned 32-bit integer: the fractional part
    /// is dropped, a number below zero gives zero, one above `u32::MAX` gives
    /// `u32::MAX`, and a pattern that stands for no number gives zero.
    pub open spec fn truncated(self) -> u32 {
        if self.is_nan() || self.is_negative() {
            0
        } else if self.is_infinite() || self.whole_magnitude() > u32::MAX {
            u32::MAX
        } else {
            self.whole_magnitude() as u32
        }
    }

    /// Cuts the number down to an unsigned 32-bit integer, towards zero and
    /// saturating at both ends of the range.
    pub fn to_u32(&self) -> (whole: u32)
        ensures
            whole == self.truncated(),
    {
        let bits: u64 = self.bits;
        let exponent: u64 = (bits >> 52) & 0x7ff;
        let fraction: u64 = bits & 0xf_ffff_ffff_ffff;
        let negative: bool = bits >> 63 == 1;
        proof {
            assert(exponent == (bits / 0x10_0000_0000_0000) % 0x800) by (bit_vector)
                requires
                    exponent == (bits >> 52) & 0x7ff,
            ;
            assert(fraction == bits % 0x10_0000_0000_0000) by (bit_vector)
                requires
                    fraction == bits & 0xf_ffff_ffff_ffff,
            ;
            assert(negative == (bits >= 0x8000_0000_0000_0000)) by (bit_vector)
                requires
                    negative == (bits >> 63 == 1),
            ;
            lemma2_to64();
            lemma2_to64_rest();
        }
        if exponent == 0x7ff && fraction != 0 {
            return 0;
        }
        if negative {
            return 0;
        }
        if exponent < 1023 {
            proof {
                // The divisor is at least 2^53 and so exceeds the significand.
                let down: nat = (1075 - self.scale()) as nat;
                if down > 53 {
                    lemma_pow2_strictly_increases(53, down);
                }
                lemma_basic_div(self.significand() as int, pow2(down) as int);
            }
            return 0;
        }
        if exponent > 1054 {
            proof {
                let significand: nat = self.significand();
                if exponent >= 1075 {
                    let up: nat = (self.scale() - 1075) as nat;
                    lemma_pow2_pos(up);
                    assert(significand * pow2(up) >= significand) by (nonlinear_arith)
                        requires
                            pow2(up) >= 1,
                    ;
                } else {
                    // The divisor is at most 2^20, so the quotient is at least 2^32.
                    let down: nat = (1075 - self.scale()) as nat;
                    if down < 20 {
                        lemma_pow2_strictly_increases(down, 20);
                    }
                    lemma_pow2_pos(down);
                    lemma_div_is_ordered_by_denominator(
                        significand as int,
                        pow2(down) as int,
                        pow2(20) as int,
                    );
                    lemma_div_is_ordered(
                        0x10_0000_0000_0000,
                        significand as int,
                        pow2(20) as int,
                    );
                }
            }
            return u32::MAX;
        }
        let significand: u64 = fraction | 0x10_0000_0000_0000;
        let down: u64 = 1075 - exponent;
        let whole: u64 = significand >> down;
        proof {
            assert(significand == 0x10_0000_0000_0000 + fraction) by (bit_vector)
                requires
                    fraction == bits & 0xf_ffff_ffff_ffff,
                    significand == fraction | 0x10_0000_0000_0000,
            ;
            lemma_u64_shr_is_div(significand, down);
            assert(whole <= 0xffff_ffff) by (bit_vector)
                requires
                    whole == significand >> down,
                    21 <= down <= 52,
                    significand < 0x20_0000_0000_0000,
            ;
        }
        whole as u32
    }
}

} // verus!

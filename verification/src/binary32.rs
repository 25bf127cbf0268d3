//! Single-precision numbers as bit patterns.
//!
//! Light intensities, humidities and temperatures reach the controller as
//! IEEE 754 binary32 values. The controller only ever compares them and hands
//! them on, so it keeps each one as its 32-bit pattern and compares patterns
//! with integer arithmetic.

use vstd::arithmetic::power2::{lemma2_to64, lemma_pow2_strictly_increases, lemma_pow2_unfold, pow2};
use vstd::prelude::*;

verus! {

/// Two to the power 23: the patterns of one exponent span this many
/// fractions.
pub const FRACTION_SPAN: u32 = 0x80_0000;

/// The exponent field of the numbers from two to the power 23 up to two to
/// the power 24, which their fraction field counts in steps of one.
pub const UNIT_STEP_EXPONENT: u32 = 150;

/// Bit pattern of the sign bit; every pattern at or above it is negative.
pub const SIGN_BIT: u32 = 0x8000_0000;

/// Bit pattern of positive infinity; a magnitude above it is not a number.
pub const INFINITY_BITS: u32 = 0x7F80_0000;

/// Bit pattern of the number one.
pub const ONE_BITS: u32 = 0x3F80_0000;

/// A single-precision number, held as its IEEE 754 binary32 bit pattern.
#[derive(Clone, Copy, Debug, PartialEq, Eq, Structural, Hash)]
pub struct Binary32 {
    pub bits: u32,
}

impl Binary32 {
    /// The pattern without its sign bit.
    pub open spec fn magnitude(self) -> int {
        if self.bits >= SIGN_BIT {
            self.bits - SIGN_BIT
        } else {
            self.bits as int
        }
    }

    /// Whether the pattern is one of the NaNs, which compare with nothing.
    pub open spec fn is_nan(self) -> bool {
        self.magnitude() > INFINITY_BITS
    }

    /// An integer that orders the numbers as IEEE 754 does: of two patterns
    /// that are numbers, the first is below the second exactly when its rank
    /// is. Both zeros have rank 0.
    pub open spec fn rank(self) -> int {
        if self.bits >= SIGN_BIT {
            -self.magnitude()
        } else {
            self.magnitude()
        }
    }

    /// `self < other` as numbers; false when either is a NaN.
    pub open spec fn num_lt(self, other: Binary32) -> bool {
        !self.is_nan() && !other.is_nan() && self.rank() < other.rank()
    }

    /// `self == other` as numbers: the zeros are equal, a NaN equals nothing.
    pub open spec fn num_eq(self, other: Binary32) -> bool {
        !self.is_nan() && !other.is_nan() && self.rank() == other.rank()
    }

    /// Whether the number lies in the closed interval from zero to one.
    pub open spec fn is_unit(self) -> bool {
        0 <= self.rank() <= ONE_BITS
    }

    /// Whether the number lies at or above zero and strictly below `limit`.
    pub open spec fn is_fraction_below(self, limit: u32) -> bool {
        0 <= self.rank() < limit
    }

    /// `self > 0` as numbers.
    pub open spec fn is_positive(self) -> bool {
        !self.is_nan() && self.rank() > 0
    }

    /// The exponent field of the pattern.
    pub open spec fn exponent_field(self) -> int {
        self.magnitude() / (FRACTION_SPAN as int)
    }

    /// The fraction field of the pattern.
    pub open spec fn fraction_field(self) -> int {
        self.magnitude() % (FRACTION_SPAN as int)
    }

    /// The whole part of the absolute value of a number that is not
    /// infinite. A number with exponent field `e` of 127 or more is its
    /// significand, two to the power 23 plus the fraction field, times two
    /// to the power `e - 150`; one with a smaller exponent field is below
    /// one.
    pub open spec fn whole_magnitude(self) -> int {
        let e = self.exponent_field();
        let significand = FRACTION_SPAN + self.fraction_field();
        if e < 127 {
            0
        } else if e <= UNIT_STEP_EXPONENT {
            significand / (pow2((UNIT_STEP_EXPONENT - e) as nat) as int)
        } else {
            significand * pow2((e - UNIT_STEP_EXPONENT) as nat)
        }
    }

    /// The number as an unsigned 32-bit integer: cut off towards zero, zero
    /// for a NaN and for every number below zero, and the largest integer for
    /// every number above it.
    pub open spec fn truncated(self) -> u32 {
        if self.is_nan() || self.bits >= SIGN_BIT {
            0
        } else if self.whole_magnitude() > u32::MAX {
            u32::MAX
        } else {
            self.whole_magnitude() as u32
        }
    }

    pub fn from_bits(bits: u32) -> (r: Binary32)
        ensures
            r.bits == bits,
    {
        Binary32 { bits }
    }

    pub fn to_bits(&self) -> (r: u32)
        ensures
            r == self.bits,
    {
        self.bits
    }

    /// Positive zero.
    pub fn zero() -> (r: Binary32)
        ensures
            r.bits == 0,
    {
        Binary32 { bits: 0 }
    }

    fn order_key(&self) -> (r: i64)
        ensures
            r == self.rank(),
    {
        if self.bits >= SIGN_BIT {
            let m: u32 = self.bits - SIGN_BIT;
            let k: i64 = m as i64;
            -k
        } else {
            self.bits as i64
        }
    }

    pub fn nan(&self) -> (r: bool)
        ensures
            r == self.is_nan(),
    {
        let m: u32 = if self.bits >= SIGN_BIT {
            self.bits - SIGN_BIT
        } else {
            self.bits
        };
        m > INFINITY_BITS
    }

    pub fn lt(&self, other: &Binary32) -> (r: bool)
        ensures
            r == self.num_lt(*other),
    {
        !self.nan() && !other.nan() && self.order_key() < other.order_key()
    }

    pub fn same_number(&self, other: &Binary32) -> (r: bool)
        ensures
            r == self.num_eq(*other),
    {
        !self.nan() && !other.nan() && self.order_key() == other.order_key()
    }

    pub fn positive(&self) -> (r: bool)
        ensures
            r == self.is_positive(),
    {
        !self.nan() && self.order_key() > 0
    }

    /// The number as an unsigned 32-bit integer, cut off towards zero and
    /// held within the range of the integers.
    pub fn to_u32(&self) -> (r: u32)
        ensures
            r == self.truncated(),
    {
        if self.nan() || self.bits >= SIGN_BIT {
            return 0;
        }
        let exponent: u32 = self.bits / FRACTION_SPAN;
        let significand: u64 = (FRACTION_SPAN + self.bits % FRACTION_SPAN) as u64;
        if exponent < 127 {
            0
        } else if exponent <= UNIT_STEP_EXPONENT {
            let divisor: u64 = power_of_two(UNIT_STEP_EXPONENT - exponent);
            (significand / divisor) as u32
        } else if exponent - UNIT_STEP_EXPONENT >= 9 {
            proof {
                let k = (exponent - UNIT_STEP_EXPONENT) as nat;
                lemma2_to64();
                if k > 9 {
                    lemma_pow2_strictly_increases(9, k);
                }
                assert(significand * pow2(k) >= FRACTION_SPAN * 512) by (nonlinear_arith)
                    requires
                        significand >= FRACTION_SPAN,
                        pow2(k) >= 512,
                ;
            }
            u32::MAX
        } else {
            let factor: u64 = power_of_two(exponent - UNIT_STEP_EXPONENT);
            proof {
                let k = (exponent - UNIT_STEP_EXPONENT) as nat;
                lemma2_to64();
                if k < 8 {
                    lemma_pow2_strictly_increases(k, 8);
                }
                assert(significand * factor <= 0xFF_FFFF * 256) by (nonlinear_arith)
                    requires
                        significand <= 0xFF_FFFF,
                        factor <= 256,
                ;
            }
            (significand * factor) as u32
        }
    }

    pub fn in_unit_interval(&self) -> (r: bool)
        ensures
            r == self.is_unit(),
    {
        let k: i64 = self.order_key();
        0 <= k && k <= ONE_BITS as i64
    }

    pub fn in_fraction_below(&self, limit: u32) -> (r: bool)
        ensures
            r == self.is_fraction_below(limit),
    {
        let k: i64 = self.order_key();
        0 <= k && k < limit as i64
    }
}

/// Two to the power `k`.
fn power_of_two(k: u32) -> (r: u64)
    requires
        k <= 32,
    ensures
        r == pow2(k as nat),
        r >= 1,
{
    let mut power: u64 = 1;
    let mut i: u32 = 0;
    proof {
        lemma2_to64();
    }
    while i < k
        invariant
            i <= k <= 32,
            power == pow2(i as nat),
            1 <= power <= 0x1_0000_0000,
        decreases k - i,
    {
        proof {
            lemma_pow2_unfold((i + 1) as nat);
            lemma2_to64();
            if i + 1 < 32 {
                lemma_pow2_strictly_increases((i + 1) as nat, 32);
            }
        }
        power = power * 2;
        i = i + 1;
    }
    power
}

} // verus!

//! Binary64 numbers as they arrive from the broker.
//!
//! Floating-point arithmetic stays with the caller. What the logic reads of such a number is its
//! bit pattern, which decides its class and its order, and its decimal renderings.

use vstd::prelude::*;

verus! {

/// The bit pattern of positive infinity; every magnitude above it is a NaN.
pub const INFINITY_BITS: u64 = 0x7FF0_0000_0000_0000;

/// The weight of the sign bit.
pub const SIGN_BIT: u64 = 0x8000_0000_0000_0000;

/// The bit pattern of the largest finite number, which the broker sends for "not set".
pub const UNSET_BITS: u64 = 0x7FEF_FFFF_FFFF_FFFF;

/// The bit pattern of minus one.
pub const MINUS_ONE_BITS: u64 = 0xBFF0_0000_0000_0000;

/// A binary64 number together with its decimal renderings.
#[derive(Debug, PartialEq, Eq)]
pub struct WireNumber {
    /// The IEEE 754 bit pattern.
    pub bits: u64,
    /// The shortest decimal text that reads back as the same number.
    pub text: String,
    /// The decimal text with exactly ten digits after the point.
    pub fixed: String,
}

impl Clone for WireNumber {
    fn clone(&self) -> (r: Self)
        ensures
            r == *self,
    {
        WireNumber { bits: self.bits, text: self.text.clone(), fixed: self.fixed.clone() }
    }
}

impl WireNumber {
    /// The bit pattern without its sign.
    pub open spec fn magnitude_spec(&self) -> int {
        if self.bits >= SIGN_BIT {
            self.bits - SIGN_BIT
        } else {
            self.bits as int
        }
    }

    /// An integer that orders numbers as their values do; both zeros share one.
    pub open spec fn rank(&self) -> int {
        if self.bits >= SIGN_BIT {
            -self.magnitude_spec()
        } else {
            self.magnitude_spec()
        }
    }

    /// Not a number.
    pub open spec fn nan(&self) -> bool {
        self.magnitude_spec() > INFINITY_BITS
    }

    /// Neither an infinity nor a NaN.
    pub open spec fn finite(&self) -> bool {
        self.magnitude_spec() < INFINITY_BITS
    }

    /// Positive or negative zero.
    pub open spec fn zero(&self) -> bool {
        self.magnitude_spec() == 0
    }

    /// Above zero; a NaN is not.
    pub open spec fn positive(&self) -> bool {
        !self.nan() && self.rank() > 0
    }

    /// Below zero; a NaN is not.
    pub open spec fn negative(&self) -> bool {
        !self.nan() && self.rank() < 0
    }

    /// The value of `self` is below that of `other`; nothing compares with a NaN.
    pub open spec fn below(&self, other: &WireNumber) -> bool {
        !self.nan() && !other.nan() && self.rank() < other.rank()
    }

    /// The smaller of two numbers; a NaN gives way to the other one, and of two equal numbers
    /// `self` stays.
    pub open spec fn lesser(self, other: WireNumber) -> WireNumber {
        if self.nan() || other.below(&self) {
            other
        } else {
            self
        }
    }

    fn magnitude(&self) -> (r: u64)
        ensures
            r == self.magnitude_spec(),
    {
        if self.bits >= SIGN_BIT {
            self.bits - SIGN_BIT
        } else {
            self.bits
        }
    }

    /// Whether the number is neither an infinity nor a NaN.
    pub fn is_finite(&self) -> (r: bool)
        ensures
            r == self.finite(),
    {
        self.magnitude() < INFINITY_BITS
    }

    /// Whether the number is a NaN.
    pub fn is_nan(&self) -> (r: bool)
        ensures
            r == self.nan(),
    {
        self.magnitude() > INFINITY_BITS
    }

    /// Whether the number is positive or negative zero.
    pub fn is_zero(&self) -> (r: bool)
        ensures
            r == self.zero(),
    {
        self.magnitude() == 0
    }

    /// Whether the number is above zero.
    pub fn is_positive(&self) -> (r: bool)
        ensures
            r == self.positive(),
    {
        !self.is_nan() && !self.is_zero() && self.bits < SIGN_BIT
    }

    /// Whether the number is below zero.
    pub fn is_negative(&self) -> (r: bool)
        ensures
            r == self.negative(),
    {
        !self.is_nan() && !self.is_zero() && self.bits >= SIGN_BIT
    }

    /// Whether the number is below `other`.
    pub fn is_below(&self, other: &WireNumber) -> (r: bool)
        ensures
            r == self.below(other),
    {
        if self.is_nan() || other.is_nan() {
            return false;
        }
        let x: u64 = self.magnitude();
        let y: u64 = other.magnitude();
        if self.bits >= SIGN_BIT {
            if other.bits >= SIGN_BIT {
                x > y
            } else {
                x != 0 || y != 0
            }
        } else if other.bits >= SIGN_BIT {
            false
        } else {
            x < y
        }
    }

    /// The smaller of two numbers.
    pub fn min(&self, other: &WireNumber) -> (r: WireNumber)
        ensures
            r == self.lesser(*other),
    {
        if self.is_nan() || other.is_below(self) {
            other.clone()
        } else {
            self.clone()
        }
    }
}

} // verus!

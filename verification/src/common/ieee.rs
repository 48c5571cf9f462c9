//! Order and absolute value of 64-bit IEEE 754 numbers, on their bit
//! patterns.
//!
//! A pattern is a sign bit and a magnitude of 63 bits. The magnitudes
//! above that of infinity are not numbers. Of two numbers the greater is
//! the one with the greater signed magnitude; the two zeros are equal.

use vstd::prelude::*;
use crate::common::types::Real;

verus! {

pub const SIGN_BIT: u64 = 0x8000_0000_0000_0000;

/// The magnitude of infinity.
pub const INFINITY_BITS: u64 = 0x7FF0_0000_0000_0000;

impl Real {
    /// The pattern without its sign bit.
    pub open spec fn magnitude(self) -> u64 {
        if self.bits >= SIGN_BIT {
            (self.bits - SIGN_BIT) as u64
        } else {
            self.bits
        }
    }

    /// The pattern stands for no number.
    pub open spec fn is_nan_spec(self) -> bool {
        self.magnitude() > INFINITY_BITS
    }

    /// The magnitude with the sign of the number; the place of the number
    /// among all numbers.
    pub open spec fn rank(self) -> int {
        if self.bits >= SIGN_BIT {
            -(self.magnitude() as int)
        } else {
            self.magnitude() as int
        }
    }

    /// `self > other`, which holds of no pattern that is not a number.
    pub open spec fn gt_spec(self, other: Real) -> bool {
        !self.is_nan_spec() && !other.is_nan_spec() && self.rank() > other.rank()
    }

    /// The number without its sign.
    pub open spec fn abs_spec(self) -> Real {
        Real { bits: self.magnitude() }
    }

    /// The pattern stands for no number.
    pub fn is_nan(self) -> (r: bool)
        ensures
            r == self.is_nan_spec(),
    {
        let magnitude = if self.bits >= SIGN_BIT {
            self.bits - SIGN_BIT
        } else {
            self.bits
        };
        magnitude > INFINITY_BITS
    }

    /// The number without its sign.
    pub fn abs(self) -> (r: Real)
        ensures
            r == self.abs_spec(),
    {
        if self.bits >= SIGN_BIT {
            Real { bits: self.bits - SIGN_BIT }
        } else {
            self
        }
    }

    /// `self > other`.
    pub fn greater_than(self, other: Real) -> (r: bool)
        ensures
            r == self.gt_spec(other),
    {
        if self.is_nan() || other.is_nan() {
            return false;
        }
        let a_negative = self.bits >= SIGN_BIT;
        let b_negative = other.bits >= SIGN_BIT;
        let a = self.abs().bits;
        let b = other.abs().bits;
        if a_negative {
            if b_negative {
                a < b
            } else {
                false
            }
        } else if b_negative {
            a > 0 || b > 0
        } else {
            a > b
        }
    }
}

/// No number is greater than itself, and of two numbers not both are
/// greater than the other.
pub proof fn lemma_order_is_strict(a: Real, b: Real)
    ensures
        !a.gt_spec(a),
        !(a.gt_spec(b) && b.gt_spec(a)),
{
}

} // verus!

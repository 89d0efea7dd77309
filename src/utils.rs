//! Non-negative scalars and time stamps.
use crate::error::PricingError;
use vstd::prelude::*;

verus! {

/// Bit pattern of positive infinity: the largest non-negative, non-NaN double.
pub const INFINITY_BITS: u64 = 0x7FF0_0000_0000_0000;

/// The sign bit of a double; alone it is the bit pattern of negative zero.
pub const SIGN_BIT: u64 = 0x8000_0000_0000_0000;

/// The bit pattern with the sign bit cleared.
pub open spec fn magnitude_bits(b: u64) -> u64 {
    if b >= SIGN_BIT {
        (b - SIGN_BIT) as u64
    } else {
        b
    }
}

/// The double with bit pattern `b` is a NaN: all exponent bits set, mantissa not zero.
pub open spec fn is_nan_bits(b: u64) -> bool {
    magnitude_bits(b) > INFINITY_BITS
}

/// The double with bit pattern `b` is below zero (negative zero is not).
pub open spec fn is_negative_bits(b: u64) -> bool {
    b > SIGN_BIT && !is_nan_bits(b)
}

/// The double with bit pattern `b` may be held as a `NonNegativeFloat`.
pub open spec fn is_non_negative_bits(b: u64) -> bool {
    !is_nan_bits(b) && !is_negative_bits(b)
}

/// The canonical pattern of an accepted double: negative zero becomes zero.
pub open spec fn canonical_bits(b: u64) -> u64 {
    if b == SIGN_BIT {
        0
    } else {
        b
    }
}

/// A double that is neither negative nor NaN, held as its IEEE-754 bit pattern.
///
/// The pattern is canonical (zero has no sign), so two values are equal exactly
/// when their patterns are, and one is smaller than another exactly when its
/// pattern is.
#[derive(Clone, Copy, Debug, PartialEq, Eq, Structural)]
pub struct NonNegativeFloat {
    bits: u64,
}

/// A point on the simulation clock.
pub type TimeStamp = NonNegativeFloat;

impl View for NonNegativeFloat {
    type V = u64;

    closed spec fn view(&self) -> u64 {
        self.bits
    }
}

impl NonNegativeFloat {
    #[verifier::type_invariant]
    spec fn inv(self) -> bool {
        self.bits <= INFINITY_BITS
    }

    /// Accepts the double with bit pattern `bits` unless it is negative or NaN.
    pub fn from_bits(bits: u64) -> (r: Result<NonNegativeFloat, PricingError>)
        ensures
            r is Ok <==> is_non_negative_bits(bits),
            r matches Ok(x) ==> x@ == canonical_bits(bits),
            r is Err ==> r == Err::<NonNegativeFloat, PricingError>(PricingError::InvalidParameter),
    {
        if bits == SIGN_BIT {
            Ok(NonNegativeFloat { bits: 0 })
        } else if bits <= INFINITY_BITS {
            Ok(NonNegativeFloat { bits })
        } else {
            Err(PricingError::InvalidParameter)
        }
    }

    /// Zero.
    pub fn zero() -> (r: NonNegativeFloat)
        ensures
            r@ == 0,
    {
        NonNegativeFloat { bits: 0 }
    }

    /// The bit pattern of the double held.
    pub fn to_bits(&self) -> (r: u64)
        ensures
            r == self@,
            r <= INFINITY_BITS,
    {
        proof {
            use_type_invariant(self);
        }
        self.bits
    }

    /// Whether `self` is strictly smaller than `other`.
    pub fn lt(&self, other: &NonNegativeFloat) -> (r: bool)
        ensures
            r == (self@ < other@),
    {
        self.bits < other.bits
    }

    /// Whether `self` is at most `other`.
    pub fn le(&self, other: &NonNegativeFloat) -> (r: bool)
        ensures
            r == (self@ <= other@),
    {
        self.bits <= other.bits
    }

    /// Whether `self` and `other` are the same value.
    pub fn same(&self, other: &NonNegativeFloat) -> (r: bool)
        ensures
            r == (self@ == other@),
            r == (*self == *other),
    {
        self.bits == other.bits
    }
}

} // verus!

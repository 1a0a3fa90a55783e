use vstd::prelude::*;

verus! {

/// Bit pattern of negative zero: sign bit set, all other bits clear.
pub const NEG_ZERO_BITS: u32 = 0x8000_0000;

/// Bit pattern of negative infinity: sign bit set, exponent all ones,
/// fraction clear.  Every pattern above it (with the sign bit set) is a NaN.
pub const NEG_INFINITY_BITS: u32 = 0xFF80_0000;

/// One scalar score, held as the bit pattern of an IEEE 754 single-precision
/// (32-bit) value.  The engine itself never does floating-point arithmetic:
/// it only stores scores and asks whether a score compares below zero, and
/// both are decided by the bit pattern alone.
#[derive(Debug, Clone, Copy, PartialEq, Eq, Structural)]
pub struct Scalar {
    pub bits: u32,
}

impl Scalar {
    /// The score zero (the bit pattern of positive zero).
    pub open spec fn spec_zero() -> Scalar {
        Scalar { bits: 0 }
    }

    /// Whether the stored value compares below zero.
    ///
    /// A single-precision value is below zero exactly when its sign bit is
    /// set and it is neither negative zero nor a NaN: those are the bit
    /// patterns strictly above `NEG_ZERO_BITS` and no greater than
    /// `NEG_INFINITY_BITS`.  A NaN never compares below zero, so it is not
    /// counted here.
    pub open spec fn spec_is_below_zero(self) -> bool {
        NEG_ZERO_BITS < self.bits && self.bits <= NEG_INFINITY_BITS
    }

    pub fn zero() -> (r: Scalar)
        ensures
            r == Scalar::spec_zero(),
    {
        Scalar { bits: 0 }
    }

    pub fn is_below_zero(&self) -> (r: bool)
        ensures
            r == self.spec_is_below_zero(),
    {
        NEG_ZERO_BITS < self.bits && self.bits <= NEG_INFINITY_BITS
    }
}

} // verus!

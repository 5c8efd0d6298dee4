use vstd::prelude::*;
use vstd::std_specs::cmp::PartialEqSpecImpl;

verus! {

/// Mask of the exponent and fraction bits of a scalar: everything but the sign.
pub const MAGNITUDE_MASK: u32 = 0x7fff_ffff;

/// The sign bit of a scalar.
pub const SIGN_MASK: u32 = 0x8000_0000;

/// Magnitude bits of infinity; a larger magnitude is not a number.
pub const INFINITY_BITS: u32 = 0x7f80_0000;

/// Bit pattern of the number one.
pub const ONE_BITS: u32 = 0x3f80_0000;

/// A single-precision IEEE-754 number, held as its 32-bit pattern.
///
/// Two scalars are the same value (`==` in contracts) when their bits agree.
/// The executable `==` is the numeric comparison of IEEE-754 instead, stated by
/// [`Scalar::num_eq`]: positive and negative zero compare equal, and a scalar
/// that is not a number compares unequal to everything, itself included.
#[derive(Clone, Copy, Debug)]
pub struct Scalar {
    pub bits: u32,
}

impl Scalar {
    /// True when the bits encode no number (NaN).
    pub open spec fn is_nan(self) -> bool {
        (self.bits & MAGNITUDE_MASK) > INFINITY_BITS
    }

    /// True when the bits encode a finite number: neither an infinity nor a
    /// NaN.
    pub open spec fn is_finite(self) -> bool {
        (self.bits & MAGNITUDE_MASK) < INFINITY_BITS
    }

    /// True for positive and for negative zero.
    pub open spec fn is_zero(self) -> bool {
        (self.bits & MAGNITUDE_MASK) == 0
    }

    /// The scalar with the opposite sign bit and the same magnitude bits.
    pub open spec fn negated(self) -> Scalar {
        Scalar { bits: self.bits ^ SIGN_MASK }
    }

    /// Numeric equality of IEEE-754.
    pub open spec fn num_eq(self, other: Scalar) -> bool {
        &&& !self.is_nan()
        &&& !other.is_nan()
        &&& (self.bits == other.bits || (self.is_zero() && other.is_zero()))
    }

    /// Positive zero.
    pub open spec fn spec_zero() -> Scalar {
        Scalar { bits: 0 }
    }

    /// The number one.
    pub open spec fn spec_one() -> Scalar {
        Scalar { bits: ONE_BITS }
    }

    pub fn from_bits(bits: u32) -> (r: Scalar)
        ensures
            r.bits == bits,
    {
        Scalar { bits }
    }

    pub fn to_bits(self) -> (r: u32)
        ensures
            r == self.bits,
    {
        self.bits
    }

    #[verifier::when_used_as_spec(spec_zero)]
    pub fn zero() -> (r: Scalar)
        ensures
            r == Scalar::spec_zero(),
    {
        Scalar { bits: 0 }
    }

    #[verifier::when_used_as_spec(spec_one)]
    pub fn one() -> (r: Scalar)
        ensures
            r == Scalar::spec_one(),
    {
        Scalar { bits: ONE_BITS }
    }

    pub fn check_nan(self) -> (r: bool)
        ensures
            r == self.is_nan(),
    {
        (self.bits & MAGNITUDE_MASK) > INFINITY_BITS
    }

    /// Tells whether the scalar is a zero of either sign: the test that
    /// decides whether a vector of this length can be normalised.
    pub fn check_zero(self) -> (r: bool)
        ensures
            r == self.is_zero(),
    {
        (self.bits & MAGNITUDE_MASK) == 0
    }

    /// Flips the sign. No rounding takes part, and a NaN keeps its payload.
    pub fn neg(self) -> (r: Scalar)
        ensures
            r == self.negated(),
    {
        Scalar { bits: self.bits ^ SIGN_MASK }
    }
}

impl PartialEq for Scalar {
    fn eq(&self, other: &Scalar) -> (r: bool) {
        let a: u32 = self.bits & MAGNITUDE_MASK;
        let b: u32 = other.bits & MAGNITUDE_MASK;
        a <= INFINITY_BITS && b <= INFINITY_BITS && (self.bits == other.bits || (a == 0 && b == 0))
    }
}

impl PartialEqSpecImpl for Scalar {
    open spec fn obeys_eq_spec() -> bool {
        true
    }

    open spec fn eq_spec(&self, other: &Scalar) -> bool {
        self.num_eq(*other)
    }
}

} // verus!

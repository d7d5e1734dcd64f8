//! Raw IEEE-754 binary32 values and their ordering.
use vstd::prelude::*;

verus! {

/// Encoding of `+0.0`.
pub const POSITIVE_ZERO_BITS: u32 = 0;

/// Encoding of `+inf`; every larger magnitude is a NaN.
pub const INFINITY_BITS: u32 = 0x7f80_0000;

/// The sign bit.
pub const SIGN_BIT: u32 = 0x8000_0000;

/// A single-precision number held as its IEEE-754 bit pattern.
#[derive(Clone, Copy, Debug, PartialEq, Eq, Structural)]
pub struct Ieee32 {
    pub bits: u32,
}

impl Ieee32 {
    /// The sign bit is set (this includes `-0.0` and negative NaNs).
    pub open spec fn sign_negative(self) -> bool {
        self.bits >= SIGN_BIT
    }

    /// The encoding with the sign bit cleared.
    pub open spec fn magnitude(self) -> int {
        (self.bits as int) % (SIGN_BIT as int)
    }

    /// Exponent all ones with a non-zero fraction.
    pub open spec fn nan(self) -> bool {
        self.magnitude() > INFINITY_BITS
    }

    /// Position on the extended real line. For non-NaN encodings the
    /// magnitude bits grow with the absolute value, so signing them gives an
    /// integer that orders exactly as the numbers do; both zeros map to 0.
    pub open spec fn key(self) -> int {
        if self.sign_negative() {
            -self.magnitude()
        } else {
            self.magnitude()
        }
    }

    /// IEEE `<`: false whenever either side is NaN.
    pub open spec fn less(self, other: Ieee32) -> bool {
        !self.nan() && !other.nan() && self.key() < other.key()
    }

    /// IEEE `==`: false whenever either side is NaN, and `-0.0 == +0.0`.
    pub open spec fn same(self, other: Ieee32) -> bool {
        !self.nan() && !other.nan() && self.key() == other.key()
    }

    pub fn from_bits(bits: u32) -> (r: Ieee32)
        ensures
            r.bits == bits,
    {
        Ieee32 { bits }
    }

    pub fn is_sign_negative(&self) -> (r: bool)
        ensures
            r == self.sign_negative(),
    {
        self.bits >= SIGN_BIT
    }

    pub fn is_sign_positive(&self) -> (r: bool)
        ensures
            r == !self.sign_negative(),
    {
        self.bits < SIGN_BIT
    }

    fn magnitude_bits(&self) -> (r: u32)
        ensures
            r == self.magnitude(),
    {
        if self.bits >= SIGN_BIT {
            self.bits - SIGN_BIT
        } else {
            self.bits
        }
    }

    pub fn is_nan(&self) -> (r: bool)
        ensures
            r == self.nan(),
    {
        self.magnitude_bits() > INFINITY_BITS
    }

    /// IEEE `self < other`.
    pub fn lt(&self, other: &Ieee32) -> (r: bool)
        ensures
            r == self.less(*other),
    {
        if self.is_nan() || other.is_nan() {
            return false;
        }
        let a = self.magnitude_bits();
        let b = other.magnitude_bits();
        match (self.is_sign_negative(), other.is_sign_negative()) {
            (false, false) => a < b,
            (true, true) => b < a,
            (true, false) => a != 0 || b != 0,
            (false, true) => false,
        }
    }

    /// IEEE `self == other`.
    pub fn num_eq(&self, other: &Ieee32) -> (r: bool)
        ensures
            r == self.same(*other),
    {
        if self.is_nan() || other.is_nan() {
            return false;
        }
        let a = self.magnitude_bits();
        let b = other.magnitude_bits();
        if self.is_sign_negative() == other.is_sign_negative() {
            a == b
        } else {
            a == 0 && b == 0
        }
    }
}

} // verus!

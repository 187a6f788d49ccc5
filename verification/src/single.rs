//! IEEE-754 single-precision values, carried by their bit patterns.

use vstd::prelude::*;
use const_soft_float::soft_f32::SoftF32;
use rustc_apfloat::{Float, Round};

verus! {

/// Bit pattern of positive zero.
pub const ZERO_BITS: u32 = 0;

/// Bit pattern of one.
pub const ONE_BITS: u32 = 0x3f80_0000;

/// Bit pattern of two.
pub const TWO_BITS: u32 = 0x4000_0000;

/// Bit pattern of positive infinity; every larger magnitude is a NaN.
pub const INFINITY_BITS: u32 = 0x7f80_0000;

/// Bit pattern of the quiet NaN that operations here produce.
pub const NAN_BITS: u32 = 0x7fc0_0000;

/// Value of the sign bit.
pub const SIGN_BIT: u32 = 0x8000_0000;

/// The bits of the rounded sum of the singles with bits `a` and `b`.
pub uninterp spec fn single_sum(a: u32, b: u32) -> u32;

/// The bits of the rounded difference of the singles with bits `a` and `b`.
pub uninterp spec fn single_difference(a: u32, b: u32) -> u32;

/// The bits of the rounded product of the singles with bits `a` and `b`.
pub uninterp spec fn single_product(a: u32, b: u32) -> u32;

/// The bits of the rounded quotient of the singles with bits `a` and `b`.
pub uninterp spec fn single_quotient(a: u32, b: u32) -> u32;

/// The bits of the rounded square root of the single with bits `a`.
pub uninterp spec fn single_root(a: u32) -> u32;

/// Calls `Float::add_r` of `rustc_apfloat` on the two bit patterns, taken as
/// `ieee::Single`, with rounding to nearest, ties to even.  The contract only
/// names the bits that it returns.
#[verifier::external_body]
fn soft_sum(a: u32, b: u32) -> (r: u32)
    ensures
        r == single_sum(a, b),
{
    let x = rustc_apfloat::ieee::Single::from_bits(a as u128);
    let y = rustc_apfloat::ieee::Single::from_bits(b as u128);
    x.add_r(y, Round::NearestTiesToEven).value.to_bits() as u32
}

/// Calls `Float::sub_r` of `rustc_apfloat` on the two bit patterns, taken as
/// `ieee::Single`, with rounding to nearest, ties to even.  The contract only
/// names the bits that it returns.
#[verifier::external_body]
fn soft_difference(a: u32, b: u32) -> (r: u32)
    ensures
        r == single_difference(a, b),
{
    let x = rustc_apfloat::ieee::Single::from_bits(a as u128);
    let y = rustc_apfloat::ieee::Single::from_bits(b as u128);
    x.sub_r(y, Round::NearestTiesToEven).value.to_bits() as u32
}

/// Calls `Float::mul_r` of `rustc_apfloat` on the two bit patterns, taken as
/// `ieee::Single`, with rounding to nearest, ties to even.  The contract only
/// names the bits that it returns.
#[verifier::external_body]
fn soft_product(a: u32, b: u32) -> (r: u32)
    ensures
        r == single_product(a, b),
{
    let x = rustc_apfloat::ieee::Single::from_bits(a as u128);
    let y = rustc_apfloat::ieee::Single::from_bits(b as u128);
    x.mul_r(y, Round::NearestTiesToEven).value.to_bits() as u32
}

/// Calls `Float::div_r` of `rustc_apfloat` on the two bit patterns, taken as
/// `ieee::Single`, with rounding to nearest, ties to even.  The contract only
/// names the bits that it returns.
#[verifier::external_body]
fn soft_quotient(a: u32, b: u32) -> (r: u32)
    ensures
        r == single_quotient(a, b),
{
    let x = rustc_apfloat::ieee::Single::from_bits(a as u128);
    let y = rustc_apfloat::ieee::Single::from_bits(b as u128);
    x.div_r(y, Round::NearestTiesToEven).value.to_bits() as u32
}

/// Calls `SoftF32::sqrt` of `const_soft_float` on the bit pattern.  The
/// contract only names the bits that it returns.
#[verifier::external_body]
fn soft_root(a: u32) -> (r: u32)
    ensures
        r == single_root(a),
{
    SoftF32::from_bits(a).sqrt().to_bits()
}

/// An IEEE-754 single-precision value, held as its 32 bits.
///
/// Equality of two `Single`s is equality of their bits; the numeric order is
/// given by [`Single::key`].
#[derive(Clone, Copy, Debug, PartialEq, Eq, Structural)]
pub struct Single {
    pub bits: u32,
}

impl Single {
    /// Whether the sign bit is set.
    pub open spec fn negative(self) -> bool {
        self.bits >= SIGN_BIT
    }

    /// The bits without the sign bit.
    pub open spec fn magnitude(self) -> int {
        if self.bits >= SIGN_BIT {
            self.bits - SIGN_BIT
        } else {
            self.bits as int
        }
    }

    /// Whether the value is a NaN: its magnitude lies above infinity's.
    pub open spec fn nan(self) -> bool {
        self.magnitude() > INFINITY_BITS
    }

    /// The place of a value that is no NaN in the numeric order: the signed
    /// magnitude.  Both zeros have key 0, and a value is numerically smaller
    /// than another exactly if its key is.
    pub open spec fn key(self) -> int {
        if self.negative() {
            -self.magnitude()
        } else {
            self.magnitude()
        }
    }

    /// Numeric `==`: false as soon as a NaN is involved.
    pub open spec fn same_value(self, other: Single) -> bool {
        !self.nan() && !other.nan() && self.key() == other.key()
    }

    /// Numeric `<`: false as soon as a NaN is involved.
    pub open spec fn below(self, other: Single) -> bool {
        !self.nan() && !other.nan() && self.key() < other.key()
    }

    /// Numeric `<=`: false as soon as a NaN is involved.
    pub open spec fn at_most(self, other: Single) -> bool {
        !self.nan() && !other.nan() && self.key() <= other.key()
    }

    /// The value with the sign bit flipped.
    pub open spec fn negated(self) -> Single {
        if self.bits >= SIGN_BIT {
            Single { bits: (self.bits - SIGN_BIT) as u32 }
        } else {
            Single { bits: (self.bits + SIGN_BIT) as u32 }
        }
    }

    /// The value with the sign bit cleared.
    pub open spec fn absolute(self) -> Single {
        if self.bits >= SIGN_BIT {
            Single { bits: (self.bits - SIGN_BIT) as u32 }
        } else {
            self
        }
    }

    /// The smaller of two values, where a NaN gives way to the other operand
    /// and `self` is kept when the two are numerically equal.
    pub open spec fn lesser(self, other: Single) -> Single {
        if self.nan() {
            other
        } else if other.nan() {
            self
        } else if other.key() < self.key() {
            other
        } else {
            self
        }
    }

    /// The larger of two values, where a NaN gives way to the other operand
    /// and `self` is kept when the two are numerically equal.
    pub open spec fn greater(self, other: Single) -> Single {
        if self.nan() {
            other
        } else if other.nan() {
            self
        } else if other.key() > self.key() {
            other
        } else {
            self
        }
    }

    /// The rounded sum, as the soft-float arithmetic computes it.
    pub open spec fn sum(self, other: Single) -> Single {
        Single { bits: single_sum(self.bits, other.bits) }
    }

    /// The rounded difference, as the soft-float arithmetic computes it.
    pub open spec fn difference(self, other: Single) -> Single {
        Single { bits: single_difference(self.bits, other.bits) }
    }

    /// The rounded product, as the soft-float arithmetic computes it.
    pub open spec fn product(self, other: Single) -> Single {
        Single { bits: single_product(self.bits, other.bits) }
    }

    /// The rounded quotient, as the soft-float arithmetic computes it.
    pub open spec fn quotient(self, other: Single) -> Single {
        Single { bits: single_quotient(self.bits, other.bits) }
    }

    /// The rounded square root, as the soft-float arithmetic computes it.
    pub open spec fn root(self) -> Single {
        Single { bits: single_root(self.bits) }
    }

    /// The value with the given bits.
    pub fn from_bits(bits: u32) -> (s: Single)
        ensures
            s.bits == bits,
    {
        Single { bits }
    }

    /// The bits of the value.
    pub fn to_bits(self) -> (bits: u32)
        ensures
            bits == self.bits,
    {
        self.bits
    }

    /// Positive zero.
    pub fn zero() -> (s: Single)
        ensures
            s.bits == ZERO_BITS,
            !s.nan(),
            s.key() == 0,
    {
        Single { bits: ZERO_BITS }
    }

    /// One.
    pub fn one() -> (s: Single)
        ensures
            s.bits == ONE_BITS,
            !s.nan(),
    {
        Single { bits: ONE_BITS }
    }

    /// Two.
    pub fn two() -> (s: Single)
        ensures
            s.bits == TWO_BITS,
            !s.nan(),
    {
        Single { bits: TWO_BITS }
    }

    /// The quiet NaN.
    pub fn quiet_nan() -> (s: Single)
        ensures
            s.bits == NAN_BITS,
            s.nan(),
    {
        Single { bits: NAN_BITS }
    }

    /// Whether the value is a NaN.
    pub fn is_nan(self) -> (b: bool)
        ensures
            b == self.nan(),
    {
        if self.bits >= SIGN_BIT {
            self.bits - SIGN_BIT > INFINITY_BITS
        } else {
            self.bits > INFINITY_BITS
        }
    }

    /// The key of a value that is no NaN.
    fn rank(self) -> (k: i64)
        ensures
            k == self.key(),
    {
        if self.bits >= SIGN_BIT {
            let m: u32 = self.bits - SIGN_BIT;
            -(m as i64)
        } else {
            self.bits as i64
        }
    }

    /// Numeric `==`: both zeros are equal, and a NaN equals nothing.
    pub fn eq_value(self, other: Single) -> (b: bool)
        ensures
            b == self.same_value(other),
    {
        !self.is_nan() && !other.is_nan() && self.rank() == other.rank()
    }

    /// Numeric `<`.
    pub fn lt(self, other: Single) -> (b: bool)
        ensures
            b == self.below(other),
    {
        !self.is_nan() && !other.is_nan() && self.rank() < other.rank()
    }

    /// Numeric `<=`.
    pub fn le(self, other: Single) -> (b: bool)
        ensures
            b == self.at_most(other),
    {
        !self.is_nan() && !other.is_nan() && self.rank() <= other.rank()
    }

    /// Numeric `>`.
    pub fn gt(self, other: Single) -> (b: bool)
        ensures
            b == other.below(self),
    {
        other.lt(self)
    }

    /// Numeric `>=`.
    pub fn ge(self, other: Single) -> (b: bool)
        ensures
            b == other.at_most(self),
    {
        other.le(self)
    }

    /// The negation: the sign bit is flipped, so a NaN stays a NaN and the key
    /// of any other value changes sign.
    pub fn neg(self) -> (r: Single)
        ensures
            r == self.negated(),
            r.nan() == self.nan(),
            r.key() == -self.key(),
    {
        if self.bits >= SIGN_BIT {
            Single { bits: self.bits - SIGN_BIT }
        } else {
            Single { bits: self.bits + SIGN_BIT }
        }
    }

    /// The absolute value: the sign bit is cleared.
    pub fn abs(self) -> (r: Single)
        ensures
            r == self.absolute(),
            r.nan() == self.nan(),
            r.key() == (if self.key() < 0 { -self.key() } else { self.key() }),
    {
        if self.bits >= SIGN_BIT {
            Single { bits: self.bits - SIGN_BIT }
        } else {
            self
        }
    }

    /// The smaller of the two values; a NaN gives way to the other operand.
    pub fn min(self, other: Single) -> (r: Single)
        ensures
            r == self.lesser(other),
    {
        if self.is_nan() {
            other
        } else if other.is_nan() {
            self
        } else if other.rank() < self.rank() {
            other
        } else {
            self
        }
    }

    /// The larger of the two values; a NaN gives way to the other operand.
    pub fn max(self, other: Single) -> (r: Single)
        ensures
            r == self.greater(other),
    {
        if self.is_nan() {
            other
        } else if other.is_nan() {
            self
        } else if other.rank() > self.rank() {
            other
        } else {
            self
        }
    }

    /// The rounded sum `self + other`.
    pub fn add(self, other: Single) -> (r: Single)
        ensures
            r == self.sum(other),
    {
        Single { bits: soft_sum(self.bits, other.bits) }
    }

    /// The rounded difference `self - other`.
    pub fn sub(self, other: Single) -> (r: Single)
        ensures
            r == self.difference(other),
    {
        Single { bits: soft_difference(self.bits, other.bits) }
    }

    /// The rounded product `self * other`.
    pub fn mul(self, other: Single) -> (r: Single)
        ensures
            r == self.product(other),
    {
        Single { bits: soft_product(self.bits, other.bits) }
    }

    /// The rounded quotient `self / other`.
    pub fn div(self, other: Single) -> (r: Single)
        ensures
            r == self.quotient(other),
    {
        Single { bits: soft_quotient(self.bits, other.bits) }
    }

    /// The rounded square root.
    pub fn sqrt(self) -> (r: Single)
        ensures
            r == self.root(),
    {
        Single { bits: soft_root(self.bits) }
    }
}

} // verus!

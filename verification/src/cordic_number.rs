//! The fixed-point numeric contract: the capability interface a signed
//! fixed-point representation must satisfy to serve as the scalar type of a
//! CORDIC-style shift-and-add algorithm.
use vstd::prelude::*;

verus! {

use vstd::arithmetic::power2::pow2;
use crate::arith::{fits_signed, floor_bits};
use crate::canonical::{derived_bits, Constant, U0F64};

/// A number that can carry the intermediate values of a CORDIC-based
/// algorithm: a signed fixed-point word of `spec_num_bits()` total bits,
/// of which `spec_num_fract_bits()` lie below the binary point, holding the
/// stored integer `spec_bits()` and denoting the value
/// `spec_bits() * 2^-spec_num_fract_bits()`.
///
/// Every constructor and query requires the validator's acceptance of the
/// configuration (see [`config_accepted`]), so a value of a configuration
/// that the precision validator rejects can never be built:
/// the validator's three bounds are enforced at every instantiation site by
/// the verifier, before any arithmetic exists to go wrong.
pub trait CordicNumber: Sized + Copy + PartialOrd + core::ops::Add<Output = Self> + core::ops::Sub<
    Output = Self,
> + core::ops::Mul<Output = Self> + core::ops::Div<Output = Self> + core::ops::Neg<
    Output = Self,
> + core::ops::Shr<u8, Output = Self> + core::ops::Shl<u8, Output = Self> {
    /// The total number of bits of the representation's word.
    spec fn spec_num_bits() -> nat;

    /// The number of fractional bits below the binary point.
    spec fn spec_num_fract_bits() -> nat;

    /// The stored scaled integer of this value.
    spec fn spec_bits(self) -> int;

    /// Round toward negative infinity to the nearest integer value of the
    /// representation.
    fn floor(self) -> (r: Self)
        requires
            crate::validator::accepts(Self::spec_num_bits() as int, Self::spec_num_fract_bits() as int),
        ensures
            r.spec_bits() == floor_bits(self.spec_bits(), Self::spec_num_fract_bits()),
    ;

    /// The additive identity.
    fn zero() -> (r: Self)
        requires
            crate::validator::accepts(Self::spec_num_bits() as int, Self::spec_num_fract_bits() as int),
        ensures
            r.spec_bits() == 0,
    ;

    /// The multiplicative identity.
    fn one() -> (r: Self)
        requires
            crate::validator::accepts(Self::spec_num_bits() as int, Self::spec_num_fract_bits() as int),
        ensures
            r.spec_bits() == pow2(Self::spec_num_fract_bits()),
    ;

    /// One half, derived as `one` shifted right by one place.
    fn half() -> (r: Self)
        requires
            crate::validator::accepts(Self::spec_num_bits() as int, Self::spec_num_fract_bits() as int),
        ensures
            r.spec_bits() == pow2(Self::spec_num_fract_bits()) as int / 2,
    ;

    /// Pi over two, truncated from the canonical source.
    fn frac_pi_2() -> (r: Self)
        requires
            crate::validator::accepts(Self::spec_num_bits() as int, Self::spec_num_fract_bits() as int),
        ensures
            r.spec_bits() == derived_bits(Constant::FracPi2, Self::spec_num_fract_bits()),
    ;

    /// Pi, truncated from the canonical source.
    fn pi() -> (r: Self)
        requires
            crate::validator::accepts(Self::spec_num_bits() as int, Self::spec_num_fract_bits() as int),
        ensures
            r.spec_bits() == derived_bits(Constant::Pi, Self::spec_num_fract_bits()),
    ;

    /// Euler's number, truncated from the canonical source.
    fn e() -> (r: Self)
        requires
            crate::validator::accepts(Self::spec_num_bits() as int, Self::spec_num_fract_bits() as int),
        ensures
            r.spec_bits() == derived_bits(Constant::E, Self::spec_num_fract_bits()),
    ;

    /// Convert a canonical 64-bit fraction into this representation,
    /// truncating the low-order bits that do not fit (exact whenever they
    /// are zero).
    fn from_u0f64(val: U0F64) -> (r: Self)
        requires
            crate::validator::accepts(Self::spec_num_bits() as int, Self::spec_num_fract_bits() as int),
        ensures
            r.spec_bits() == val.bits as int / pow2((64 - Self::spec_num_fract_bits()) as nat) as int,
    ;

    /// The number of fractional bits, as runtime metadata.
    fn num_fract_bits() -> (r: u8)
        requires
            crate::validator::accepts(Self::spec_num_bits() as int, Self::spec_num_fract_bits() as int),
        ensures
            r as nat == Self::spec_num_fract_bits(),
    ;

    /// The total number of bits, as runtime metadata.
    fn num_bits() -> (r: u8)
        requires
            crate::validator::accepts(Self::spec_num_bits() as int, Self::spec_num_fract_bits() as int),
        ensures
            r as nat == Self::spec_num_bits(),
    ;

    /// In-place addition of another value of the same representation.
    fn add_assign(&mut self, rhs: Self)
        requires
            fits_signed(old(self).spec_bits() + rhs.spec_bits(), Self::spec_num_bits()),
        ensures
            final(self).spec_bits() == old(self).spec_bits() + rhs.spec_bits(),
    ;

    /// In-place subtraction of another value of the same representation.
    fn sub_assign(&mut self, rhs: Self)
        requires
            fits_signed(old(self).spec_bits() - rhs.spec_bits(), Self::spec_num_bits()),
        ensures
            final(self).spec_bits() == old(self).spec_bits() - rhs.spec_bits(),
    ;
}

/// Whether the representation's `(total bits, fractional bits)` configuration
/// passes the precision validator.
pub open spec fn config_accepted<T: CordicNumber>() -> bool {
    crate::validator::accepts(T::spec_num_bits() as int, T::spec_num_fract_bits() as int)
}

} // verus!

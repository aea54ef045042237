//! The 64-bit reference representation of the fixed-point contract.
use vstd::prelude::*;

verus! {

use core::cmp::Ordering;
use vstd::arithmetic::power2::{
    pow2,
    lemma_pow2_pos,
    lemma_pow2_strictly_increases,
    lemma2_to64,
    lemma2_to64_rest,
};
use vstd::arithmetic::mul::lemma_mul_is_commutative;
use crate::arith::{
    div_bits,
    floor_div_i128,
    lemma_floor_bits_in_range,
    lemma_floor_div_bounds,
    mul_bits,
    pow2_u64,
    shl_bits,
    shr_bits,
};
use crate::canonical::{convert_frac_bits, Constant, U0F64};
use crate::cordic_number::CordicNumber;
use crate::validator;

/// A signed fixed-point word of 64 total bits with `F` fractional bits: the
/// stored integer `bits` denotes the value `bits * 2^-F`.
#[derive(Clone, Copy, Debug, PartialEq, Eq)]
pub struct FixedI64<const F: u64> {
    pub bits: i64,
}

impl<const F: u64> FixedI64<F> {
    /// Build a value directly from its stored scaled integer.
    pub fn from_bits(bits: i64) -> (r: Self)
        requires
            validator::accepts(64, F as int),
        ensures
            r.spec_bits() == bits,
    {
        FixedI64 { bits }
    }
}

impl<const F: u64> CordicNumber for FixedI64<F> {
    open spec fn spec_num_bits() -> nat {
        64
    }

    open spec fn spec_num_fract_bits() -> nat {
        F as nat
    }

    open spec fn spec_bits(self) -> int {
        self.bits as int
    }

    fn floor(self) -> (r: Self) {
        proof {
            lemma2_to64();
            lemma2_to64_rest();
            lemma_pow2_pos(F as nat);
            lemma_floor_bits_in_range(self.bits as int, F as nat, 64);
        }
        let p: i128 = pow2_u64(F) as i128;
        let q: i128 = floor_div_i128(self.bits as i128, p);
        proof {
            lemma_mul_is_commutative(q as int, p as int);
        }
        let fb: i128 = q * p;
        FixedI64 { bits: fb as i64 }
    }

    fn zero() -> (r: Self) {
        FixedI64 { bits: 0 }
    }

    fn one() -> (r: Self) {
        proof {
            lemma2_to64();
            lemma2_to64_rest();
            if (F as nat) < 63 {
                lemma_pow2_strictly_increases(F as nat, 63);
            }
        }
        let p: u64 = pow2_u64(F);
        FixedI64 { bits: p as i64 }
    }

    fn half() -> (r: Self) {
        let r = Self::one() >> 1u8;
        proof {
            lemma2_to64();
            lemma2_to64_rest();
        }
        r
    }

    fn frac_pi_2() -> (r: Self) {
        let b: i64 = crate::canonical::derive(Constant::FracPi2, 64, F as u8);
        proof {
            lemma2_to64();
            lemma2_to64_rest();
        }
        FixedI64 { bits: b as i64 }
    }

    fn pi() -> (r: Self) {
        let b: i64 = crate::canonical::derive(Constant::Pi, 64, F as u8);
        proof {
            lemma2_to64();
            lemma2_to64_rest();
        }
        FixedI64 { bits: b as i64 }
    }

    fn e() -> (r: Self) {
        let b: i64 = crate::canonical::derive(Constant::E, 64, F as u8);
        proof {
            lemma2_to64();
            lemma2_to64_rest();
        }
        FixedI64 { bits: b as i64 }
    }

    fn from_u0f64(val: U0F64) -> (r: Self) {
        let t: u64 = convert_frac_bits(val.bits, F as u8);
        proof {
            lemma2_to64();
            lemma2_to64_rest();
            if (F as nat) < 63 {
                lemma_pow2_strictly_increases(F as nat, 63);
            }
        }
        FixedI64 { bits: t as i64 }
    }

    fn num_fract_bits() -> (r: u8) {
        F as u8
    }

    fn num_bits() -> (r: u8) {
        64
    }

    fn add_assign(&mut self, rhs: Self) {
        proof {
            lemma2_to64();
            lemma2_to64_rest();
        }
        self.bits = self.bits + rhs.bits;
    }

    fn sub_assign(&mut self, rhs: Self) {
        proof {
            lemma2_to64();
            lemma2_to64_rest();
        }
        self.bits = self.bits - rhs.bits;
    }
}

impl<const F: u64> core::ops::Add for FixedI64<F> {
    type Output = FixedI64<F>;

    /// Addition of the stored integers; the caller shows the sum in range.
    fn add(self, rhs: FixedI64<F>) -> (r: FixedI64<F>)
        ensures
            r.spec_bits() == self.spec_bits() + rhs.spec_bits(),
    {
        FixedI64 { bits: self.bits + rhs.bits }
    }
}

impl<const F: u64> vstd::std_specs::ops::AddSpecImpl for FixedI64<F> {
    open spec fn obeys_add_spec() -> bool {
        true
    }

    open spec fn add_req(self, rhs: FixedI64<F>) -> bool {
        i64::MIN <= self.spec_bits() + rhs.spec_bits() <= i64::MAX
    }

    open spec fn add_spec(self, rhs: FixedI64<F>) -> FixedI64<F> {
        FixedI64 { bits: (self.spec_bits() + rhs.spec_bits()) as i64 }
    }
}

impl<const F: u64> core::ops::Sub for FixedI64<F> {
    type Output = FixedI64<F>;

    /// Subtraction of the stored integers; the caller shows the difference
    /// in range.
    fn sub(self, rhs: FixedI64<F>) -> (r: FixedI64<F>)
        ensures
            r.spec_bits() == self.spec_bits() - rhs.spec_bits(),
    {
        FixedI64 { bits: self.bits - rhs.bits }
    }
}

impl<const F: u64> vstd::std_specs::ops::SubSpecImpl for FixedI64<F> {
    open spec fn obeys_sub_spec() -> bool {
        true
    }

    open spec fn sub_req(self, rhs: FixedI64<F>) -> bool {
        i64::MIN <= self.spec_bits() - rhs.spec_bits() <= i64::MAX
    }

    open spec fn sub_spec(self, rhs: FixedI64<F>) -> FixedI64<F> {
        FixedI64 { bits: (self.spec_bits() - rhs.spec_bits()) as i64 }
    }
}

impl<const F: u64> core::ops::Neg for FixedI64<F> {
    type Output = FixedI64<F>;

    /// Negation of the stored integer; the most negative word has no
    /// negation and is excluded.
    fn neg(self) -> (r: FixedI64<F>)
        ensures
            r.spec_bits() == -self.spec_bits(),
    {
        FixedI64 { bits: -self.bits }
    }
}

impl<const F: u64> vstd::std_specs::ops::NegSpecImpl for FixedI64<F> {
    open spec fn obeys_neg_spec() -> bool {
        true
    }

    open spec fn neg_req(self) -> bool {
        i64::MIN < self.spec_bits()
    }

    open spec fn neg_spec(self) -> FixedI64<F> {
        FixedI64 { bits: (-self.spec_bits()) as i64 }
    }
}

impl<const F: u64> core::ops::Mul for FixedI64<F> {
    type Output = FixedI64<F>;

    /// Fixed-point multiplication: the product of the stored integers with
    /// the doubled scale divided back out, truncating toward negative
    /// infinity; the caller shows the result in range.
    fn mul(self, rhs: FixedI64<F>) -> (r: FixedI64<F>)
        ensures
            r.spec_bits() == mul_bits(self.spec_bits(), rhs.spec_bits(), F as nat),
    {
        proof {
            lemma_pow2_pos(F as nat);
            assert(i128::MIN < (self.bits as int) * (rhs.bits as int)
                < i128::MAX) by (nonlinear_arith)
                requires
                    i64::MIN <= self.bits <= i64::MAX,
                    i64::MIN <= rhs.bits <= i64::MAX,
            ;
        }
        let p: i128 = pow2_u64(F) as i128;
        let prod: i128 = (self.bits as i128) * (rhs.bits as i128);
        let q: i128 = floor_div_i128(prod, p);
        FixedI64 { bits: q as i64 }
    }
}

impl<const F: u64> vstd::std_specs::ops::MulSpecImpl for FixedI64<F> {
    open spec fn obeys_mul_spec() -> bool {
        true
    }

    open spec fn mul_req(self, rhs: FixedI64<F>) -> bool {
        &&& validator::accepts(64, F as int)
        &&& i64::MIN <= mul_bits(self.spec_bits(), rhs.spec_bits(), F as nat) <= i64::MAX
    }

    open spec fn mul_spec(self, rhs: FixedI64<F>) -> FixedI64<F> {
        FixedI64 { bits: mul_bits(self.spec_bits(), rhs.spec_bits(), F as nat) as i64 }
    }
}

impl<const F: u64> core::ops::Div for FixedI64<F> {
    type Output = FixedI64<F>;

    /// Fixed-point division: the dividend rescaled up by `2^F`, then divided
    /// by the divisor's stored integer, truncating toward zero; the caller
    /// shows the divisor nonzero and the result in range.
    fn div(self, rhs: FixedI64<F>) -> (r: FixedI64<F>)
        ensures
            r.spec_bits() == div_bits(self.spec_bits(), rhs.spec_bits(), F as nat),
    {
        proof {
            lemma_pow2_pos(F as nat);
            if (F as nat) < 61 {
                lemma_pow2_strictly_increases(F as nat, 61);
            }
            lemma2_to64();
            lemma2_to64_rest();
            assert(i128::MIN < (self.bits as int) * pow2(F as nat)
                < i128::MAX) by (nonlinear_arith)
                requires
                    i64::MIN <= self.bits <= i64::MAX,
                    0 < pow2(F as nat) <= 0x2000_0000_0000_0000,
            ;
        }
        let p: i128 = pow2_u64(F) as i128;
        let num: i128 = (self.bits as i128) * p;
        let den: i128 = rhs.bits as i128;
        let nn: i128 = if num < 0 {
            -num
        } else {
            num
        };
        let dd: i128 = if den < 0 {
            -den
        } else {
            den
        };
        proof {
            lemma_floor_div_bounds(nn as int, dd as int);
        }
        let q0: i128 = nn / dd;
        let q: i128 = if (num < 0) != (den < 0) {
            -q0
        } else {
            q0
        };
        FixedI64 { bits: q as i64 }
    }
}

impl<const F: u64> vstd::std_specs::ops::DivSpecImpl for FixedI64<F> {
    open spec fn obeys_div_spec() -> bool {
        true
    }

    open spec fn div_req(self, rhs: FixedI64<F>) -> bool {
        &&& rhs.spec_bits() != 0
        &&& validator::accepts(64, F as int)
        &&& i64::MIN <= div_bits(self.spec_bits(), rhs.spec_bits(), F as nat) <= i64::MAX
    }

    open spec fn div_spec(self, rhs: FixedI64<F>) -> FixedI64<F> {
        FixedI64 { bits: div_bits(self.spec_bits(), rhs.spec_bits(), F as nat) as i64 }
    }
}

impl<const F: u64> core::ops::Shr<u8> for FixedI64<F> {
    type Output = FixedI64<F>;

    /// Arithmetic right shift: floor division of the stored integer by
    /// `2^n`, rounding toward negative infinity.
    fn shr(self, n: u8) -> (r: FixedI64<F>)
        ensures
            r.spec_bits() == shr_bits(self.spec_bits(), n as nat),
    {
        proof {
            lemma_pow2_pos(n as nat);
        }
        let p: i128 = pow2_u64(n as u64) as i128;
        let q: i128 = floor_div_i128(self.bits as i128, p);
        proof {
            lemma_floor_div_bounds(self.bits as int, p as int);
        }
        FixedI64 { bits: q as i64 }
    }
}

impl<const F: u64> vstd::std_specs::ops::ShrSpecImpl<u8> for FixedI64<F> {
    open spec fn obeys_shr_spec() -> bool {
        true
    }

    open spec fn shr_req(self, n: u8) -> bool {
        n < 64
    }

    open spec fn shr_spec(self, n: u8) -> FixedI64<F> {
        FixedI64 { bits: shr_bits(self.spec_bits(), n as nat) as i64 }
    }
}

impl<const F: u64> core::ops::Shl<u8> for FixedI64<F> {
    type Output = FixedI64<F>;

    /// Left shift: multiplication of the stored integer by `2^n`; the caller
    /// shows the result in range.
    fn shl(self, n: u8) -> (r: FixedI64<F>)
        ensures
            r.spec_bits() == shl_bits(self.spec_bits(), n as nat),
    {
        let p: i128 = pow2_u64(n as u64) as i128;
        let wide: i128 = (self.bits as i128) * p;
        FixedI64 { bits: wide as i64 }
    }
}

impl<const F: u64> vstd::std_specs::ops::ShlSpecImpl<u8> for FixedI64<F> {
    open spec fn obeys_shl_spec() -> bool {
        true
    }

    open spec fn shl_req(self, n: u8) -> bool {
        &&& n < 64
        &&& i64::MIN <= shl_bits(self.spec_bits(), n as nat) <= i64::MAX
    }

    open spec fn shl_spec(self, n: u8) -> FixedI64<F> {
        FixedI64 { bits: shl_bits(self.spec_bits(), n as nat) as i64 }
    }
}

impl<const F: u64> PartialOrd for FixedI64<F> {
    /// Values compare as their stored integers: the scale `2^-F` is shared
    /// and positive, so the order of the words is the order of the values.
    fn partial_cmp(&self, other: &Self) -> (r: Option<Ordering>) {
        if self.bits < other.bits {
            Some(Ordering::Less)
        } else if self.bits == other.bits {
            Some(Ordering::Equal)
        } else {
            Some(Ordering::Greater)
        }
    }
}

impl<const F: u64> vstd::std_specs::cmp::PartialOrdSpecImpl for FixedI64<F> {
    open spec fn obeys_partial_cmp_spec() -> bool {
        true
    }

    open spec fn partial_cmp_spec(&self, other: &Self) -> Option<Ordering> {
        if self.spec_bits() < other.spec_bits() {
            Some(Ordering::Less)
        } else if self.spec_bits() == other.spec_bits() {
            Some(Ordering::Equal)
        } else {
            Some(Ordering::Greater)
        }
    }
}

} // verus!

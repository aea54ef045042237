//! The canonical constant source: one maximum-precision encoding of each
//! transcendental constant, and the truncating conversion that derives the
//! per-width constants from it, so that every representation agrees
//! bit-for-bit on the same underlying value.
use vstd::prelude::*;

verus! {

use vstd::arithmetic::div_mod::{
    lemma_fundamental_div_mod,
    lemma_basic_div,
    lemma_breakdown,
    lemma_div_pos_is_pos,
    lemma_hoist_over_denominator,
    lemma_multiply_divide_lt,
};
use vstd::arithmetic::mul::lemma_mul_nonnegative;
use vstd::arithmetic::power2::{
    pow2,
    lemma_pow2_adds,
    lemma_pow2_pos,
    lemma_pow2_strictly_increases,
    lemma2_to64,
    lemma2_to64_rest,
};

/// An unsigned fractional value with 64 significant bits: the stored word
/// `bits` denotes `bits / 2^64`, a value in `[0, 1)`.  This is the single
/// ground-truth encoding from which every per-width constant is derived.
#[derive(Clone, Copy, Debug, PartialEq, Eq, Structural)]
pub struct U0F64 {
    pub bits: u64,
}

impl U0F64 {
    pub fn from_bits(bits: u64) -> (r: U0F64)
        ensures
            r.bits == bits,
    {
        U0F64 { bits }
    }
}

/// Identifies one of the transcendental constants the algorithms need.
#[derive(Clone, Copy, Debug, PartialEq, Eq, Structural)]
pub enum Constant {
    FracPi2,
    Pi,
    E,
}

/// The 64 fractional bits of `pi/2 - 1`, truncated toward negative infinity.
pub const FRAC_PI_2_FRAC_BITS: u64 = 0x921F_B544_42D1_8469;

/// The 64 fractional bits of `pi - 3`, truncated toward negative infinity.
pub const PI_FRAC_BITS: u64 = 0x243F_6A88_85A3_08D3;

/// The 64 fractional bits of `e - 2`, truncated toward negative infinity.
pub const E_FRAC_BITS: u64 = 0xB7E1_5162_8AED_2A6A;

/// The integer part of each constant: `pi/2` is 1.57..., `pi` is 3.14...,
/// `e` is 2.71....
pub open spec fn const_int_part(c: Constant) -> int {
    match c {
        Constant::FracPi2 => 1,
        Constant::Pi => 3,
        Constant::E => 2,
    }
}

/// The canonical fractional bits of each constant.
pub open spec fn const_frac_bits(c: Constant) -> u64 {
    match c {
        Constant::FracPi2 => FRAC_PI_2_FRAC_BITS,
        Constant::Pi => PI_FRAC_BITS,
        Constant::E => E_FRAC_BITS,
    }
}

/// The canonical fractional part of a constant, as a `U0F64` value that
/// `from_u0f64` can consume.
pub fn canonical_frac(c: Constant) -> (r: U0F64)
    ensures
        r.bits == const_frac_bits(c),
{
    match c {
        Constant::FracPi2 => U0F64 { bits: FRAC_PI_2_FRAC_BITS },
        Constant::Pi => U0F64 { bits: PI_FRAC_BITS },
        Constant::E => U0F64 { bits: E_FRAC_BITS },
    }
}

/// The stored integer of a constant derived at `f` fractional bits: the
/// integer part shifted into place, plus the canonical fractional bits with
/// the excess low-order bits truncated away (rounding toward negative
/// infinity, consistent with `floor`).
pub open spec fn derived_bits(c: Constant, f: nat) -> int {
    const_int_part(c) * pow2(f) + const_frac_bits(c) as int / pow2((64 - f) as nat) as int
}

/// The distance, in units of `2^-64`, between the canonical value and its
/// truncation to `f` fractional bits.
pub open spec fn truncation_error(v: u64, f: nat) -> int {
    v as int % pow2((64 - f) as nat) as int
}

/// Truncate a 64-bit canonical fraction to its `f` highest bits: the stored
/// fractional field of the derived constant.
pub fn convert_frac_bits(v: u64, f: u8) -> (t: u64)
    requires
        f <= 64,
    ensures
        t == v as int / pow2((64 - f) as nat) as int,
        t < pow2(f as nat),
{
    let t: u64 = if f == 0 {
        proof {
            lemma2_to64_rest();
            lemma_basic_div(v as int, pow2(64) as int);
        }
        0
    } else {
        proof {
            vstd::bits::lemma_u64_shr_is_div(v, (64 - f) as u64);
        }
        v >> ((64 - f) as u64)
    };
    proof {
        lemma_pow2_pos((64 - f) as nat);
        lemma_pow2_adds((64 - f) as nat, f as nat);
        lemma2_to64_rest();
        lemma_multiply_divide_lt(v as int, pow2((64 - f) as nat) as int, pow2(f as nat) as int);
    }
    t
}

/// Derive a constant into the representation with `w` total bits and `f`
/// fractional bits.  Only validated configurations may derive constants; the
/// result is the stored integer, always strictly inside the word's positive
/// range.
pub fn derive(c: Constant, w: u8, f: u8) -> (bits: i64)
    requires
        crate::validator::accepts(w as int, f as int),
        w <= 64,
    ensures
        bits == derived_bits(c, f as nat),
        0 < bits < pow2((w - 1) as nat),
{
    let p: u64 = crate::arith::pow2_u64(f as u64);
    proof {
        lemma2_to64_rest();
        if (f as nat) < 61 {
            lemma_pow2_strictly_increases(f as nat, 61);
        }
    }
    let b: u64 = match c {
        Constant::FracPi2 => {
            let t: u64 = convert_frac_bits(FRAC_PI_2_FRAC_BITS, f);
            p + t
        },
        Constant::Pi => {
            let t: u64 = convert_frac_bits(PI_FRAC_BITS, f);
            3 * p + t
        },
        Constant::E => {
            let t: u64 = convert_frac_bits(E_FRAC_BITS, f);
            2 * p + t
        },
    };
    proof {
        lemma_pow2_adds(f as nat, 2);
        lemma2_to64();
        if (f as nat) + 2 < (w - 1) as nat {
            lemma_pow2_strictly_increases((f as nat) + 2, (w - 1) as nat);
        }
        lemma_pow2_pos(f as nat);
    }
    b as i64
}

/// Deriving pi at `f` fractional bits equals twice the derived `pi/2` up to
/// one unit in the last place (truncating pi can keep the one low bit that
/// truncating `pi/2` must drop), and both values stay strictly below the
/// largest stored integer `2^(w-1) - 1` of every accepted configuration of
/// a hardware width.
pub proof fn lemma_pi_vs_two_frac_pi_2(w: int, f: nat)
    requires
        crate::validator::accepts(w, f as int),
        8 <= w <= 64,
    ensures
        2 * derived_bits(Constant::FracPi2, f) <= derived_bits(Constant::Pi, f),
        derived_bits(Constant::Pi, f) <= 2 * derived_bits(Constant::FracPi2, f) + 1,
        derived_bits(Constant::Pi, f) < pow2((w - 1) as nat) - 1,
        2 * derived_bits(Constant::FracPi2, f) < pow2((w - 1) as nat) - 1,
{
    let s = (64 - f) as nat;
    let big_p = pow2(f) as int;
    let big_s = pow2(s) as int;
    lemma_pow2_pos(f);
    lemma_pow2_pos(s);
    lemma_pow2_adds(f, s);
    lemma2_to64();
    lemma2_to64_rest();
    let q = FRAC_PI_2_FRAC_BITS as int / big_s;
    let r = FRAC_PI_2_FRAC_BITS as int % big_s;
    lemma_fundamental_div_mod(FRAC_PI_2_FRAC_BITS as int, big_s);
    vstd::arithmetic::div_mod::lemma_mod_division_less_than_divisor(
        FRAC_PI_2_FRAC_BITS as int,
        big_s,
    );
    // the canonical encodings are exact halves: pi - 3 == 2 * (pi/2 - 1) + 2^-64
    assert(PI_FRAC_BITS as int == 2 * (FRAC_PI_2_FRAC_BITS as int) - pow2(64) + 1);
    assert(PI_FRAC_BITS as int == (2 * r + 1) + (2 * q - big_p) * big_s) by (nonlinear_arith)
        requires
            FRAC_PI_2_FRAC_BITS as int == big_s * q + r,
            PI_FRAC_BITS as int == 2 * (FRAC_PI_2_FRAC_BITS as int) - big_p * big_s + 1,
    ;
    lemma_hoist_over_denominator(2 * r + 1, 2 * q - big_p, pow2(s));
    let delta = (2 * r + 1) / big_s;
    lemma_div_pos_is_pos(2 * r + 1, big_s);
    lemma_multiply_divide_lt(2 * r + 1, big_s, 2);
    assert(PI_FRAC_BITS as int / big_s == 2 * q - big_p + delta);
    // q < 2^f, so the derived pi/2 is below 2^(f+1)
    lemma_multiply_divide_lt(FRAC_PI_2_FRAC_BITS as int, big_s, big_p);
    lemma_pow2_adds(f, 2);
    if f + 2 < (w - 1) as nat {
        lemma_pow2_strictly_increases(f + 2, (w - 1) as nat);
    }
    if f <= 2 {
        // the truncated fraction vanishes: pi derives to exactly 3 * 2^f
        if 62 < s {
            lemma_pow2_strictly_increases(62, s);
        }
        lemma_basic_div(PI_FRAC_BITS as int, big_s);
        if f < 2 {
            lemma_pow2_strictly_increases(f, 2);
        }
        if 7 < (w - 1) as nat {
            lemma_pow2_strictly_increases(7, (w - 1) as nat);
        }
    } else {
        // the truncated fraction stays below 2^(f-2), well inside the headroom
        lemma_pow2_adds(s, (f - 2) as nat);
        lemma_multiply_divide_lt(PI_FRAC_BITS as int, big_s, pow2((f - 2) as nat) as int);
        lemma_pow2_adds((f - 2) as nat, 2);
        lemma_pow2_pos((f - 2) as nat);
    }
}

/// Widening a truncated canonical fraction from `f` to `f2 >= f` fractional
/// bits rescales the stored bits exactly, so the widened value keeps exactly
/// the distance from the canonical source that the first truncation left,
/// while converting the source directly at the finer precision comes at
/// least as close.
pub proof fn lemma_widening_refines(v: u64, f: nat, f2: nat)
    requires
        f <= f2 <= 64,
    ensures
        0 <= truncation_error(v, f2) <= truncation_error(v, f),
        v as int == (v as int / pow2((64 - f) as nat) as int) * pow2((64 - f) as nat) + truncation_error(
            v,
            f,
        ),
        (v as int / pow2((64 - f) as nat) as int) * pow2((64 - f) as nat) == ((v as int / pow2(
            (64 - f) as nat,
        ) as int) * pow2((f2 - f) as nat)) * pow2((64 - f2) as nat),
{
    let s = (64 - f) as nat;
    let s2 = (64 - f2) as nat;
    let d = (f2 - f) as nat;
    lemma_pow2_pos(s);
    lemma_pow2_pos(s2);
    lemma_pow2_pos(d);
    lemma_pow2_adds(s2, d);
    lemma_fundamental_div_mod(v as int, pow2(s) as int);
    vstd::arithmetic::div_mod::lemma_mod_division_less_than_divisor(v as int, pow2(s) as int);
    vstd::arithmetic::div_mod::lemma_mod_division_less_than_divisor(v as int, pow2(s2) as int);
    assert(pow2(s2) as int * pow2(d) as int == pow2(s) as int);
    lemma_breakdown(v as int, pow2(s2) as int, pow2(d) as int);
    vstd::arithmetic::div_mod::lemma_mod_division_less_than_divisor(
        v as int / pow2(s2) as int,
        pow2(d) as int,
    );
    lemma_mul_nonnegative(
        pow2(s2) as int,
        (v as int / pow2(s2) as int) % pow2(d) as int,
    );
    let q = v as int / pow2(s) as int;
    vstd::arithmetic::mul::lemma_mul_is_commutative(q, pow2(s) as int);
    assert(q * pow2(s) as int == (q * pow2(d) as int) * pow2(s2) as int) by (nonlinear_arith)
        requires
            pow2(s) == pow2(d) * pow2(s2),
    ;
}

} // verus!

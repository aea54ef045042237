//! Scaled-integer arithmetic: the mathematical meaning of the shift, floor
//! and division operations that every fixed-point representation wires to,
//! together with the executable helpers the four widths share.
use vstd::prelude::*;

verus! {

use vstd::arithmetic::div_mod::{
    lemma_fundamental_div_mod,
    lemma_fundamental_div_mod_converse,
    lemma_mod_division_less_than_divisor,
    lemma_mod_multiples_basic,
    lemma_div_pos_is_pos,
    lemma_div_nonincreasing,
    lemma_div_is_ordered,
    lemma_multiply_divide_lt,
};
use vstd::arithmetic::mul::{lemma_mul_inequality, lemma_mul_unary_negation};
use vstd::arithmetic::power2::{
    pow2,
    lemma_pow2_adds,
    lemma_pow2_pos,
    lemma_pow2_strictly_increases,
    lemma2_to64,
    lemma2_to64_rest,
};
use vstd::math::abs;

/// The stored integer of a value rounded toward negative infinity to the
/// nearest multiple of `2^f`: the meaning of `floor` on a word with `f`
/// fractional bits.
pub open spec fn floor_bits(b: int, f: nat) -> int {
    b - b % (pow2(f) as int)
}

/// The stored integer after an arithmetic right shift by `n`: division by
/// `2^n` rounded toward negative infinity.
pub open spec fn shr_bits(b: int, n: nat) -> int {
    b / (pow2(n) as int)
}

/// The stored integer after a left shift by `n`.
pub open spec fn shl_bits(b: int, n: nat) -> int {
    b * (pow2(n) as int)
}

/// Truncating (round toward zero) integer division, by signs and magnitudes.
pub open spec fn trunc_div(n: int, d: int) -> int {
    if (n < 0) != (d < 0) {
        -(abs(n) as int / abs(d) as int)
    } else {
        abs(n) as int / abs(d) as int
    }
}

/// The stored integer of a fixed-point product at `f` fractional bits: the
/// product of the stored integers with the doubled scale divided back out,
/// excess low-order bits truncated toward negative infinity.
pub open spec fn mul_bits(a: int, b: int, f: nat) -> int {
    (a * b) / pow2(f) as int
}

/// The stored integer of a fixed-point quotient at `f` fractional bits: the
/// dividend rescaled up, then divided truncating toward zero.
pub open spec fn div_bits(a: int, b: int, f: nat) -> int {
    trunc_div(a * pow2(f) as int, b)
}

/// Whether a stored integer fits a signed two's-complement word of `w` bits.
pub open spec fn fits_signed(b: int, w: nat) -> bool {
    -(pow2((w - 1) as nat) as int) <= b < pow2((w - 1) as nat) as int
}

/// `2^k` as a machine word.
pub fn pow2_u64(k: u64) -> (r: u64)
    requires
        k <= 63,
    ensures
        r == pow2(k as nat),
{
    proof {
        lemma2_to64();
        lemma2_to64_rest();
        if k < 63 {
            lemma_pow2_strictly_increases(k as nat, 63);
        }
        vstd::bits::lemma_u64_shl_is_mul(1u64, k);
    }
    1u64 << k
}

/// Division by a positive divisor, rounded toward negative infinity
/// (the Euclidean quotient).
pub fn floor_div_i128(a: i128, p: i128) -> (r: i128)
    requires
        i128::MIN < a,
        1 <= p,
    ensures
        r == a as int / p as int,
{
    let q: i128 = a / p;
    let m: i128 = a % p;
    proof {
        if a >= 0 {
            lemma_mod_division_less_than_divisor(a as int, p as int);
            lemma_div_pos_is_pos(a as int, p as int);
            lemma_div_nonincreasing(a as int, p as int);
            assert(q == a as int / p as int);
            assert(m >= 0);
        } else {
            let n = -(a as int);
            let k = n / (p as int);
            let s = n % (p as int);
            lemma_fundamental_div_mod(n, p as int);
            lemma_mod_division_less_than_divisor(n, p as int);
            lemma_div_pos_is_pos(n, p as int);
            lemma_div_nonincreasing(n, p as int);
            assert(q as int == -k);
            assert(m as int == -s);
            if s == 0 {
                assert(a as int == (p as int) * (-k) + 0) by (nonlinear_arith)
                    requires
                        n == (p as int) * k + s,
                        n == -(a as int),
                        s == 0,
                ;
                lemma_fundamental_div_mod_converse(a as int, p as int, -k, 0);
                assert(m == 0);
            } else {
                assert(a as int == (p as int) * (-k - 1) + (p - s)) by (nonlinear_arith)
                    requires
                        n == (p as int) * k + s,
                        n == -(a as int),
                ;
                lemma_fundamental_div_mod_converse(a as int, p as int, -k - 1, p - s);
                assert(m < 0);
                assert(q - 1 == a as int / p as int);
            }
        }
    }
    if m < 0 {
        q - 1
    } else {
        q
    }
}

/// Floor division by a positive divisor never enlarges the magnitude:
/// a nonnegative dividend stays between zero and itself, a negative one
/// between itself and minus one.
pub proof fn lemma_floor_div_bounds(a: int, p: int)
    requires
        1 <= p,
    ensures
        0 <= a ==> 0 <= a / p <= a,
        a < 0 ==> a <= a / p <= -1,
{
    lemma_fundamental_div_mod(a, p);
    lemma_mod_division_less_than_divisor(a, p);
    let q = a / p;
    let r = a % p;
    if a >= 0 {
        lemma_div_pos_is_pos(a, p);
        lemma_div_nonincreasing(a, p);
    } else {
        assert(q <= -1) by (nonlinear_arith)
            requires
                a < 0,
                1 <= p,
                a == p * q + r,
                0 <= r < p,
        ;
        assert(a <= q) by (nonlinear_arith)
            requires
                1 <= p,
                a == p * q + r,
                0 <= r < p,
                q <= -1,
        ;
    }
}

/// Rounding toward negative infinity at `f` fractional bits keeps a word
/// of `w > f` bits in range, and never moves a value upward.
pub proof fn lemma_floor_bits_in_range(b: int, f: nat, w: nat)
    requires
        f < w,
        fits_signed(b, w),
    ensures
        fits_signed(floor_bits(b, f), w),
        floor_bits(b, f) <= b,
        floor_bits(b, f) == pow2(f) * (b / pow2(f) as int),
{
    let p = pow2(f) as int;
    lemma_pow2_pos(f);
    lemma_fundamental_div_mod(b, p);
    lemma_mod_division_less_than_divisor(b, p);
    let lo = -(pow2((w - 1) as nat) as int);
    lemma_pow2_adds(f, (w - 1 - f) as nat);
    lemma_pow2_pos((w - 1 - f) as nat);
    // lo is the multiple p * (lo / p), so ordering of quotients scales back up
    assert(lo == p * (-(pow2((w - 1 - f) as nat) as int))) by (nonlinear_arith)
        requires
            pow2((w - 1) as nat) == pow2(f) * pow2((w - 1 - f) as nat),
            lo == -(pow2((w - 1) as nat) as int),
            p == pow2(f),
    ;
    lemma_mul_unary_negation(p, pow2((w - 1 - f) as nat) as int);
    lemma_fundamental_div_mod_converse(lo, p, -(pow2((w - 1 - f) as nat) as int), 0);
    lemma_div_is_ordered(lo, b, p);
    lemma_mul_inequality(lo / p, b / p, p);
    assert((lo / p) * p == p * (lo / p)) by (nonlinear_arith);
    assert((b / p) * p == p * (b / p)) by (nonlinear_arith);
}

/// Rounding toward negative infinity is idempotent: a value already on a
/// multiple of `2^f` is left exactly where it is.
pub proof fn lemma_floor_idempotent(b: int, f: nat)
    ensures
        floor_bits(floor_bits(b, f), f) == floor_bits(b, f),
{
    let p = pow2(f) as int;
    lemma_pow2_pos(f);
    lemma_fundamental_div_mod(b, p);
    lemma_mod_multiples_basic(b / p, p);
}

/// `half` is exactly `one` shifted right by one place: halving the stored
/// integer of `one` is the same floor division by `2^1` that the shift does.
pub proof fn lemma_half_is_one_shifted(f: nat)
    ensures
        pow2(f) as int / 2 == shr_bits(pow2(f) as int, 1),
{
    lemma2_to64();
}

} // verus!

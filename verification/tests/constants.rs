use cordic::canonical::{E_FRAC_BITS, FRAC_PI_2_FRAC_BITS, PI_FRAC_BITS};
use cordic::{canonical, Constant, CordicNumber, FixedI16, FixedI32, FixedI64, FixedI8};

#[test]
fn canonical_fraction_words() {
    assert_eq!(canonical::canonical_frac(Constant::Pi).bits, PI_FRAC_BITS);
    assert_eq!(
        canonical::canonical_frac(Constant::FracPi2).bits,
        FRAC_PI_2_FRAC_BITS
    );
    assert_eq!(canonical::canonical_frac(Constant::E).bits, E_FRAC_BITS);
    // pi - 3 is exactly twice (pi/2 - 1) plus the recovered low bit
    assert_eq!(
        PI_FRAC_BITS,
        FRAC_PI_2_FRAC_BITS
            .wrapping_mul(2)
            .wrapping_add(1)
    );
}

#[test]
fn derive_matches_shifted_canonical() {
    for &(w, f) in &[(8u8, 5u8), (16, 13), (32, 29), (64, 61)] {
        let s = 64 - (f as u32);
        let one = 1i64 << f;
        assert_eq!(
            canonical::derive(Constant::Pi, w, f),
            3 * one + (PI_FRAC_BITS >> s) as i64,
            "pi at w={} f={}",
            w,
            f
        );
        assert_eq!(
            canonical::derive(Constant::FracPi2, w, f),
            one + (FRAC_PI_2_FRAC_BITS >> s) as i64
        );
        assert_eq!(
            canonical::derive(Constant::E, w, f),
            2 * one + (E_FRAC_BITS >> s) as i64
        );
    }
}

#[test]
fn constants_8_bit_values() {
    assert_eq!(FixedI8::<5>::one().bits, 32);
    assert_eq!(FixedI8::<5>::half().bits, 16);
    assert_eq!(FixedI8::<5>::zero().bits, 0);
    assert_eq!(FixedI8::<5>::pi().bits, 100);
    assert_eq!(FixedI8::<5>::frac_pi_2().bits, 50);
    assert_eq!(FixedI8::<5>::e().bits, 86);
}

#[test]
fn constants_16_bit_values() {
    assert_eq!(FixedI16::<13>::one().bits, 8192);
    assert_eq!(FixedI16::<13>::half().bits, 4096);
    assert_eq!(FixedI16::<13>::pi().bits, 25735);
    assert_eq!(FixedI16::<13>::frac_pi_2().bits, 12867);
    assert_eq!(FixedI16::<13>::e().bits, 22268);
}

#[test]
fn constants_32_bit_values() {
    assert_eq!(FixedI32::<29>::one().bits, 536870912);
    assert_eq!(FixedI32::<29>::half().bits, 268435456);
    assert_eq!(FixedI32::<29>::pi().bits, 1686629713);
    assert_eq!(FixedI32::<29>::frac_pi_2().bits, 843314856);
    assert_eq!(FixedI32::<29>::e().bits, 1459366444);
}

#[test]
fn constants_64_bit_values() {
    assert_eq!(FixedI64::<61>::one().bits, 2305843009213693952);
    assert_eq!(FixedI64::<61>::half().bits, 1152921504606846976);
    assert_eq!(FixedI64::<61>::pi().bits, 7244019458077122842);
    assert_eq!(FixedI64::<61>::frac_pi_2().bits, 3622009729038561421);
    assert_eq!(FixedI64::<61>::e().bits, 6267931151224907085);
}

#[test]
fn pi_32_bit_is_between_three_and_four() {
    let pi = FixedI32::<29>::pi();
    let three = FixedI32::<29>::from_bits(3 << 29);
    assert!(three < pi);
    // pi < 4: its floor is exactly 3
    assert_eq!(pi.floor().bits, 3 << 29);
}

#[test]
fn pi_is_two_frac_pi_2_within_one_ulp() {
    // truncating pi keeps one low bit that truncating pi/2 must drop, so the
    // derived pi equals the doubled half-pi either exactly or one unit above
    let pi8 = FixedI8::<5>::pi();
    let fp8 = FixedI8::<5>::frac_pi_2();
    assert_eq!(pi8.bits, (fp8 + fp8).bits);
    let pi16 = FixedI16::<13>::pi();
    let fp16 = FixedI16::<13>::frac_pi_2();
    assert_eq!(pi16.bits, (fp16 + fp16).bits + 1);
    let pi32 = FixedI32::<29>::pi();
    let fp32 = FixedI32::<29>::frac_pi_2();
    assert_eq!(pi32.bits, (fp32 + fp32).bits + 1);
    let pi64 = FixedI64::<61>::pi();
    let fp64 = FixedI64::<61>::frac_pi_2();
    assert_eq!(pi64.bits, (fp64 + fp64).bits);
}

#[test]
fn pi_and_doubled_half_pi_stay_below_the_maximum() {
    let max8 = i8::MAX;
    assert!(FixedI8::<5>::pi().bits < max8);
    let fp8 = FixedI8::<5>::frac_pi_2();
    assert!((fp8 + fp8).bits < max8);
    let max64 = i64::MAX;
    assert!(FixedI64::<61>::pi().bits < max64);
    let fp64 = FixedI64::<61>::frac_pi_2();
    assert!((fp64 + fp64).bits < max64);
}

#[test]
fn from_u0f64_truncates_canonical_fraction() {
    let c = canonical::canonical_frac(Constant::Pi);
    assert_eq!(FixedI8::<5>::from_u0f64(c).bits, (PI_FRAC_BITS >> 59) as i8);
    assert_eq!(
        FixedI16::<13>::from_u0f64(c).bits,
        (PI_FRAC_BITS >> 51) as i16
    );
    assert_eq!(
        FixedI32::<29>::from_u0f64(c).bits,
        (PI_FRAC_BITS >> 35) as i32
    );
    assert_eq!(FixedI64::<61>::from_u0f64(c).bits, (PI_FRAC_BITS >> 3) as i64);
    // a fraction expressible in 5 bits converts exactly
    let exact = cordic::U0F64::from_bits(0b10110u64 << 59);
    assert_eq!(FixedI8::<5>::from_u0f64(exact).bits, 0b10110);
}

#[test]
fn widening_never_loses_ground_to_the_canonical_value() {
    // the canonical fraction of pi, truncated at 5 and at 13 fractional bits:
    // the finer representation is at least as close to the source
    let c = canonical::canonical_frac(Constant::Pi);
    let coarse = FixedI8::<5>::from_u0f64(c);
    let fine = FixedI16::<13>::from_u0f64(c);
    let err_coarse = PI_FRAC_BITS - ((coarse.bits as u64) << 59);
    let err_fine = PI_FRAC_BITS - ((fine.bits as u64) << 51);
    assert!(err_fine <= err_coarse);
    // widening the coarse result itself changes nothing: the rescaled bits
    // stand for the same value, at the same distance from the source
    let widened = (coarse.bits as i16) << 8;
    let err_widened = PI_FRAC_BITS - ((widened as u64) << 51);
    assert_eq!(err_widened, err_coarse);
}

#[test]
fn metadata_reports_the_configuration() {
    assert_eq!(FixedI8::<5>::num_bits(), 8);
    assert_eq!(FixedI8::<5>::num_fract_bits(), 5);
    assert_eq!(FixedI16::<13>::num_bits(), 16);
    assert_eq!(FixedI16::<13>::num_fract_bits(), 13);
    assert_eq!(FixedI32::<29>::num_bits(), 32);
    assert_eq!(FixedI32::<0>::num_fract_bits(), 0);
    assert_eq!(FixedI64::<61>::num_bits(), 64);
    assert_eq!(FixedI64::<61>::num_fract_bits(), 61);
}

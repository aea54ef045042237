use cordic::{CordicNumber, FixedI16, FixedI32, FixedI64, FixedI8};

#[test]
fn add_sub_neg_on_stored_integers() {
    let a = FixedI32::<16>::from_bits(98304); // 1.5
    let b = FixedI32::<16>::from_bits(147456); // 2.25
    assert_eq!((a + b).bits, 245760); // 3.75
    assert_eq!((b - a).bits, 49152); // 0.75
    assert_eq!((-a).bits, -98304);
}

#[test]
fn zero_is_the_additive_identity_for_all_widths() {
    let a8 = FixedI8::<5>::from_bits(-77);
    assert_eq!((a8 + FixedI8::<5>::zero()).bits, -77);
    let a16 = FixedI16::<13>::from_bits(12345);
    assert_eq!((a16 + FixedI16::<13>::zero()).bits, 12345);
    let a32 = FixedI32::<29>::from_bits(-987654321);
    assert_eq!((a32 + FixedI32::<29>::zero()).bits, -987654321);
    let a64 = FixedI64::<61>::from_bits(1234567890123456789);
    assert_eq!((a64 + FixedI64::<61>::zero()).bits, 1234567890123456789);
}

#[test]
fn assignment_operations_update_in_place() {
    let mut a = FixedI16::<13>::from_bits(1000);
    a.add_assign(FixedI16::<13>::from_bits(234));
    assert_eq!(a.bits, 1234);
    a.sub_assign(FixedI16::<13>::from_bits(2000));
    assert_eq!(a.bits, -766);
}

#[test]
fn multiplication_truncates_toward_negative_infinity() {
    let a = FixedI32::<16>::from_bits(98304); // 1.5
    let b = FixedI32::<16>::from_bits(147456); // 2.25
    assert_eq!((a * b).bits, 221184); // 3.375 exactly
    // -0.75 * 0.5 = -0.375: the scaled product -6 / 4 floors to -2
    let c = FixedI8::<2>::from_bits(-3);
    let d = FixedI8::<2>::from_bits(2);
    assert_eq!((c * d).bits, -2);
}

#[test]
fn division_truncates_toward_zero() {
    let a = FixedI32::<16>::from_bits(98304); // 1.5
    let b = FixedI32::<16>::from_bits(147456); // 2.25
    assert_eq!((a / b).bits, 43690); // 1.5/2.25 = 0.6666.., truncated
    let na = FixedI32::<16>::from_bits(-98304);
    assert_eq!((na / b).bits, -43690); // toward zero, not -43691
    // -0.75 / 1.25 = -0.6: the scaled quotient -12/5 truncates to -2
    let c = FixedI8::<2>::from_bits(-3);
    let d = FixedI8::<2>::from_bits(5);
    assert_eq!((c / d).bits, -2);
}

#[test]
fn shifts_scale_the_stored_integer() {
    let a = FixedI16::<13>::from_bits(3);
    assert_eq!((a << 2u8).bits, 12);
    let b = FixedI16::<13>::from_bits(-7);
    // arithmetic right shift rounds toward negative infinity
    assert_eq!((b >> 1u8).bits, -4);
    let c = FixedI16::<13>::from_bits(7);
    assert_eq!((c >> 1u8).bits, 3);
}

#[test]
fn half_equals_one_shifted_right_once() {
    assert_eq!(FixedI8::<5>::half().bits, (FixedI8::<5>::one() >> 1u8).bits);
    assert_eq!(
        FixedI16::<13>::half().bits,
        (FixedI16::<13>::one() >> 1u8).bits
    );
    assert_eq!(
        FixedI32::<29>::half().bits,
        (FixedI32::<29>::one() >> 1u8).bits
    );
    assert_eq!(
        FixedI64::<61>::half().bits,
        (FixedI64::<61>::one() >> 1u8).bits
    );
    // with no fractional bits, one >> 1 truncates to zero and so does half
    assert_eq!(FixedI32::<0>::half().bits, 0);
    assert_eq!((FixedI32::<0>::one() >> 1u8).bits, 0);
}

#[test]
fn floor_rounds_toward_negative_infinity() {
    // -2^-29 floors to -1.0
    let tiny_neg = FixedI32::<29>::from_bits(-1);
    assert_eq!(tiny_neg.floor().bits, -(1 << 29));
    // 1.0 + 2^-29 floors to 1.0
    let just_over_one = FixedI32::<29>::from_bits((1 << 29) + 1);
    assert_eq!(just_over_one.floor().bits, 1 << 29);
    // exact integers are fixed points of floor
    let exact = FixedI32::<29>::from_bits(-3 << 29);
    assert_eq!(exact.floor().bits, -3 << 29);
    // the most negative word is a multiple of the scale and stays put
    let min8 = FixedI8::<5>::from_bits(i8::MIN);
    assert_eq!(min8.floor().bits, i8::MIN);
}

#[test]
fn floor_is_idempotent_on_sampled_values() {
    for &bits in &[-128i8, -100, -33, -1, 0, 1, 31, 32, 99, 127] {
        let x = FixedI8::<5>::from_bits(bits);
        let once = x.floor();
        assert_eq!(once.floor().bits, once.bits, "bits={}", bits);
    }
    for &bits in &[i64::MIN, -1, 0, 1, (1 << 61) - 1, i64::MAX] {
        let x = FixedI64::<61>::from_bits(bits);
        let once = x.floor();
        assert_eq!(once.floor().bits, once.bits, "bits={}", bits);
    }
}

#[test]
fn ordering_follows_the_stored_integers() {
    let a = FixedI16::<13>::from_bits(-5);
    let b = FixedI16::<13>::from_bits(7);
    assert!(a < b);
    assert!(b > a);
    assert!(a <= a);
    assert!(a >= a);
    assert!(a == FixedI16::<13>::from_bits(-5));
    assert!(a != b);
}

#[test]
fn operations_work_across_all_widths() {
    let a = FixedI8::<5>::from_bits(40);
    assert_eq!((a >> 2u8).bits, 10);
    let b = FixedI16::<13>::from_bits(-8192);
    assert_eq!((b + b).bits, -16384);
    let c = FixedI32::<29>::from_bits(536870912);
    assert_eq!((c - c).bits, 0);
    let d = FixedI64::<61>::from_bits(-3);
    assert_eq!((d << 3u8).bits, -24);
}

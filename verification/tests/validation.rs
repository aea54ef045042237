use cordic::{validator, BoundViolation, Validation};

fn expected(w: u16, f: u16) -> Validation {
    if f > w {
        Validation::Rejected(BoundViolation::GeneralCoherence)
    } else if f + 2 > w {
        Validation::Rejected(BoundViolation::PiRange)
    } else if f + 3 > w {
        Validation::Rejected(BoundViolation::CombinedConstantRange)
    } else {
        Validation::Accepted
    }
}

#[test]
fn validate_all_hardware_widths_exhaustively() {
    for &w in &[8u16, 16, 32, 64] {
        for f in 0..=(w + 4) {
            let got = validator::validate(w as u8, f as u8);
            assert_eq!(got, expected(w, f), "w={} f={}", w, f);
            // accepted exactly when f <= w - 3
            assert_eq!(got == Validation::Accepted, f + 3 <= w);
        }
    }
}

#[test]
fn validate_8_bit_scenarios() {
    assert_eq!(validator::validate(8, 5), Validation::Accepted);
    // 6 fractional bits leave pi representable but take the headroom bit
    assert_eq!(
        validator::validate(8, 6),
        Validation::Rejected(BoundViolation::CombinedConstantRange)
    );
    assert_eq!(
        validator::validate(8, 7),
        Validation::Rejected(BoundViolation::PiRange)
    );
    assert_eq!(
        validator::validate(8, 9),
        Validation::Rejected(BoundViolation::GeneralCoherence)
    );
}

#[test]
fn validate_64_bit_scenarios() {
    assert_eq!(validator::validate(64, 61), Validation::Accepted);
    assert_eq!(
        validator::validate(64, 62),
        Validation::Rejected(BoundViolation::CombinedConstantRange)
    );
    assert_eq!(
        validator::validate(64, 63),
        Validation::Rejected(BoundViolation::PiRange)
    );
    assert_eq!(
        validator::validate(64, 65),
        Validation::Rejected(BoundViolation::GeneralCoherence)
    );
}

#[test]
fn validate_rejects_every_bound_variant() {
    // one input per rejection variant, and one acceptance
    assert!(matches!(validator::validate(32, 29), Validation::Accepted));
    assert!(matches!(
        validator::validate(32, 30),
        Validation::Rejected(BoundViolation::CombinedConstantRange)
    ));
    assert!(matches!(
        validator::validate(32, 32),
        Validation::Rejected(BoundViolation::PiRange)
    ));
    assert!(matches!(
        validator::validate(32, 33),
        Validation::Rejected(BoundViolation::GeneralCoherence)
    ));
}

//! The precision validator: decides whether a `(total bits, fractional bits)`
//! configuration can safely host the constants the algorithms need.
use vstd::prelude::*;

verus! {

/// The precision bound that a rejected configuration violated, from loosest
/// to tightest.  A rejection cites the loosest bound that fails, so the
/// diagnosis names the most fundamental problem with the configuration.
#[derive(Clone, Copy, Debug, PartialEq, Eq, Structural)]
pub enum BoundViolation {
    /// `F > W`: more fractional bits than the word has at all, so the value
    /// range degenerates to `[0, 1)` and the signed layout breaks down.
    GeneralCoherence,
    /// `W - 2 < F <= W`: fewer than two integer bits remain, so a value as
    /// large as pi cannot be represented without overflowing the magnitude.
    PiRange,
    /// `W - 3 < F <= W - 2`: pi alone would fit, but the combination of
    /// constants the algorithms hold at once lacks its one bit of headroom.
    CombinedConstantRange,
}

/// The outcome of validating a `(W, F)` configuration.
#[derive(Clone, Copy, Debug, PartialEq, Eq, Structural)]
pub enum Validation {
    Accepted,
    Rejected(BoundViolation),
}

/// A configuration of `w` total bits and `f` fractional bits is acceptable
/// exactly when all three nested precision bounds hold; the tightest,
/// `f <= w - 3`, implies the other two.
pub open spec fn accepts(w: int, f: int) -> bool {
    f + 3 <= w
}

/// Decide whether `f` fractional bits fit inside a `w`-bit signed word with
/// enough integer headroom for the constants.  Accepts exactly when
/// `f <= w - 3`; a rejection cites the loosest violated bound.
pub fn validate(w: u8, f: u8) -> (r: Validation)
    ensures
        r == Validation::Accepted <==> accepts(w as int, f as int),
        r == Validation::Rejected(BoundViolation::CombinedConstantRange) <==> (w < f + 3 && f + 2
            <= w),
        r == Validation::Rejected(BoundViolation::PiRange) <==> (w < f + 2 && f <= w),
        r == Validation::Rejected(BoundViolation::GeneralCoherence) <==> f > w,
{
    let wide_w: u16 = w as u16;
    let wide_f: u16 = f as u16;
    if wide_f > wide_w {
        Validation::Rejected(BoundViolation::GeneralCoherence)
    } else if wide_f + 2 > wide_w {
        Validation::Rejected(BoundViolation::PiRange)
    } else if wide_f + 3 > wide_w {
        Validation::Rejected(BoundViolation::CombinedConstantRange)
    } else {
        Validation::Accepted
    }
}

} // verus!

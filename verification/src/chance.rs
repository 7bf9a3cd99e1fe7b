//! Probabilities and uniform samples as IEEE 754 binary64 bit patterns.
//!
//! A failure chance and the sample that is held against it are kept as the
//! sixty-four bits of a binary64 number: one sign bit, then exponent and
//! fraction. For numbers of one sign the order of the values is the order of
//! those sixty-three bits, which is all that the comparison below needs.

use crate::failure::{FailureReason, ThespianResult};
use vstd::prelude::*;

verus! {

/// The bit that holds the sign.
pub const SIGN_BIT: u64 = 0x8000_0000_0000_0000;

/// The bit pattern of positive infinity; every larger magnitude is not a number.
pub const INFINITY: u64 = 0x7ff0_0000_0000_0000;

/// The bit pattern of the number one.
pub const ONE: u64 = 0x3ff0_0000_0000_0000;

/// Whether the sign bit of `bits` is set.
pub open spec fn negative(bits: u64) -> bool {
    bits >= SIGN_BIT
}

/// The bits of `bits` without the sign.
pub open spec fn magnitude(bits: u64) -> int {
    if negative(bits) {
        bits - SIGN_BIT
    } else {
        bits as int
    }
}

/// Whether `bits` stands for no number at all.
pub open spec fn not_a_number(bits: u64) -> bool {
    magnitude(bits) > INFINITY
}

/// An integer that orders the numbers as their values do: the magnitude, with
/// the sign in front. Both zeros rank alike.
pub open spec fn rank(bits: u64) -> int {
    if negative(bits) {
        -magnitude(bits)
    } else {
        magnitude(bits)
    }
}

/// Whether the number `sample` is strictly less than the number `chance`. No
/// comparison with what is not a number holds.
pub open spec fn below(sample: u64, chance: u64) -> bool {
    !not_a_number(sample) && !not_a_number(chance) && rank(sample) < rank(chance)
}

/// Whether `sample` is a number of the half-open interval from zero to one.
pub open spec fn unit_sample(sample: u64) -> bool {
    sample < ONE
}

/// What a sleep step ends in, given its failure chance and the sample drawn for
/// it: a simulated failure where there is a chance and the sample is below it.
pub open spec fn rolled(failure_chance: Option<u64>, sample: u64) -> ThespianResult {
    match failure_chance {
        Some(chance) => if below(sample, chance) {
            Err(FailureReason::SimulatedFailure)
        } else {
            Ok(())
        },
        None => Ok(()),
    }
}

/// Whether the number `sample` is strictly less than the number `chance`.
pub fn is_below(sample: u64, chance: u64) -> (less: bool)
    ensures
        less == below(sample, chance),
{
    let sample_negative = sample >= SIGN_BIT;
    let chance_negative = chance >= SIGN_BIT;
    let sample_magnitude: u64 = if sample_negative {
        sample - SIGN_BIT
    } else {
        sample
    };
    let chance_magnitude: u64 = if chance_negative {
        chance - SIGN_BIT
    } else {
        chance
    };
    if sample_magnitude > INFINITY || chance_magnitude > INFINITY {
        false
    } else if sample_negative && chance_negative {
        sample_magnitude > chance_magnitude
    } else if sample_negative {
        sample_magnitude != 0 || chance_magnitude != 0
    } else if chance_negative {
        false
    } else {
        sample_magnitude < chance_magnitude
    }
}

/// Decides a sleep step once its sample is drawn.
pub fn roll(failure_chance: Option<u64>, sample: u64) -> (result: ThespianResult)
    ensures
        result == rolled(failure_chance, sample),
{
    match failure_chance {
        Some(chance) => {
            if is_below(sample, chance) {
                Err(FailureReason::SimulatedFailure)
            } else {
                Ok(())
            }
        },
        None => Ok(()),
    }
}

/// A chance of one or more fails on every sample of the unit interval.
pub proof fn certain_failure(chance: u64, sample: u64)
    requires
        ONE <= chance <= INFINITY,
        unit_sample(sample),
    ensures
        rolled(Some(chance), sample) == Err::<(), FailureReason>(FailureReason::SimulatedFailure),
{
}

/// A chance of zero or less, or one that is not a number, fails on no sample
/// of the unit interval.
pub proof fn certain_success(chance: u64, sample: u64)
    requires
        chance == 0 || negative(chance) || not_a_number(chance),
        unit_sample(sample),
    ensures
        rolled(Some(chance), sample) == Ok::<(), FailureReason>(()),
{
}

/// A larger chance fails on every sample on which a smaller one fails.
pub proof fn a_larger_chance_fails_more(smaller: u64, larger: u64, sample: u64)
    requires
        !not_a_number(larger),
        rank(smaller) <= rank(larger),
        rolled(Some(smaller), sample) is Err,
    ensures
        rolled(Some(larger), sample) == Err::<(), FailureReason>(FailureReason::SimulatedFailure),
{
}

/// Without a failure chance a sleep step succeeds whatever is drawn.
pub proof fn no_chance_no_failure(sample: u64)
    ensures
        rolled(None, sample) == Ok::<(), FailureReason>(()),
{
}

} // verus!

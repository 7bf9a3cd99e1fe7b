use thespian::chance::{is_below, roll, INFINITY, ONE, SIGN_BIT};
use thespian::failure::FailureReason;

const NUMBERS: [f64; 21] = [
    0.0,
    -0.0,
    1.0,
    -1.0,
    0.5,
    -0.5,
    0.25,
    0.999_999_999_999_999_9,
    1.000_000_000_000_000_2,
    2.0,
    -2.0,
    1e-320,
    -1e-320,
    f64::MIN_POSITIVE,
    f64::MAX,
    f64::MIN,
    f64::EPSILON,
    f64::INFINITY,
    f64::NEG_INFINITY,
    f64::NAN,
    -f64::NAN,
];

#[test]
fn bit_patterns_of_the_constants() {
    assert_eq!(ONE, 1.0f64.to_bits());
    assert_eq!(INFINITY, f64::INFINITY.to_bits());
    assert_eq!(SIGN_BIT, (-0.0f64).to_bits());
}

#[test]
fn below_agrees_with_the_order_of_the_numbers() {
    for a in NUMBERS {
        for b in NUMBERS {
            assert_eq!(is_below(a.to_bits(), b.to_bits()), a < b, "{} < {}", a, b);
        }
    }
}

#[test]
fn a_chance_of_one_always_fails() {
    for sample in [0.0f64, 1e-300, 0.25, 0.5, 0.75, 0.999_999_999_999_999_9] {
        assert_eq!(
            roll(Some(1.0f64.to_bits()), sample.to_bits()),
            Err(FailureReason::SimulatedFailure)
        );
    }
}

#[test]
fn a_chance_of_zero_never_fails() {
    for sample in [0.0f64, 1e-300, 0.25, 0.5, 0.75, 0.999_999_999_999_999_9] {
        assert_eq!(roll(Some(0.0f64.to_bits()), sample.to_bits()), Ok(()));
        assert_eq!(roll(Some((-0.5f64).to_bits()), sample.to_bits()), Ok(()));
        assert_eq!(roll(Some(f64::NAN.to_bits()), sample.to_bits()), Ok(()));
    }
}

#[test]
fn a_sample_fails_only_strictly_below_the_chance() {
    let chance = 0.3f64.to_bits();
    assert_eq!(roll(Some(chance), 0.299f64.to_bits()), Err(FailureReason::SimulatedFailure));
    assert_eq!(roll(Some(chance), 0.3f64.to_bits()), Ok(()));
    assert_eq!(roll(Some(chance), 0.301f64.to_bits()), Ok(()));
}

#[test]
fn a_chance_out_of_range_is_taken_as_it_stands() {
    assert_eq!(roll(Some(7.5f64.to_bits()), 0.99f64.to_bits()), Err(FailureReason::SimulatedFailure));
    assert_eq!(roll(Some((-3.0f64).to_bits()), 0.0f64.to_bits()), Ok(()));
}

#[test]
fn without_a_chance_nothing_fails() {
    for sample in NUMBERS {
        assert_eq!(roll(None, sample.to_bits()), Ok(()));
    }
}

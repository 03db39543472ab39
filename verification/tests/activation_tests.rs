//! Activation function behavior over the fixed-point scalars.

use craber_brain::fixed::{mul_fp, sat_add, sat_sub, sigmoid_fp, tanh_fp};
use craber_brain::{ActivationFunction, FP_HALF, FP_ONE, FP_PI};

#[test]
fn sigmoid_of_zero_is_one_half() {
    assert_eq!(ActivationFunction::Sigmoid.calculate(0), FP_HALF);
}

#[test]
fn tanh_of_zero_is_zero() {
    assert_eq!(ActivationFunction::Tanh.calculate(0), 0);
}

#[test]
fn relu_clips_negative_and_keeps_positive() {
    assert_eq!(ActivationFunction::ReLU.calculate(-FP_ONE), 0);
    assert_eq!(ActivationFunction::ReLU.calculate(FP_ONE), FP_ONE);
    assert_eq!(ActivationFunction::ReLU.calculate(0), 0);
}

#[test]
fn leaky_relu_scales_negative_by_one_hundredth() {
    // -10.0 maps to -0.1
    assert_eq!(ActivationFunction::LeakyReLU.calculate(-10 * FP_ONE), -100_000);
    assert_eq!(ActivationFunction::LeakyReLU.calculate(3 * FP_ONE), 3 * FP_ONE);
}

#[test]
fn softmax_is_one_for_every_input() {
    let samples: Vec<i64> = vec![0, 1, -1, FP_ONE, -FP_ONE, 123_456_789, i64::MIN, i64::MAX];
    for x in samples {
        assert_eq!(ActivationFunction::Softmax.calculate(x), FP_ONE);
    }
}

#[test]
fn identity_passes_values_through() {
    assert_eq!(ActivationFunction::Identity.calculate(42), 42);
    assert_eq!(ActivationFunction::Identity.calculate(-42), -42);
}

#[test]
fn angle_center_shifts_two_pi_to_pi() {
    assert_eq!(ActivationFunction::AngleCenter.calculate(2 * FP_PI), FP_PI);
    assert_eq!(ActivationFunction::AngleCenter.calculate(FP_PI), 0);
}

#[test]
fn sigmoid_and_tanh_are_bounded_and_monotone_on_samples() {
    let samples: Vec<i64> = vec![-50 * FP_ONE, -FP_ONE, -1, 0, 1, FP_ONE, 50 * FP_ONE];
    let mut prev_t: Option<i64> = None;
    let mut prev_s: Option<i64> = None;
    for x in samples {
        let t = tanh_fp(x);
        let s = sigmoid_fp(x);
        assert!(-FP_ONE < t && t < FP_ONE);
        assert!(0 < s && s < FP_ONE);
        if let Some(p) = prev_t {
            assert!(p <= t);
        }
        if let Some(p) = prev_s {
            assert!(p <= s);
        }
        prev_t = Some(t);
        prev_s = Some(s);
    }
}

#[test]
fn fixed_point_products_are_exact_on_round_values() {
    assert_eq!(mul_fp(FP_HALF, 4_500_000), 2_250_000);
    assert_eq!(mul_fp(FP_ONE, FP_ONE), FP_ONE);
    assert_eq!(mul_fp(-FP_ONE, FP_ONE), -FP_ONE);
    // truncation toward zero on sub-unit remainders, both signs
    assert_eq!(mul_fp(1, 1), 0);
    assert_eq!(mul_fp(-1, 1), 0);
}

#[test]
fn saturating_sums_clamp_at_the_i64_range() {
    assert_eq!(sat_add(i64::MAX, 1), i64::MAX);
    assert_eq!(sat_add(i64::MIN, -1), i64::MIN);
    assert_eq!(sat_add(2, 3), 5);
    assert_eq!(sat_sub(i64::MIN, 1), i64::MIN);
    assert_eq!(sat_sub(5, 2), 3);
}

#[test]
fn random_activation_draws_the_whole_closed_set() {
    let mut seen = [false; 7];
    for _ in 0..700 {
        let idx = match ActivationFunction::random() {
            ActivationFunction::Identity => 0,
            ActivationFunction::Sigmoid => 1,
            ActivationFunction::Tanh => 2,
            ActivationFunction::ReLU => 3,
            ActivationFunction::LeakyReLU => 4,
            ActivationFunction::Softmax => 5,
            ActivationFunction::AngleCenter => 6,
        };
        seen[idx] = true;
    }
    assert!(seen.iter().all(|s| *s));
}

//! The closed set of activation functions a neuron can carry.

use vstd::prelude::*;

use crate::fixed::{
    fp_mul, fp_sat_sub, fp_sigmoid, fp_tanh, mul_fp, sat_sub, sigmoid_fp, tanh_fp, FP_HUNDREDTH,
    FP_ONE, FP_PI,
};
use crate::rng::rand_index;

verus! {

/// A pure scalar transform applied to a neuron's accumulated value.
#[derive(PartialEq, Eq, Hash, Clone, Copy, Debug, Structural)]
pub enum ActivationFunction {
    /// Pass the value through unchanged.
    Identity,
    /// Logistic curve: one half at zero, strictly inside (0, 1).
    Sigmoid,
    /// Hyperbolic-tangent curve: zero at zero, strictly inside (-1, 1).
    Tanh,
    /// Rectifier: the value itself when nonnegative, else zero.
    ReLU,
    /// Leaky rectifier: the value itself when nonnegative, else one hundredth
    /// of it.
    LeakyReLU,
    /// Degenerate single-element softmax, which is one for every input.
    Softmax,
    /// Angle centering: shift a [0, 2*pi) radian angle down by pi.
    AngleCenter,
}

/// What each activation function returns, over the fixed-point scalars.
pub open spec fn spec_activation(f: ActivationFunction, x: i64) -> i64 {
    match f {
        ActivationFunction::Identity => x,
        ActivationFunction::Sigmoid => fp_sigmoid(x),
        ActivationFunction::Tanh => fp_tanh(x),
        ActivationFunction::ReLU => if x >= 0 {
            x
        } else {
            0
        },
        ActivationFunction::LeakyReLU => if x >= fp_mul(x, FP_HUNDREDTH) {
            x
        } else {
            fp_mul(x, FP_HUNDREDTH)
        },
        ActivationFunction::Softmax => FP_ONE,
        ActivationFunction::AngleCenter => fp_sat_sub(x, FP_PI),
    }
}

impl ActivationFunction {
    /// Apply this activation function to a fixed-point value.
    pub fn calculate(&self, value: i64) -> (r: i64)
        ensures
            r == spec_activation(*self, value),
    {
        match self {
            ActivationFunction::Identity => value,
            ActivationFunction::Sigmoid => sigmoid_fp(value),
            ActivationFunction::Tanh => tanh_fp(value),
            ActivationFunction::ReLU => {
                if value >= 0 {
                    value
                } else {
                    0
                }
            },
            ActivationFunction::LeakyReLU => {
                let m: i64 = mul_fp(value, FP_HUNDREDTH);
                if value >= m {
                    value
                } else {
                    m
                }
            },
            ActivationFunction::Softmax => FP_ONE,
            ActivationFunction::AngleCenter => sat_sub(value, FP_PI),
        }
    }

    /// Draw an activation function uniformly from the closed set; every
    /// variant, the degenerate softmax and angle centering included, can come
    /// back.
    pub fn random() -> ActivationFunction {
        let k: usize = rand_index(7);
        match k {
            0 => ActivationFunction::Identity,
            1 => ActivationFunction::Sigmoid,
            2 => ActivationFunction::Tanh,
            3 => ActivationFunction::ReLU,
            4 => ActivationFunction::LeakyReLU,
            5 => ActivationFunction::Softmax,
            _ => ActivationFunction::AngleCenter,
        }
    }
}

} // verus!

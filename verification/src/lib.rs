//! Evolvable feed-forward "brains" for simulated agents, over fixed-point
//! scalars.
//!
//! A brain owns three pools of neurons (inputs, hidden, outputs) and a list of
//! weighted connections between integer neuron addresses. It offers input
//! injection, a deterministic two-phase evaluation pass, output extraction,
//! and a randomized mutation operator that produces a child brain.
//!
//! Scalar signal values are carried as `i64` fixed-point numbers with one
//! million units to one (see [`fixed`]), so every arithmetic step has an exact
//! specification; sums and products saturate at the `i64` range instead of
//! overflowing.

pub mod activation;
pub mod brain;
pub mod connection;
pub mod fixed;
pub mod mutation;
pub mod neuron;
pub mod laws;
mod rng;

pub use activation::ActivationFunction;
pub use brain::Brain;
pub use connection::Connection;
pub use fixed::{FP_HALF, FP_HUNDREDTH, FP_ONE, FP_PI};
pub use neuron::{Neuron, NeuronType};

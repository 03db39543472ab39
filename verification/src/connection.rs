//! The weighted, biased, toggle-able edge between two neuron addresses.

use vstd::prelude::*;

verus! {

/// A directed edge between two neuron addresses.
///
/// An address is a single integer: ids in [0, 100) name input neurons, ids in
/// [100, 200) name hidden neurons, and ids in [200, 300) name output neurons.
/// A connection performs no validation of its own; whether an address
/// resolves is the owning brain's concern.
#[derive(PartialEq, Eq, Clone, Copy, Debug, Structural)]
pub struct Connection {
    /// Address of the source neuron.
    pub from_id: usize,
    /// Address of the destination neuron.
    pub to_id: usize,
    /// Fixed-point edge weight, typically in [-1, 1] but not clamped.
    pub weight: i64,
    /// Fixed-point edge bias, typically in [-1, 1] but not clamped.
    pub bias: i64,
    /// A disabled connection is skipped during evaluation but kept, since
    /// mutation may re-enable it.
    pub enabled: bool,
}

} // verus!

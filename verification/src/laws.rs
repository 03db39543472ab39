//! Library-wide laws of the evaluation pass, stated and proved over the
//! brain model.

use vstd::prelude::*;

use crate::activation::{spec_activation, ActivationFunction};
use crate::brain::{
    activate_pool, inert_inputs, reset_pool, run_phase, same_shape,
    spec_feed_forward, BrainModel,
};
use crate::fixed::{FP_HALF, FP_ONE, FP_PI};
use crate::neuron::Neuron;

verus! {

/// Sharing a shape is symmetric.
pub proof fn lemma_same_shape_sym(a: BrainModel, b: BrainModel)
    requires
        same_shape(a, b),
    ensures
        same_shape(b, a),
{
}

/// Clearing values erases any difference between two pools of the same
/// shape.
proof fn lemma_reset_pool_congruent(a: Seq<Neuron>, b: Seq<Neuron>)
    requires
        a.len() == b.len(),
        forall|i: int|
            0 <= i < a.len() ==> (#[trigger] b[i]).neuron_type == a[i].neuron_type
                && b[i].activation_function == a[i].activation_function,
    ensures
        reset_pool(a) == reset_pool(b),
{
    assert(reset_pool(a) =~= reset_pool(b));
}

/// Determinism of evaluation: the values an evaluation pass produces are a
/// function of the input values and the wiring alone. Two brains with equal
/// input pools and the same wiring evaluate to equal models, whatever stale
/// hidden and output values were left behind by earlier passes.
pub proof fn lemma_feed_forward_state_independent(m1: BrainModel, m2: BrainModel)
    requires
        m1.inputs == m2.inputs,
        same_shape(m1, m2),
    ensures
        spec_feed_forward(m1) == spec_feed_forward(m2),
{
    lemma_reset_pool_congruent(m1.hidden_layers, m2.hidden_layers);
    lemma_reset_pool_congruent(m1.outputs, m2.outputs);
    let a0 = BrainModel {
        hidden_layers: reset_pool(m1.hidden_layers),
        outputs: reset_pool(m1.outputs),
        ..m1
    };
    let b0 = BrainModel {
        hidden_layers: reset_pool(m2.hidden_layers),
        outputs: reset_pool(m2.outputs),
        ..m2
    };
    assert(a0 =~= b0);
}

/// A propagation phase of a model whose connections all point at hidden or
/// output addresses leaves the input pool alone.
proof fn lemma_run_phase_keeps_inputs(m: BrainModel, k: nat, lo: usize, hi: usize)
    requires
        inert_inputs(m),
        k <= m.connections.len(),
    ensures
        run_phase(m, k, lo, hi).inputs == m.inputs,
    decreases k,
{
    if k > 0 {
        lemma_run_phase_keeps_inputs(m, (k - 1) as nat, lo, hi);
        assert((#[trigger] m.connections[k - 1]).to_id >= 100);
    }
}

/// An evaluation pass of a brain whose connections all point at hidden or
/// output addresses keeps the input pool and the wiring exactly as they
/// were: only hidden and output values change.
pub proof fn lemma_feed_forward_frame(m: BrainModel)
    requires
        inert_inputs(m),
    ensures
        spec_feed_forward(m).inputs == m.inputs,
        spec_feed_forward(m).connections == m.connections,
        same_shape(m, spec_feed_forward(m)),
        inert_inputs(spec_feed_forward(m)),
{
    let m0 = BrainModel {
        hidden_layers: reset_pool(m.hidden_layers),
        outputs: reset_pool(m.outputs),
        ..m
    };
    let m1 = run_phase(m0, m0.connections.len(), 0, 100);
    let m2 = BrainModel { hidden_layers: activate_pool(m1.hidden_layers), ..m1 };
    let m3 = run_phase(m2, m2.connections.len(), 100, 200);
    let m4 = BrainModel { outputs: activate_pool(m3.outputs), ..m3 };
    crate::brain::lemma_run_phase_shape(m0, m0.connections.len(), 0, 100);
    crate::brain::lemma_run_phase_shape(m2, m2.connections.len(), 100, 200);
    lemma_run_phase_keeps_inputs(m0, m0.connections.len(), 0, 100);
    lemma_run_phase_keeps_inputs(m2, m2.connections.len(), 100, 200);
    assert(m4 == spec_feed_forward(m));
    assert(same_shape(m, m4));
}

/// Reset-per-tick: evaluating twice in a row, with the inputs untouched in
/// between, lands on exactly the state the first evaluation produced — no
/// value seeps from one tick into the next. The hypothesis holds of every
/// brain descended from the starting topology: `Brain::default` establishes
/// `inert_inputs` and `new_mutated_brain` preserves it.
pub proof fn lemma_feed_forward_idempotent(m: BrainModel)
    requires
        inert_inputs(m),
    ensures
        spec_feed_forward(spec_feed_forward(m)) == spec_feed_forward(m),
{
    let f = spec_feed_forward(m);
    lemma_feed_forward_frame(m);
    lemma_same_shape_sym(m, f);
    lemma_feed_forward_state_independent(f, m);
}

/// The activation identities, computed over the fixed-point scalars: the
/// logistic curve is one half at zero, the tanh curve is zero at zero, the
/// rectifier clips minus one to zero and keeps one, the leaky rectifier maps
/// minus ten to minus a tenth, the degenerate softmax is one everywhere, and
/// angle centering maps two pi to pi.
pub proof fn lemma_activation_identities()
    ensures
        spec_activation(ActivationFunction::Sigmoid, 0) == FP_HALF,
        spec_activation(ActivationFunction::Tanh, 0) == 0,
        spec_activation(ActivationFunction::ReLU, -1_000_000i64) == 0,
        spec_activation(ActivationFunction::ReLU, 1_000_000) == FP_ONE,
        spec_activation(ActivationFunction::LeakyReLU, -10_000_000i64) == -100_000,
        forall|x: i64| spec_activation(ActivationFunction::Softmax, x) == FP_ONE,
        spec_activation(ActivationFunction::AngleCenter, 6_283_186) == FP_PI,
{
    assert((-10_000_000int) * 10_000 == -100_000_000_000int);
    assert forall|x: i64| spec_activation(ActivationFunction::Softmax, x) == FP_ONE by {}
}

} // verus!

//! The brain: three neuron pools, a connection list, integer addressing,
//! input injection, two-phase evaluation, and output extraction.

use vstd::prelude::*;

use crate::activation::{spec_activation, ActivationFunction};
use crate::connection::Connection;
use crate::fixed::{fp_mul, fp_sat_add, mul_fp, sat_add};
use crate::neuron::{Neuron, NeuronType};

verus! {

/// The mathematical view of a brain: the three neuron pools and the
/// connection list as sequences.
#[verifier::ext_equal]
pub struct BrainModel {
    /// Input (sensor) neurons, addressed by ids in [0, 100).
    pub inputs: Seq<Neuron>,
    /// Hidden neurons, addressed by ids in [100, 200).
    pub hidden_layers: Seq<Neuron>,
    /// Output (actuator) neurons, addressed by ids in [200, 300).
    pub outputs: Seq<Neuron>,
    /// The connection list, evaluated in order.
    pub connections: Seq<Connection>,
}

/// Whether an address names an existing neuron: ids in [0, 100) address
/// `inputs[id]`, ids in [100, 200) address `hidden_layers[id - 100]`, ids in
/// [200, 300) address `outputs[id - 200]`, and ids of 300 and above address
/// nothing.
pub open spec fn resolves(m: BrainModel, id: int) -> bool {
    if id < 100 {
        0 <= id < m.inputs.len()
    } else if id < 200 {
        id - 100 < m.hidden_layers.len()
    } else if id < 300 {
        id - 200 < m.outputs.len()
    } else {
        false
    }
}

/// The neuron an address names, when it resolves.
pub open spec fn neuron_read(m: BrainModel, id: int) -> Neuron
    recommends
        resolves(m, id),
{
    if id < 100 {
        m.inputs[id]
    } else if id < 200 {
        m.hidden_layers[id - 100]
    } else {
        m.outputs[id - 200]
    }
}

/// The model with the neuron at a resolving address replaced; unchanged when
/// the address is 300 or above.
pub open spec fn neuron_write(m: BrainModel, id: int, n: Neuron) -> BrainModel
    recommends
        id >= 300 || resolves(m, id),
{
    if id < 100 {
        BrainModel { inputs: m.inputs.update(id, n), ..m }
    } else if id < 200 {
        BrainModel { hidden_layers: m.hidden_layers.update(id - 100, n), ..m }
    } else if id < 300 {
        BrainModel { outputs: m.outputs.update(id - 200, n), ..m }
    } else {
        m
    }
}

/// The model with only the value of the neuron at an address replaced.
pub open spec fn value_write(m: BrainModel, id: int, v: i64) -> BrainModel
    recommends
        id >= 300 || resolves(m, id),
{
    neuron_write(m, id, Neuron { value: v, ..neuron_read(m, id) })
}

/// The addressing invariant: every connection's two endpoints resolve.
pub open spec fn model_wf(m: BrainModel) -> bool {
    forall|i: int|
        0 <= i < m.connections.len() ==> resolves(m, (#[trigger] m.connections[i]).from_id as int)
            && resolves(m, m.connections[i].to_id as int)
}

/// No connection is aimed at an input neuron, so evaluation leaves the input
/// pool untouched. The default topology has this, and mutation preserves it.
pub open spec fn inert_inputs(m: BrainModel) -> bool {
    forall|i: int| 0 <= i < m.connections.len() ==> (#[trigger] m.connections[i]).to_id >= 100
}

/// A pool with every value cleared to zero.
pub open spec fn reset_pool(ns: Seq<Neuron>) -> Seq<Neuron> {
    Seq::new(ns.len(), |i: int| Neuron { value: 0, ..ns[i] })
}

/// A pool with every neuron's activation function applied to its value.
pub open spec fn activate_pool(ns: Seq<Neuron>) -> Seq<Neuron> {
    Seq::new(
        ns.len(),
        |i: int| Neuron { value: spec_activation(ns[i].activation_function, ns[i].value), ..ns[i] },
    )
}

/// Whether a connection fires during the phase that takes sources with
/// addresses in [lo, hi).
pub open spec fn conn_fires(c: Connection, lo: usize, hi: usize) -> bool {
    c.enabled && lo <= c.from_id < hi
}

/// One accumulation step: the destination's running value plus the source
/// value times the weight, plus the bias, each sum saturating.
pub open spec fn spec_acc(to: i64, from: i64, weight: i64, bias: i64) -> i64 {
    fp_sat_add(fp_sat_add(to, fp_mul(from, weight)), bias)
}

/// The effect of one firing connection: accumulate into the destination
/// neuron. A connection with a dangling endpoint changes nothing (evaluation
/// requires the addressing invariant, under which this guard never bites).
pub open spec fn apply_conn(m: BrainModel, c: Connection) -> BrainModel {
    if resolves(m, c.from_id as int) && resolves(m, c.to_id as int) {
        value_write(
            m,
            c.to_id as int,
            spec_acc(
                neuron_read(m, c.to_id as int).value,
                neuron_read(m, c.from_id as int).value,
                c.weight,
                c.bias,
            ),
        )
    } else {
        m
    }
}

/// The first `k` connections of `m`, applied in order, each firing only if
/// enabled and sourced at an address in [lo, hi). Connection values are read
/// from `m`'s list, which accumulation never alters.
pub open spec fn run_phase(m: BrainModel, k: nat, lo: usize, hi: usize) -> BrainModel
    decreases k,
{
    if k == 0 {
        m
    } else {
        let prev = run_phase(m, (k - 1) as nat, lo, hi);
        let c = m.connections[k - 1];
        if conn_fires(c, lo, hi) {
            apply_conn(prev, c)
        } else {
            prev
        }
    }
}

/// The whole evaluation pass: clear hidden and output values, accumulate
/// every enabled input-sourced connection, activate the hidden pool,
/// accumulate every enabled hidden-sourced connection, activate the output
/// pool.
pub open spec fn spec_feed_forward(m: BrainModel) -> BrainModel {
    let m0 = BrainModel {
        hidden_layers: reset_pool(m.hidden_layers),
        outputs: reset_pool(m.outputs),
        ..m
    };
    let m1 = run_phase(m0, m0.connections.len(), 0, 100);
    let m2 = BrainModel { hidden_layers: activate_pool(m1.hidden_layers), ..m1 };
    let m3 = run_phase(m2, m2.connections.len(), 100, 200);
    BrainModel { outputs: activate_pool(m3.outputs), ..m3 }
}

/// Two models with the same wiring: identical connection lists and pools of
/// the same lengths whose neurons agree on role and activation function,
/// differing at most in their values.
pub open spec fn same_shape(a: BrainModel, b: BrainModel) -> bool {
    &&& b.connections == a.connections
    &&& b.inputs.len() == a.inputs.len()
    &&& b.hidden_layers.len() == a.hidden_layers.len()
    &&& b.outputs.len() == a.outputs.len()
    &&& forall|i: int|
        0 <= i < a.inputs.len() ==> (#[trigger] b.inputs[i]).neuron_type
            == a.inputs[i].neuron_type && b.inputs[i].activation_function
            == a.inputs[i].activation_function
    &&& forall|i: int|
        0 <= i < a.hidden_layers.len() ==> (#[trigger] b.hidden_layers[i]).neuron_type
            == a.hidden_layers[i].neuron_type && b.hidden_layers[i].activation_function
            == a.hidden_layers[i].activation_function
    &&& forall|i: int|
        0 <= i < a.outputs.len() ==> (#[trigger] b.outputs[i]).neuron_type
            == a.outputs[i].neuron_type && b.outputs[i].activation_function
            == a.outputs[i].activation_function
}

/// Accumulating along one connection touches only neuron values, never the
/// wiring.
pub proof fn lemma_apply_conn_shape(m: BrainModel, c: Connection)
    ensures
        same_shape(m, apply_conn(m, c)),
{
}

/// A whole phase touches only neuron values, never the wiring.
pub proof fn lemma_run_phase_shape(m: BrainModel, k: nat, lo: usize, hi: usize)
    ensures
        same_shape(m, run_phase(m, k, lo, hi)),
    decreases k,
{
    if k > 0 {
        lemma_run_phase_shape(m, (k - 1) as nat, lo, hi);
        lemma_apply_conn_shape(run_phase(m, (k - 1) as nat, lo, hi), m.connections[k - 1]);
    }
}

/// Which addresses resolve depends only on the pool lengths, which models of
/// the same shape share.
pub proof fn lemma_same_shape_resolves(a: BrainModel, b: BrainModel, id: int)
    requires
        same_shape(a, b),
    ensures
        resolves(a, id) == resolves(b, id),
{
}

/// The addressing invariant carries over to any model with the same
/// connection list and the same pool lengths.
pub proof fn lemma_wf_same_lengths(a: BrainModel, b: BrainModel)
    requires
        model_wf(a),
        b.connections == a.connections,
        b.inputs.len() == a.inputs.len(),
        b.hidden_layers.len() == a.hidden_layers.len(),
        b.outputs.len() == a.outputs.len(),
    ensures
        model_wf(b),
{
    assert forall|i: int| 0 <= i < b.connections.len() implies resolves(
        b,
        (#[trigger] b.connections[i]).from_id as int,
    ) && resolves(b, b.connections[i].to_id as int) by {
        assert(resolves(a, (#[trigger] a.connections[i]).from_id as int));
        assert(resolves(a, a.connections[i].to_id as int));
    }
}

/// The input pool with the value of every neuron of the given role replaced.
pub open spec fn update_inputs_seq(ns: Seq<Neuron>, t: NeuronType, v: i64) -> Seq<Neuron> {
    Seq::new(
        ns.len(),
        |i: int|
            if ns[i].neuron_type == t {
                Neuron { value: v, ..ns[i] }
            } else {
                ns[i]
            },
    )
}

/// The value of the last neuron of the given role in a pool, or zero when the
/// pool holds none.
pub open spec fn spec_role_value(ns: Seq<Neuron>, t: NeuronType) -> i64
    decreases ns.len(),
{
    if ns.len() == 0 {
        0
    } else if ns.last().neuron_type == t {
        ns.last().value
    } else {
        spec_role_value(ns.drop_last(), t)
    }
}

/// Clear every value in a pool to zero.
fn clear_values(pool: &mut Vec<Neuron>)
    ensures
        final(pool)@ == reset_pool(old(pool)@),
{
    let ghost orig = pool@;
    let mut i: usize = 0;
    while i < pool.len()
        invariant
            i <= pool@.len(),
            pool@.len() == orig.len(),
            forall|k: int| 0 <= k < i ==> pool@[k] == reset_pool(orig)[k],
            forall|k: int| i <= k < orig.len() ==> pool@[k] == orig[k],
        decreases pool@.len() - i,
    {
        let mut n: Neuron = pool[i];
        n.value = 0;
        pool.set(i, n);
        i += 1;
    }
    proof {
        assert(pool@ =~= reset_pool(orig));
    }
}

/// Run every neuron's value through its activation function.
fn apply_activations(pool: &mut Vec<Neuron>)
    ensures
        final(pool)@ == activate_pool(old(pool)@),
{
    let ghost orig = pool@;
    let mut i: usize = 0;
    while i < pool.len()
        invariant
            i <= pool@.len(),
            pool@.len() == orig.len(),
            forall|k: int| 0 <= k < i ==> pool@[k] == activate_pool(orig)[k],
            forall|k: int| i <= k < orig.len() ==> pool@[k] == orig[k],
        decreases pool@.len() - i,
    {
        let mut n: Neuron = pool[i];
        n.value = n.activation_function.calculate(n.value);
        pool.set(i, n);
        i += 1;
    }
    proof {
        assert(pool@ =~= activate_pool(orig));
    }
}

/// An evolvable feed-forward network: input, hidden and output neuron pools,
/// and the connections between their integer addresses.
#[derive(Clone, Debug, PartialEq)]
pub struct Brain {
    /// Input (sensor) neurons, addressed by ids in [0, 100).
    pub inputs: Vec<Neuron>,
    /// Output (actuator) neurons, addressed by ids in [200, 300).
    pub outputs: Vec<Neuron>,
    /// Hidden neurons, addressed by ids in [100, 200).
    pub hidden_layers: Vec<Neuron>,
    /// The connection list, evaluated in order.
    pub connections: Vec<Connection>,
}

/// The input pool of the hand-authored starting topology.
pub open spec fn default_inputs() -> Seq<Neuron> {
    seq![
        Neuron {
            neuron_type: NeuronType::AlwaysOn,
            activation_function: ActivationFunction::Identity,
            value: crate::fixed::FP_ONE,
        },
        Neuron {
            neuron_type: NeuronType::NearestFoodAngle,
            activation_function: ActivationFunction::Identity,
            value: 0,
        },
        Neuron {
            neuron_type: NeuronType::NearestFoodDistance,
            activation_function: ActivationFunction::Identity,
            value: 0,
        },
        Neuron {
            neuron_type: NeuronType::NearestCraberAngle,
            activation_function: ActivationFunction::Identity,
            value: 0,
        },
        Neuron {
            neuron_type: NeuronType::NearestCraberDistance,
            activation_function: ActivationFunction::Identity,
            value: 0,
        },
    ]
}

/// The output pool of the hand-authored starting topology.
pub open spec fn default_outputs() -> Seq<Neuron> {
    seq![
        Neuron {
            neuron_type: NeuronType::MoveForward,
            activation_function: ActivationFunction::Identity,
            value: 0,
        },
        Neuron {
            neuron_type: NeuronType::Rotate,
            activation_function: ActivationFunction::Identity,
            value: 0,
        },
        Neuron {
            neuron_type: NeuronType::WantToAttack,
            activation_function: ActivationFunction::Identity,
            value: 0,
        },
    ]
}

/// The hidden pool of the hand-authored starting topology.
pub open spec fn default_hidden() -> Seq<Neuron> {
    seq![
        Neuron {
            neuron_type: NeuronType::Hidden,
            activation_function: ActivationFunction::Identity,
            value: 0,
        },
    ]
}

/// The connection list of the hand-authored starting topology: bias to
/// thrust, food angle and peer angle to the hidden neuron, the hidden neuron
/// to the turn rate (weighted up to turn hard), and bias to the attack drive.
pub open spec fn default_connections() -> Seq<Connection> {
    seq![
        Connection { from_id: 0, to_id: 200, weight: crate::fixed::FP_ONE, bias: 0, enabled: true },
        Connection { from_id: 1, to_id: 100, weight: crate::fixed::FP_ONE, bias: 0, enabled: true },
        Connection { from_id: 3, to_id: 100, weight: crate::fixed::FP_ONE, bias: 0, enabled: true },
        Connection { from_id: 100, to_id: 201, weight: 4_500_000, bias: 0, enabled: true },
        Connection { from_id: 0, to_id: 202, weight: crate::fixed::FP_HALF, bias: 0, enabled: true },
    ]
}

/// The starting topology as a model.
pub open spec fn default_model() -> BrainModel {
    BrainModel {
        inputs: default_inputs(),
        hidden_layers: default_hidden(),
        outputs: default_outputs(),
        connections: default_connections(),
    }
}

impl Brain {
    /// This brain as a mathematical model.
    pub open spec fn model(self) -> BrainModel {
        BrainModel {
            inputs: self.inputs@,
            hidden_layers: self.hidden_layers@,
            outputs: self.outputs@,
            connections: self.connections@,
        }
    }

    /// The addressing invariant: every connection's endpoints resolve.
    pub open spec fn wf(self) -> bool {
        model_wf(self.model())
    }

    /// The hand-authored starting topology, the genesis genome: five sensors,
    /// one hidden neuron, three actuators, five enabled connections.
    pub fn default() -> (b: Brain)
        ensures
            b.model() == default_model(),
            b.wf(),
            inert_inputs(b.model()),
    {
        let mut inputs: Vec<Neuron> = Vec::new();
        inputs.push(
            Neuron {
                neuron_type: NeuronType::AlwaysOn,
                activation_function: ActivationFunction::Identity,
                value: crate::fixed::FP_ONE,
            },
        );
        inputs.push(
            Neuron {
                neuron_type: NeuronType::NearestFoodAngle,
                activation_function: ActivationFunction::Identity,
                value: 0,
            },
        );
        inputs.push(
            Neuron {
                neuron_type: NeuronType::NearestFoodDistance,
                activation_function: ActivationFunction::Identity,
                value: 0,
            },
        );
        inputs.push(
            Neuron {
                neuron_type: NeuronType::NearestCraberAngle,
                activation_function: ActivationFunction::Identity,
                value: 0,
            },
        );
        inputs.push(
            Neuron {
                neuron_type: NeuronType::NearestCraberDistance,
                activation_function: ActivationFunction::Identity,
                value: 0,
            },
        );
        let mut outputs: Vec<Neuron> = Vec::new();
        outputs.push(
            Neuron {
                neuron_type: NeuronType::MoveForward,
                activation_function: ActivationFunction::Identity,
                value: 0,
            },
        );
        outputs.push(
            Neuron {
                neuron_type: NeuronType::Rotate,
                activation_function: ActivationFunction::Identity,
                value: 0,
            },
        );
        outputs.push(
            Neuron {
                neuron_type: NeuronType::WantToAttack,
                activation_function: ActivationFunction::Identity,
                value: 0,
            },
        );
        let mut hidden_layers: Vec<Neuron> = Vec::new();
        hidden_layers.push(
            Neuron {
                neuron_type: NeuronType::Hidden,
                activation_function: ActivationFunction::Identity,
                value: 0,
            },
        );
        let mut connections: Vec<Connection> = Vec::new();
        connections.push(
            Connection {
                from_id: 0,
                to_id: 200,
                weight: crate::fixed::FP_ONE,
                bias: 0,
                enabled: true,
            },
        );
        connections.push(
            Connection {
                from_id: 1,
                to_id: 100,
                weight: crate::fixed::FP_ONE,
                bias: 0,
                enabled: true,
            },
        );
        connections.push(
            Connection {
                from_id: 3,
                to_id: 100,
                weight: crate::fixed::FP_ONE,
                bias: 0,
                enabled: true,
            },
        );
        connections.push(
            Connection { from_id: 100, to_id: 201, weight: 4_500_000, bias: 0, enabled: true },
        );
        connections.push(
            Connection {
                from_id: 0,
                to_id: 202,
                weight: crate::fixed::FP_HALF,
                bias: 0,
                enabled: true,
            },
        );
        let b = Brain { inputs, outputs, hidden_layers, connections };
        proof {
            assert(b.inputs@ =~= default_inputs());
            assert(b.outputs@ =~= default_outputs());
            assert(b.hidden_layers@ =~= default_hidden());
            assert(b.connections@ =~= default_connections());
            assert(b.model() =~= default_model());
            assert forall|i: int| 0 <= i < b.model().connections.len() implies resolves(
                b.model(),
                (#[trigger] b.model().connections[i]).from_id as int,
            ) && resolves(b.model(), b.model().connections[i].to_id as int) by {
                assert(b.model().connections.len() == 5);
            }
            assert forall|i: int| 0 <= i < b.model().connections.len() implies (
            #[trigger] b.model().connections[i]).to_id >= 100 by {
                assert(b.model().connections.len() == 5);
            }
        }
        b
    }

    /// Resolve an address to its neuron, or nothing when the address is out
    /// of range or past the end of its pool.
    pub fn get_neuron(&self, id: usize) -> (r: Option<&Neuron>)
        ensures
            resolves(self.model(), id as int) ==> (r matches Some(n) && *n == neuron_read(
                self.model(),
                id as int,
            )),
            !resolves(self.model(), id as int) ==> r is None,
    {
        if id < 100 {
            if id < self.inputs.len() {
                Some(&self.inputs[id])
            } else {
                None
            }
        } else if id < 200 {
            if id - 100 < self.hidden_layers.len() {
                Some(&self.hidden_layers[id - 100])
            } else {
                None
            }
        } else if id < 300 {
            if id - 200 < self.outputs.len() {
                Some(&self.outputs[id - 200])
            } else {
                None
            }
        } else {
            None
        }
    }

    /// Replace the neuron at a resolving address; an address of 300 or above
    /// is ignored.
    pub fn set_neuron(&mut self, id: usize, neuron: Neuron)
        requires
            id >= 300 || resolves(old(self).model(), id as int),
        ensures
            final(self).model() == neuron_write(old(self).model(), id as int, neuron),
            old(self).wf() ==> final(self).wf(),
    {
        if id < 100 {
            self.inputs.set(id, neuron);
        } else if id < 200 {
            self.hidden_layers.set(id - 100, neuron);
        } else if id < 300 {
            self.outputs.set(id - 200, neuron);
        }
        proof {
            assert(self.model() =~= neuron_write(old(self).model(), id as int, neuron));
            if old(self).wf() {
                lemma_wf_same_lengths(old(self).model(), self.model());
            }
        }
    }

    /// Overwrite the value of the neuron at a resolving address; an address
    /// of 300 or above is ignored.
    pub fn set_neuron_value(&mut self, id: usize, new_value: i64)
        requires
            id >= 300 || resolves(old(self).model(), id as int),
        ensures
            final(self).model() == value_write(old(self).model(), id as int, new_value),
            old(self).wf() ==> final(self).wf(),
    {
        if id < 100 {
            let mut n: Neuron = self.inputs[id];
            n.value = new_value;
            self.inputs.set(id, n);
        } else if id < 200 {
            let mut n: Neuron = self.hidden_layers[id - 100];
            n.value = new_value;
            self.hidden_layers.set(id - 100, n);
        } else if id < 300 {
            let mut n: Neuron = self.outputs[id - 200];
            n.value = new_value;
            self.outputs.set(id - 200, n);
        }
        proof {
            assert(self.model() =~= value_write(old(self).model(), id as int, new_value));
            if old(self).wf() {
                lemma_wf_same_lengths(old(self).model(), self.model());
            }
        }
    }

    /// One propagation phase: apply, in order, every enabled connection
    /// whose source address lies in [lo, hi).
    fn propagate(&mut self, lo: usize, hi: usize)
        requires
            old(self).wf(),
        ensures
            final(self).model() == run_phase(
                old(self).model(),
                old(self).model().connections.len(),
                lo,
                hi,
            ),
    {
        let ghost m0 = self.model();
        let mut j: usize = 0;
        while j < self.connections.len()
            invariant
                model_wf(m0),
                j <= m0.connections.len(),
                self.model() == run_phase(m0, j as nat, lo, hi),
                self.connections@.len() == m0.connections.len(),
            decreases m0.connections.len() - j,
        {
            proof {
                lemma_run_phase_shape(m0, j as nat, lo, hi);
            }
            let c: Connection = self.connections[j];
            if c.enabled && lo <= c.from_id && c.from_id < hi {
                proof {
                    lemma_same_shape_resolves(m0, self.model(), c.from_id as int);
                    lemma_same_shape_resolves(m0, self.model(), c.to_id as int);
                }
                let fv: i64 = self.get_neuron(c.from_id).unwrap().value;
                let tv: i64 = self.get_neuron(c.to_id).unwrap().value;
                let nv: i64 = sat_add(sat_add(tv, mul_fp(fv, c.weight)), c.bias);
                self.set_neuron_value(c.to_id, nv);
            }
            j += 1;
            proof {
                assert(self.model() == run_phase(m0, j as nat, lo, hi));
            }
        }
    }

    /// The evaluation pass: clear every hidden and output value, accumulate
    /// each enabled input-sourced connection into its destination, activate
    /// the hidden pool, accumulate each enabled hidden-sourced connection,
    /// and activate the output pool. Evaluation is deterministic: the new
    /// neuron values are a function of the old model alone.
    pub fn feed_forward(&mut self)
        requires
            old(self).wf(),
        ensures
            final(self).model() == spec_feed_forward(old(self).model()),
            final(self).wf(),
    {
        let ghost orig = self.model();
        clear_values(&mut self.outputs);
        clear_values(&mut self.hidden_layers);
        let ghost m0 = self.model();
        proof {
            assert(m0 == (BrainModel {
                hidden_layers: reset_pool(orig.hidden_layers),
                outputs: reset_pool(orig.outputs),
                ..orig
            }));
            lemma_wf_same_lengths(orig, m0);
        }
        self.propagate(0, 100);
        let ghost m1 = self.model();
        apply_activations(&mut self.hidden_layers);
        let ghost m2 = self.model();
        proof {
            assert(m2 == (BrainModel { hidden_layers: activate_pool(m1.hidden_layers), ..m1 }));
            lemma_run_phase_shape(m0, m0.connections.len(), 0, 100);
            lemma_wf_same_lengths(m0, m2);
        }
        self.propagate(100, 200);
        let ghost m3 = self.model();
        apply_activations(&mut self.outputs);
        proof {
            assert(self.model() == (BrainModel { outputs: activate_pool(m3.outputs), ..m3 }));
            assert(self.model() == spec_feed_forward(orig));
            lemma_run_phase_shape(m2, m2.connections.len(), 100, 200);
            lemma_wf_same_lengths(m2, self.model());
        }
    }

    /// Overwrite the value of every input neuron of the given role. A brain
    /// whose input pool lacks the role is left unchanged.
    pub fn update_input(&mut self, input_neuron_type: NeuronType, value: i64)
        ensures
            final(self).model() == (BrainModel {
                inputs: update_inputs_seq(old(self).model().inputs, input_neuron_type, value),
                ..old(self).model()
            }),
            old(self).wf() ==> final(self).wf(),
    {
        let ghost orig = self.model();
        let mut i: usize = 0;
        while i < self.inputs.len()
            invariant
                i <= self.inputs.len(),
                self.inputs@.len() == orig.inputs.len(),
                self.outputs@ == orig.outputs,
                self.hidden_layers@ == orig.hidden_layers,
                self.connections@ == orig.connections,
                forall|k: int|
                    0 <= k < i ==> self.inputs@[k] == update_inputs_seq(
                        orig.inputs,
                        input_neuron_type,
                        value,
                    )[k],
                forall|k: int| i <= k < orig.inputs.len() ==> self.inputs@[k] == orig.inputs[k],
            decreases self.inputs.len() - i,
        {
            if self.inputs[i].neuron_type == input_neuron_type {
                let mut n: Neuron = self.inputs[i];
                n.value = value;
                self.inputs.set(i, n);
            }
            i += 1;
        }
        proof {
            assert(self.inputs@ =~= update_inputs_seq(orig.inputs, input_neuron_type, value));
            assert(self.model() =~= (BrainModel {
                inputs: update_inputs_seq(orig.inputs, input_neuron_type, value),
                ..orig
            }));
            if old(self).wf() {
                lemma_wf_same_lengths(orig, self.model());
            }
        }
    }

    /// The role of each input neuron, in pool order.
    pub fn get_input_types(&self) -> (r: Vec<NeuronType>)
        ensures
            r@ == self.model().inputs.map_values(|n: Neuron| n.neuron_type),
    {
        let mut input_types: Vec<NeuronType> = Vec::new();
        let mut i: usize = 0;
        while i < self.inputs.len()
            invariant
                i <= self.inputs.len(),
                input_types@.len() == i,
                forall|k: int| 0 <= k < i ==> input_types@[k] == self.inputs@[k].neuron_type,
            decreases self.inputs.len() - i,
        {
            input_types.push(self.inputs[i].neuron_type);
            i += 1;
        }
        proof {
            assert(input_types@ =~= self.model().inputs.map_values(|n: Neuron| n.neuron_type));
        }
        input_types
    }

    /// The turn-rate actuator value: the value of the last output neuron with
    /// the turn-rate role, or zero when there is none.
    pub fn get_rotation(&self) -> (r: i64)
        ensures
            r == spec_role_value(self.model().outputs, NeuronType::Rotate),
    {
        self.scan_output(NeuronType::Rotate)
    }

    /// The forward-thrust actuator value: the value of the last output neuron
    /// with the thrust role, or zero when there is none.
    pub fn get_forward_acceleration(&self) -> (r: i64)
        ensures
            r == spec_role_value(self.model().outputs, NeuronType::MoveForward),
    {
        self.scan_output(NeuronType::MoveForward)
    }

    /// The attack-drive actuator value: the value of the last output neuron
    /// with the attack role, or zero when there is none. Any capping of the
    /// drive before it is applied is the owning scheduler's policy, not the
    /// brain's.
    pub fn get_want_to_attack(&self) -> (r: i64)
        ensures
            r == spec_role_value(self.model().outputs, NeuronType::WantToAttack),
    {
        self.scan_output(NeuronType::WantToAttack)
    }

    /// The defend-drive actuator value, or zero when no output neuron has the
    /// defend role.
    pub fn get_want_to_defent(&self) -> (r: i64)
        ensures
            r == spec_role_value(self.model().outputs, NeuronType::WantToDefend),
    {
        self.scan_output(NeuronType::WantToDefend)
    }

    /// Scan the output pool for a role; the last match wins, zero when none
    /// matches.
    fn scan_output(&self, t: NeuronType) -> (r: i64)
        ensures
            r == spec_role_value(self.model().outputs, t),
    {
        let mut r: i64 = 0;
        let mut i: usize = 0;
        while i < self.outputs.len()
            invariant
                i <= self.outputs.len(),
                r == spec_role_value(self.outputs@.subrange(0, i as int), t),
            decreases self.outputs.len() - i,
        {
            proof {
                assert(self.outputs@.subrange(0, i + 1 as int).drop_last() =~= self.outputs@
                    .subrange(0, i as int));
                assert(self.outputs@.subrange(0, i + 1 as int).last() == self.outputs@[i as int]);
            }
            if self.outputs[i].neuron_type == t {
                r = self.outputs[i].value;
            }
            i += 1;
        }
        proof {
            assert(self.outputs@.subrange(0, self.outputs@.len() as int) =~= self.outputs@);
        }
        r
    }
}

} // verus!

//! The mutation operator: produce a child brain from a parent by randomized
//! structural insertion and parametric perturbation.

use vstd::prelude::*;

use crate::activation::ActivationFunction;
use crate::brain::{inert_inputs, resolves, Brain};
use crate::connection::Connection;
use crate::fixed::{fp_sat_add, sat_add, FP_ONE};
use crate::neuron::{is_input_role, Neuron, NeuronType};
use crate::rng::{rand_chance, rand_fp_range, rand_index};

verus! {

/// A connection that crosses a layer boundary of the two-phase model:
/// input to hidden, input to output, or hidden to output.
pub open spec fn crosses_layer(c: Connection) -> bool {
    ||| (c.from_id < 100 && 100 <= c.to_id < 300)
    ||| (100 <= c.from_id < 200 && 200 <= c.to_id < 300)
}

/// A layer-crossing connection whose endpoints both land below their pool's
/// length: input to hidden, input to output, or hidden to output.
pub open spec fn conn_endpoints_ok(
    c: Connection,
    n_inputs: int,
    n_hidden: int,
    n_outputs: int,
) -> bool {
    ||| (c.from_id < 100 && (c.from_id as int) < n_inputs && 100 <= c.to_id < 200 && (
    c.to_id as int) - 100 < n_hidden)
    ||| (c.from_id < 100 && (c.from_id as int) < n_inputs && 200 <= c.to_id < 300 && (
    c.to_id as int) - 200 < n_outputs)
    ||| (100 <= c.from_id < 200 && (c.from_id as int) - 100 < n_hidden && 200 <= c.to_id < 300 && (
    c.to_id as int) - 200 < n_outputs)
}

/// Bounded mutation of one scalar: the new value is the old one moved by a
/// single saturating step whose magnitude is at most `amount`.
pub open spec fn bounded_nudge(before: i64, after: i64, amount: i64) -> bool {
    exists|c: i64| -amount <= c <= amount && after == #[trigger] fp_sat_add(before, c)
}

/// A fresh copy of a neuron pool.
fn copy_neurons(v: &Vec<Neuron>) -> (r: Vec<Neuron>)
    ensures
        r@ == v@,
{
    let mut r: Vec<Neuron> = Vec::new();
    let mut i: usize = 0;
    while i < v.len()
        invariant
            i <= v@.len(),
            r@ == v@.subrange(0, i as int),
        decreases v@.len() - i,
    {
        r.push(v[i]);
        proof {
            assert(v@.subrange(0, i + 1 as int) =~= v@.subrange(0, i as int).push(v@[i as int]));
        }
        i += 1;
    }
    proof {
        assert(v@.subrange(0, v@.len() as int) =~= v@);
    }
    r
}

/// A fresh copy of a connection list.
fn copy_connections(v: &Vec<Connection>) -> (r: Vec<Connection>)
    ensures
        r@ == v@,
{
    let mut r: Vec<Connection> = Vec::new();
    let mut i: usize = 0;
    while i < v.len()
        invariant
            i <= v@.len(),
            r@ == v@.subrange(0, i as int),
        decreases v@.len() - i,
    {
        r.push(v[i]);
        proof {
            assert(v@.subrange(0, i + 1 as int) =~= v@.subrange(0, i as int).push(v@[i as int]));
        }
        i += 1;
    }
    proof {
        assert(v@.subrange(0, v@.len() as int) =~= v@);
    }
    r
}

/// How many leading neurons of a pool are addressable: a pool band spans one
/// hundred ids, so neurons past the hundredth can never be named by a
/// connection.
fn addressable(len: usize) -> (r: usize)
    ensures
        r <= len,
        r <= 100,
        len > 0 ==> r > 0,
{
    if len > 100 {
        100
    } else {
        len
    }
}

/// Append one freshly drawn neuron to the input pool or the hidden pool
/// (chosen at random), with a random activation function and a zero value.
fn insert_random_neuron(inputs: &mut Vec<Neuron>, hidden_layers: &mut Vec<Neuron>)
    ensures
        final(inputs)@.len() + final(hidden_layers)@.len() == old(inputs)@.len() + old(hidden_layers)@.len() + 1,
        final(inputs)@.len() <= old(inputs)@.len() + 1,
        final(hidden_layers)@.len() <= old(hidden_layers)@.len() + 1,
        final(inputs)@.subrange(0, old(inputs)@.len() as int) == old(inputs)@,
        final(hidden_layers)@.subrange(0, old(hidden_layers)@.len() as int) == old(hidden_layers)@,
        forall|i: int|
            old(inputs)@.len() <= i < final(inputs)@.len() ==> is_input_role(
                (#[trigger] final(inputs)@[i]).neuron_type,
            ) && final(inputs)@[i].value == 0,
        forall|i: int|
            old(hidden_layers)@.len() <= i < final(hidden_layers)@.len() ==> (
            #[trigger] final(hidden_layers)@[i]).neuron_type == NeuronType::Hidden && final(hidden_layers)@[i].value == 0,
{
    let pool: usize = rand_index(2);
    if pool == 0 {
        let n = Neuron {
            neuron_type: NeuronType::random_hidden_type(),
            activation_function: ActivationFunction::random(),
            value: 0,
        };
        hidden_layers.push(n);
        proof {
            assert(hidden_layers@.subrange(0, old(hidden_layers)@.len() as int) =~= old(hidden_layers)@);
            assert(inputs@.subrange(0, old(inputs)@.len() as int) =~= old(inputs)@);
        }
    } else {
        let n = Neuron {
            neuron_type: NeuronType::random_input_type(),
            activation_function: ActivationFunction::random(),
            value: 0,
        };
        inputs.push(n);
        proof {
            assert(hidden_layers@.subrange(0, old(hidden_layers)@.len() as int) =~= old(hidden_layers)@);
            assert(inputs@.subrange(0, old(inputs)@.len() as int) =~= old(inputs)@);
        }
    }
}

/// Append one freshly drawn connection that crosses a layer boundary of the
/// two-phase model: input to hidden, input to output, or hidden to output.
/// Weight and bias are drawn from [-1, 1), the edge starts enabled, and the
/// endpoints are drawn among the addressable neurons of each pool. A draw
/// that lands on an empty pool inserts nothing.
fn insert_random_connection(
    connections: &mut Vec<Connection>,
    n_inputs: usize,
    n_hidden: usize,
    n_outputs: usize,
)
    ensures
        old(connections)@.len() <= final(connections)@.len() <= old(connections)@.len() + 1,
        final(connections)@.subrange(0, old(connections)@.len() as int) == old(connections)@,
        forall|i: int|
            old(connections)@.len() <= i < final(connections)@.len() ==> conn_endpoints_ok(
                #[trigger] final(connections)@[i],
                n_inputs as int,
                n_hidden as int,
                n_outputs as int,
            ) && final(connections)@[i].enabled && -FP_ONE <= final(connections)@[i].weight
                < FP_ONE && -FP_ONE <= final(connections)@[i].bias < FP_ONE,
        n_inputs > 0 && n_hidden > 0 && n_outputs > 0 ==> final(connections)@.len() == old(connections)@.len() + 1,
{
    let ghost orig = connections@;
    let branch: usize = rand_index(2);
    if branch == 0 {
        if n_inputs > 0 {
            let from_a: usize = rand_index(addressable(n_inputs));
            let sub: usize = rand_index(2);
            if sub == 0 {
                if n_hidden > 0 {
                    let to_a: usize = rand_index(addressable(n_hidden)) + 100;
                    connections.push(
                        Connection {
                            from_id: from_a,
                            to_id: to_a,
                            weight: rand_fp_range(-FP_ONE, FP_ONE),
                            bias: rand_fp_range(-FP_ONE, FP_ONE),
                            enabled: true,
                        },
                    );
                }
            } else {
                if n_outputs > 0 {
                    let to_b: usize = rand_index(addressable(n_outputs)) + 200;
                    connections.push(
                        Connection {
                            from_id: from_a,
                            to_id: to_b,
                            weight: rand_fp_range(-FP_ONE, FP_ONE),
                            bias: rand_fp_range(-FP_ONE, FP_ONE),
                            enabled: true,
                        },
                    );
                }
            }
        }
    } else {
        if n_hidden > 0 && n_outputs > 0 {
            let from_b: usize = rand_index(addressable(n_hidden)) + 100;
            let to_b: usize = rand_index(addressable(n_outputs)) + 200;
            connections.push(
                Connection {
                    from_id: from_b,
                    to_id: to_b,
                    weight: rand_fp_range(-FP_ONE, FP_ONE),
                    bias: rand_fp_range(-FP_ONE, FP_ONE),
                    enabled: true,
                },
            );
        }
    }
    proof {
        assert(connections@.subrange(0, orig.len() as int) =~= orig);
    }
}

/// Perturb every connection independently: with the given chance each,
/// nudge the weight by a uniform draw from [-amount, amount), nudge the bias
/// the same way, and flip the enabled toggle. Sums saturate. A nonpositive
/// amount leaves weights and biases alone.
fn mutate_connections(connections: &mut Vec<Connection>, mutation_chance: i64, mutation_amount: i64)
    ensures
        final(connections)@.len() == old(connections)@.len(),
        forall|i: int|
            0 <= i < old(connections)@.len() ==> (#[trigger] final(connections)@[i]).from_id == old(connections)@[i].from_id && final(connections)@[i].to_id == old(connections)@[i].to_id,
        mutation_amount >= 0 ==> forall|i: int|
            0 <= i < old(connections)@.len() ==> bounded_nudge(
                old(connections)@[i].weight,
                (#[trigger] final(connections)@[i]).weight,
                mutation_amount,
            ) && bounded_nudge(
                old(connections)@[i].bias,
                final(connections)@[i].bias,
                mutation_amount,
            ),
        mutation_chance <= 0 ==> final(connections)@ == old(connections)@,
{
    let ghost orig = connections@;
    let mut j: usize = 0;
    while j < connections.len()
        invariant
            connections@.len() == orig.len(),
            j <= orig.len(),
            forall|k: int|
                0 <= k < orig.len() ==> (#[trigger] connections@[k]).from_id == orig[k].from_id
                    && connections@[k].to_id == orig[k].to_id,
            mutation_amount >= 0 ==> forall|k: int|
                0 <= k < j ==> bounded_nudge(
                    orig[k].weight,
                    (#[trigger] connections@[k]).weight,
                    mutation_amount,
                ) && bounded_nudge(orig[k].bias, connections@[k].bias, mutation_amount),
            forall|k: int| j <= k < orig.len() ==> connections@[k] == orig[k],
            mutation_chance <= 0 ==> connections@ == orig,
        decreases orig.len() - j,
    {
        let mut c: Connection = connections[j];
        if rand_chance() < mutation_chance {
            if mutation_amount > 0 {
                let change: i64 = rand_fp_range(-mutation_amount, mutation_amount);
                c.weight = sat_add(c.weight, change);
            }
        }
        if rand_chance() < mutation_chance {
            if mutation_amount > 0 {
                let change: i64 = rand_fp_range(-mutation_amount, mutation_amount);
                c.bias = sat_add(c.bias, change);
            }
        }
        if rand_chance() < mutation_chance {
            c.enabled = !c.enabled;
        }
        connections.set(j, c);
        proof {
            if mutation_amount >= 0 {
                let w0 = orig[j as int].weight;
                let b0 = orig[j as int].bias;
                if c.weight == w0 {
                    assert(c.weight == fp_sat_add(w0, 0));
                }
                if c.bias == b0 {
                    assert(c.bias == fp_sat_add(b0, 0));
                }
            }
        }
        j += 1;
        proof {
            if mutation_chance <= 0 {
                assert(connections@ =~= orig);
            }
        }
    }
}

/// Replace each hidden neuron's activation function, independently with the
/// given chance, by a freshly drawn one. Roles and values stay.
fn mutate_activations(hidden_layers: &mut Vec<Neuron>, mutation_chance: i64)
    ensures
        final(hidden_layers)@.len() == old(hidden_layers)@.len(),
        forall|i: int|
            0 <= i < old(hidden_layers)@.len() ==> (#[trigger] final(hidden_layers)@[i]).neuron_type
                == old(hidden_layers)@[i].neuron_type && final(hidden_layers)@[i].value == old(hidden_layers)@[i].value,
        mutation_chance <= 0 ==> final(hidden_layers)@ == old(hidden_layers)@,
{
    let ghost orig = hidden_layers@;
    let mut j: usize = 0;
    while j < hidden_layers.len()
        invariant
            hidden_layers@.len() == orig.len(),
            j <= orig.len(),
            forall|k: int|
                0 <= k < orig.len() ==> (#[trigger] hidden_layers@[k]).neuron_type
                    == orig[k].neuron_type && hidden_layers@[k].value == orig[k].value,
            forall|k: int| j <= k < orig.len() ==> hidden_layers@[k] == orig[k],
            mutation_chance <= 0 ==> hidden_layers@ == orig,
        decreases orig.len() - j,
    {
        if rand_chance() < mutation_chance {
            let mut n: Neuron = hidden_layers[j];
            n.activation_function = ActivationFunction::random();
            hidden_layers.set(j, n);
        }
        j += 1;
        proof {
            if mutation_chance <= 0 {
                assert(hidden_layers@ =~= orig);
            }
        }
    }
}

impl Brain {
    /// Produce an independent child brain from this parent, leaving the
    /// parent untouched. In order: with `insertion_chance`, append one random
    /// neuron to the input or hidden pool; with `insertion_chance` again
    /// (drawn independently), append one random layer-crossing connection;
    /// then perturb every connection and every hidden activation function,
    /// each with `mutation_chance`. Chances and amounts are fixed-point
    /// values, `FP_ONE` standing for certainty.
    ///
    /// `deletion_chance` is accepted but reserved: no deletion is performed,
    /// so the child never has fewer neurons or connections than the parent.
    ///
    /// The contract carries the addressing invariant to the child: every
    /// connection endpoint of the child resolves whenever the parent's do.
    #[allow(unused_variables)]
    pub fn new_mutated_brain(
        &self,
        mutation_chance: i64,
        mutation_amount: i64,
        insertion_chance: i64,
        deletion_chance: i64,
    ) -> (child: Brain)
        requires
            self.wf(),
        ensures
            child.wf(),
            child.outputs@ == self.outputs@,
            self.inputs@.len() <= child.inputs@.len() <= self.inputs@.len() + 1,
            forall|i: int| 0 <= i < self.inputs@.len() ==> #[trigger] child.inputs@[i] == self.inputs@[i],
            self.hidden_layers@.len() <= child.hidden_layers@.len() <= self.hidden_layers@.len()
                + 1,
            forall|i: int|
                0 <= i < self.hidden_layers@.len() ==> (
                #[trigger] child.hidden_layers@[i]).neuron_type
                    == self.hidden_layers@[i].neuron_type && child.hidden_layers@[i].value
                    == self.hidden_layers@[i].value,
            forall|i: int|
                self.hidden_layers@.len() <= i < child.hidden_layers@.len() ==> (
                #[trigger] child.hidden_layers@[i]).neuron_type == NeuronType::Hidden
                    && child.hidden_layers@[i].value == 0,
            forall|i: int|
                self.inputs@.len() <= i < child.inputs@.len() ==> is_input_role(
                    (#[trigger] child.inputs@[i]).neuron_type,
                ) && child.inputs@[i].value == 0,
            self.connections@.len() <= child.connections@.len() <= self.connections@.len() + 1,
            forall|i: int|
                0 <= i < self.connections@.len() ==> (#[trigger] child.connections@[i]).from_id
                    == self.connections@[i].from_id && child.connections@[i].to_id
                    == self.connections@[i].to_id,
            mutation_amount >= 0 ==> forall|i: int|
                0 <= i < self.connections@.len() ==> bounded_nudge(
                    self.connections@[i].weight,
                    (#[trigger] child.connections@[i]).weight,
                    mutation_amount,
                ) && bounded_nudge(
                    self.connections@[i].bias,
                    child.connections@[i].bias,
                    mutation_amount,
                ),
            forall|i: int|
                self.connections@.len() <= i < child.connections@.len() ==> crosses_layer(
                    #[trigger] child.connections@[i],
                ) && resolves(child.model(), child.connections@[i].from_id as int) && resolves(
                    child.model(),
                    child.connections@[i].to_id as int,
                ),
            mutation_chance <= 0 ==> forall|i: int|
                self.connections@.len() <= i < child.connections@.len() ==> (
                #[trigger] child.connections@[i]).enabled && -FP_ONE <= child.connections@[i].weight
                    < FP_ONE && -FP_ONE <= child.connections@[i].bias < FP_ONE,
            inert_inputs(self.model()) ==> inert_inputs(child.model()),
            child.inputs@.len() + child.hidden_layers@.len() + child.outputs@.len()
                <= self.inputs@.len() + self.hidden_layers@.len() + self.outputs@.len() + 1,
            insertion_chance >= FP_ONE ==> child.inputs@.len() + child.hidden_layers@.len()
                + child.outputs@.len() == self.inputs@.len() + self.hidden_layers@.len()
                + self.outputs@.len() + 1,
            insertion_chance >= FP_ONE && self.inputs@.len() > 0 && self.hidden_layers@.len() > 0
                && self.outputs@.len() > 0 ==> child.connections@.len() == self.connections@.len()
                + 1,
            insertion_chance <= 0 ==> child.inputs@.len() == self.inputs@.len()
                && child.hidden_layers@.len() == self.hidden_layers@.len()
                && child.connections@.len() == self.connections@.len(),
            mutation_chance <= 0 ==> (forall|i: int|
                0 <= i < self.connections@.len() ==> (#[trigger] child.connections@[i])
                    == self.connections@[i]) && (forall|i: int|
                0 <= i < self.hidden_layers@.len() ==> (#[trigger] child.hidden_layers@[i])
                    == self.hidden_layers@[i]),
            mutation_chance <= 0 && insertion_chance <= 0 ==> child.model() == self.model(),
    {
        let ghost parent = self.model();
        let mut inputs: Vec<Neuron> = copy_neurons(&self.inputs);
        let mut hidden_layers: Vec<Neuron> = copy_neurons(&self.hidden_layers);
        let outputs: Vec<Neuron> = copy_neurons(&self.outputs);
        let mut connections: Vec<Connection> = copy_connections(&self.connections);

        if rand_chance() < insertion_chance {
            insert_random_neuron(&mut inputs, &mut hidden_layers);
        }
        let ghost inputs1 = inputs@;
        let ghost hidden1 = hidden_layers@;
        if rand_chance() < insertion_chance {
            insert_random_connection(
                &mut connections,
                inputs.len(),
                hidden_layers.len(),
                outputs.len(),
            );
        }
        let ghost conns1 = connections@;
        mutate_connections(&mut connections, mutation_chance, mutation_amount);
        mutate_activations(&mut hidden_layers, mutation_chance);

        let child = Brain { inputs, outputs, hidden_layers, connections };
        proof {
            let cm = child.model();
            let n_parent = parent.connections.len() as int;
            assert(cm.inputs == inputs1);
            assert(cm.inputs.len() >= parent.inputs.len());
            assert(cm.hidden_layers.len() == hidden1.len() >= parent.hidden_layers.len());
            assert(cm.outputs == parent.outputs);
            assert forall|i: int| 0 <= i < n_parent implies #[trigger] conns1[i]
                == parent.connections[i] by {
                assert(conns1.subrange(0, n_parent)[i] == conns1[i]);
            }
            assert forall|i: int| 0 <= i < cm.connections.len() implies resolves(
                cm,
                (#[trigger] cm.connections[i]).from_id as int,
            ) && resolves(cm, cm.connections[i].to_id as int) by {
                assert(cm.connections[i].from_id == conns1[i].from_id && cm.connections[i].to_id
                    == conns1[i].to_id);
                if i < n_parent {
                    assert(resolves(parent, (#[trigger] parent.connections[i]).from_id as int));
                    assert(resolves(parent, parent.connections[i].to_id as int));
                } else {
                    assert(conn_endpoints_ok(
                        conns1[i],
                        inputs1.len() as int,
                        hidden1.len() as int,
                        parent.outputs.len() as int,
                    ));
                }
            }
            if inert_inputs(parent) {
                assert forall|i: int| 0 <= i < cm.connections.len() implies (
                #[trigger] cm.connections[i]).to_id >= 100 by {
                    assert(cm.connections[i].to_id == conns1[i].to_id);
                    if i < n_parent {
                        assert((#[trigger] parent.connections[i]).to_id >= 100);
                    } else {
                        assert(conn_endpoints_ok(
                            conns1[i],
                            inputs1.len() as int,
                            hidden1.len() as int,
                            parent.outputs.len() as int,
                        ));
                    }
                }
            }
            assert forall|i: int| 0 <= i < parent.inputs.len() implies #[trigger] cm.inputs[i]
                == parent.inputs[i] by {
                assert(inputs1.subrange(0, parent.inputs.len() as int)[i] == inputs1[i]);
            }
            assert forall|i: int|
                n_parent <= i < cm.connections.len() implies crosses_layer(
                #[trigger] cm.connections[i],
            ) by {
                assert(conn_endpoints_ok(
                    conns1[i],
                    inputs1.len() as int,
                    hidden1.len() as int,
                    parent.outputs.len() as int,
                ));
                assert(cm.connections[i].from_id == conns1[i].from_id && cm.connections[i].to_id
                    == conns1[i].to_id);
            }
            if mutation_chance <= 0 {
                assert(child.connections@ == conns1);
            }
            if mutation_chance <= 0 && insertion_chance <= 0 {
                assert(child.model() =~= parent);
            }
        }
        child
    }
}

} // verus!

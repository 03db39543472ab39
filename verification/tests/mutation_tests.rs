//! The mutation operator: growth, no-ops, and the addressing invariant.

use craber_brain::{Brain, NeuronType, FP_ONE};

fn total_neurons(b: &Brain) -> usize {
    b.inputs.len() + b.hidden_layers.len() + b.outputs.len()
}

/// Every connection endpoint must name an existing neuron.
fn addresses_resolve(b: &Brain) -> bool {
    b.connections
        .iter()
        .all(|c| b.get_neuron(c.from_id).is_some() && b.get_neuron(c.to_id).is_some())
}

#[test]
fn mutation_with_zero_chances_is_an_identity() {
    let parent = Brain::default();
    let child = parent.new_mutated_brain(0, 0, 0, 0);
    assert_eq!(child, parent);
}

#[test]
fn mutation_with_zero_chances_is_an_identity_after_growth() {
    let mut parent = Brain::default();
    for _ in 0..10 {
        parent = parent.new_mutated_brain(FP_ONE, FP_ONE / 2, FP_ONE, 0);
    }
    let child = parent.new_mutated_brain(0, 0, 0, 0);
    assert_eq!(child, parent);
}

#[test]
fn mutation_never_mutates_the_parent() {
    let parent = Brain::default();
    let copy = parent.clone();
    let _ = parent.new_mutated_brain(FP_ONE, FP_ONE, FP_ONE, FP_ONE);
    assert_eq!(parent, copy);
}

#[test]
fn certain_insertion_grows_by_exactly_one() {
    let mut b = Brain::default();
    for _ in 0..25 {
        let neurons_before = total_neurons(&b);
        let conns_before = b.connections.len();
        let child = b.new_mutated_brain(0, 0, FP_ONE, 0);
        assert_eq!(total_neurons(&child), neurons_before + 1);
        assert_eq!(child.connections.len(), conns_before + 1);
        b = child;
    }
}

#[test]
fn zero_insertion_chance_never_grows() {
    let mut b = Brain::default();
    for _ in 0..10 {
        let neurons_before = total_neurons(&b);
        let conns_before = b.connections.len();
        let child = b.new_mutated_brain(FP_ONE, FP_ONE, 0, 0);
        assert_eq!(total_neurons(&child), neurons_before);
        assert_eq!(child.connections.len(), conns_before);
        b = child;
    }
}

#[test]
fn addresses_resolve_after_any_sequence_of_mutations() {
    let mut b = Brain::default();
    assert!(addresses_resolve(&b));
    for _ in 0..60 {
        b = b.new_mutated_brain(FP_ONE / 2, FP_ONE, FP_ONE, FP_ONE / 2);
        assert!(addresses_resolve(&b));
    }
}

#[test]
fn inserted_connections_cross_a_layer_boundary() {
    for _ in 0..40 {
        let parent = Brain::default();
        let child = parent.new_mutated_brain(0, 0, FP_ONE, 0);
        let c = child.connections.last().unwrap();
        let from_input = c.from_id < 100;
        let from_hidden = (100..200).contains(&c.from_id);
        let to_hidden = (100..200).contains(&c.to_id);
        let to_output = (200..300).contains(&c.to_id);
        assert!((from_input && (to_hidden || to_output)) || (from_hidden && to_output));
        assert!(c.enabled);
        assert!(-FP_ONE <= c.weight && c.weight < FP_ONE);
        assert!(-FP_ONE <= c.bias && c.bias < FP_ONE);
    }
}

#[test]
fn structural_insertion_appends_without_touching_existing_neurons() {
    let parent = Brain::default();
    let child = parent.new_mutated_brain(0, 0, FP_ONE, 0);
    for i in 0..parent.inputs.len() {
        assert_eq!(child.inputs[i], parent.inputs[i]);
    }
    for i in 0..parent.hidden_layers.len() {
        assert_eq!(child.hidden_layers[i], parent.hidden_layers[i]);
    }
    assert_eq!(child.outputs, parent.outputs);
    // an appended neuron starts at zero with a role fit for its pool
    if child.inputs.len() > parent.inputs.len() {
        let n = child.inputs.last().unwrap();
        assert_eq!(n.value, 0);
        assert!(n.neuron_type != NeuronType::Hidden);
    } else {
        let n = child.hidden_layers.last().unwrap();
        assert_eq!(n.value, 0);
        assert_eq!(n.neuron_type, NeuronType::Hidden);
    }
}

#[test]
fn parametric_mutation_keeps_the_wiring() {
    let mut parent = Brain::default();
    for _ in 0..5 {
        parent = parent.new_mutated_brain(0, 0, FP_ONE, 0);
    }
    let child = parent.new_mutated_brain(FP_ONE, FP_ONE / 10, 0, 0);
    assert_eq!(child.connections.len(), parent.connections.len());
    for (pc, cc) in parent.connections.iter().zip(child.connections.iter()) {
        assert_eq!(pc.from_id, cc.from_id);
        assert_eq!(pc.to_id, cc.to_id);
        // a certain chance flips every enabled toggle
        assert_eq!(cc.enabled, !pc.enabled);
        // each perturbation stays within the mutation amount
        assert!((cc.weight - pc.weight).abs() <= FP_ONE / 10);
        assert!((cc.bias - pc.bias).abs() <= FP_ONE / 10);
    }
}

#[test]
fn zero_amount_keeps_weights_and_biases() {
    let parent = Brain::default();
    let child = parent.new_mutated_brain(FP_ONE, 0, 0, 0);
    for (pc, cc) in parent.connections.iter().zip(child.connections.iter()) {
        assert_eq!(pc.weight, cc.weight);
        assert_eq!(pc.bias, cc.bias);
    }
}

#[test]
fn random_roles_fit_their_pools() {
    for _ in 0..100 {
        let t = NeuronType::random_input_type();
        assert!(matches!(
            t,
            NeuronType::AlwaysOn
                | NeuronType::CraberHealth
                | NeuronType::CraberSpeed
                | NeuronType::NearestFoodAngle
                | NeuronType::NearestFoodDistance
                | NeuronType::NearestCraberAngle
                | NeuronType::NearestCraberDistance
                | NeuronType::NearestWallAngle
                | NeuronType::NearestWallDistance
                | NeuronType::BrainInterval
        ));
        let t = NeuronType::random_output_type();
        assert!(matches!(
            t,
            NeuronType::MoveForward
                | NeuronType::Rotate
                | NeuronType::ModifyBrainInterval
                | NeuronType::WantToMate
        ));
        assert_eq!(NeuronType::random_hidden_type(), NeuronType::Hidden);
    }
}

#[test]
fn mutated_brains_still_evaluate() {
    let mut b = Brain::default();
    for _ in 0..30 {
        b = b.new_mutated_brain(FP_ONE / 4, FP_ONE, FP_ONE, 0);
        b.update_input(NeuronType::NearestFoodAngle, 250_000);
        b.feed_forward();
        let _ = b.get_rotation();
    }
}

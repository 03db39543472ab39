//! Addressing, input injection, evaluation, and output extraction.

use craber_brain::{ActivationFunction, Brain, Connection, Neuron, NeuronType, FP_ONE, FP_PI};

#[test]
fn default_topology_shape() {
    let b = Brain::default();
    assert_eq!(b.inputs.len(), 5);
    assert_eq!(b.outputs.len(), 3);
    assert_eq!(b.hidden_layers.len(), 1);
    assert_eq!(b.connections.len(), 5);
    assert_eq!(b.inputs[0].neuron_type, NeuronType::AlwaysOn);
    assert_eq!(b.inputs[0].value, FP_ONE);
    assert_eq!(b.outputs[0].neuron_type, NeuronType::MoveForward);
    assert_eq!(b.outputs[1].neuron_type, NeuronType::Rotate);
    assert_eq!(b.outputs[2].neuron_type, NeuronType::WantToAttack);
    assert_eq!(b.hidden_layers[0].neuron_type, NeuronType::Hidden);
    let types = b.get_input_types();
    assert_eq!(
        types,
        vec![
            NeuronType::AlwaysOn,
            NeuronType::NearestFoodAngle,
            NeuronType::NearestFoodDistance,
            NeuronType::NearestCraberAngle,
            NeuronType::NearestCraberDistance,
        ]
    );
}

#[test]
fn addressing_resolves_by_band() {
    let b = Brain::default();
    assert_eq!(b.get_neuron(0).unwrap().neuron_type, NeuronType::AlwaysOn);
    assert_eq!(b.get_neuron(100).unwrap().neuron_type, NeuronType::Hidden);
    assert_eq!(b.get_neuron(200).unwrap().neuron_type, NeuronType::MoveForward);
    assert!(b.get_neuron(5).is_none());
    assert!(b.get_neuron(101).is_none());
    assert!(b.get_neuron(203).is_none());
    assert!(b.get_neuron(300).is_none());
    assert!(b.get_neuron(usize::MAX).is_none());
}

#[test]
fn set_neuron_writes_through_the_address() {
    let mut b = Brain::default();
    let n = Neuron {
        neuron_type: NeuronType::Hidden,
        activation_function: ActivationFunction::Tanh,
        value: 7,
    };
    b.set_neuron(100, n);
    assert_eq!(*b.get_neuron(100).unwrap(), n);
    // addresses of 300 and above are ignored
    let before = b.clone();
    b.set_neuron(300, n);
    assert_eq!(b, before);
}

#[test]
fn set_neuron_value_writes_only_the_value() {
    let mut b = Brain::default();
    b.set_neuron_value(201, 123);
    let n = b.get_neuron(201).unwrap();
    assert_eq!(n.value, 123);
    assert_eq!(n.neuron_type, NeuronType::Rotate);
    let before = b.clone();
    b.set_neuron_value(400, 5);
    assert_eq!(b, before);
}

#[test]
fn update_input_overwrites_every_matching_role() {
    let mut b = Brain::default();
    b.inputs.push(Neuron {
        neuron_type: NeuronType::NearestFoodAngle,
        activation_function: ActivationFunction::Identity,
        value: 0,
    });
    b.update_input(NeuronType::NearestFoodAngle, 250_000);
    assert_eq!(b.inputs[1].value, 250_000);
    assert_eq!(b.inputs[5].value, 250_000);
    assert_eq!(b.inputs[0].value, FP_ONE);
}

#[test]
fn update_input_without_the_role_changes_nothing() {
    let mut b = Brain::default();
    let before = b.clone();
    b.update_input(NeuronType::NearestWallAngle, 99);
    assert_eq!(b, before);
}

#[test]
fn end_to_end_default_scenario() {
    // bias = 1.0, food angle = 0.5; bias -> thrust (w = 1), food angle ->
    // hidden (w = 1), hidden -> turn (w = 4.5); identity activations.
    let mut b = Brain::default();
    b.update_input(NeuronType::NearestFoodAngle, 500_000);
    b.feed_forward();
    assert_eq!(b.get_neuron(100).unwrap().value, 500_000);
    assert_eq!(b.get_rotation(), 2_250_000);
    assert_eq!(b.get_forward_acceleration(), FP_ONE);
    // the default wiring also feeds half the bias into the attack drive
    assert_eq!(b.get_want_to_attack(), 500_000);
}

#[test]
fn angle_center_scenario() {
    // a hidden neuron with the angle-centering activation, fed 2*pi, holds pi
    let mut b = Brain::default();
    b.set_neuron(
        100,
        Neuron {
            neuron_type: NeuronType::Hidden,
            activation_function: ActivationFunction::AngleCenter,
            value: 0,
        },
    );
    b.update_input(NeuronType::NearestFoodAngle, 2 * FP_PI);
    b.update_input(NeuronType::NearestCraberAngle, 0);
    b.feed_forward();
    assert_eq!(b.get_neuron(100).unwrap().value, FP_PI);
}

#[test]
fn feed_forward_is_deterministic() {
    let mut b = Brain::default();
    b.update_input(NeuronType::NearestFoodAngle, 123_456);
    b.feed_forward();
    let first = (b.get_rotation(), b.get_forward_acceleration(), b.get_want_to_attack());
    for _ in 0..5 {
        b.feed_forward();
        let again = (b.get_rotation(), b.get_forward_acceleration(), b.get_want_to_attack());
        assert_eq!(again, first);
    }
}

#[test]
fn feed_forward_resets_instead_of_accumulating() {
    let mut b = Brain::default();
    b.update_input(NeuronType::NearestFoodAngle, 300_000);
    b.feed_forward();
    let after_first = b.clone();
    b.feed_forward();
    assert_eq!(b, after_first);
}

#[test]
fn disabled_connections_are_skipped() {
    let mut b = Brain::default();
    b.connections[0].enabled = false;
    b.update_input(NeuronType::NearestFoodAngle, 500_000);
    b.feed_forward();
    assert_eq!(b.get_forward_acceleration(), 0);
    assert_eq!(b.get_rotation(), 2_250_000);
}

#[test]
fn out_of_phase_edges_never_fire() {
    // an output-to-hidden edge crosses no boundary of the two-phase pass
    let mut plain = Brain::default();
    let mut looped = Brain::default();
    looped.connections.push(Connection {
        from_id: 200,
        to_id: 100,
        weight: FP_ONE,
        bias: FP_ONE,
        enabled: true,
    });
    plain.update_input(NeuronType::NearestFoodAngle, 500_000);
    looped.update_input(NeuronType::NearestFoodAngle, 500_000);
    plain.feed_forward();
    looped.feed_forward();
    assert_eq!(plain.get_rotation(), looped.get_rotation());
    assert_eq!(plain.get_neuron(100).unwrap().value, looped.get_neuron(100).unwrap().value);
}

#[test]
fn connection_bias_is_added_once_per_edge() {
    let mut b = Brain::default();
    b.connections[0].bias = 250_000;
    b.feed_forward();
    assert_eq!(b.get_forward_acceleration(), FP_ONE + 250_000);
}

#[test]
fn absent_output_roles_read_as_zero() {
    let mut b = Brain::default();
    b.feed_forward();
    assert_eq!(b.get_want_to_defent(), 0);
}

#[test]
fn want_to_attack_returns_the_stored_value() {
    // accessors hand back the stored value as is; any capping policy belongs
    // to the owning scheduler
    let mut b = Brain::default();
    b.set_neuron_value(202, 25_000_000);
    assert_eq!(b.get_want_to_attack(), 25_000_000);
    b.set_neuron_value(202, -3_000_000);
    assert_eq!(b.get_want_to_attack(), -3_000_000);
}

#[test]
fn last_matching_output_wins() {
    let mut b = Brain::default();
    b.outputs.push(Neuron {
        neuron_type: NeuronType::Rotate,
        activation_function: ActivationFunction::Identity,
        value: 0,
    });
    b.set_neuron_value(201, 111);
    b.set_neuron_value(203, 222);
    assert_eq!(b.get_rotation(), 222);
}

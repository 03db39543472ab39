//! Neuron roles and the neuron value container.

use vstd::prelude::*;

use crate::activation::ActivationFunction;
use crate::rng::rand_index;

verus! {

/// The semantic role of a neuron: what it senses, or that it is hidden, or
/// what it actuates.
#[derive(PartialEq, Eq, Hash, Clone, Copy, Debug, Structural)]
pub enum NeuronType {
    /// Sensor: constant bias signal, always one.
    AlwaysOn,
    /// Sensor: the agent's own health.
    CraberHealth,
    /// Sensor: the agent's own speed.
    CraberSpeed,
    /// Sensor: angle toward the nearest food item.
    NearestFoodAngle,
    /// Sensor: distance to the nearest food item.
    NearestFoodDistance,
    /// Sensor: angle toward the nearest peer agent.
    NearestCraberAngle,
    /// Sensor: distance to the nearest peer agent.
    NearestCraberDistance,
    /// Sensor: angle toward the nearest wall.
    NearestWallAngle,
    /// Sensor: distance to the nearest wall.
    NearestWallDistance,
    /// Sensor: the interval at which the brain is being sampled.
    BrainInterval,
    /// The single generic hidden role.
    Hidden,
    /// Actuator: forward thrust.
    MoveForward,
    /// Actuator: turn rate.
    Rotate,
    /// Actuator: adjustment of the brain sampling interval.
    ModifyBrainInterval,
    /// Actuator: desire to mate.
    WantToMate,
    /// Actuator: desire to attack.
    WantToAttack,
    /// Actuator: desire to defend.
    WantToDefend,
}

/// The sensor roles: those an input neuron may carry.
pub open spec fn is_input_role(t: NeuronType) -> bool {
    ||| t == NeuronType::AlwaysOn
    ||| t == NeuronType::CraberHealth
    ||| t == NeuronType::CraberSpeed
    ||| t == NeuronType::NearestFoodAngle
    ||| t == NeuronType::NearestFoodDistance
    ||| t == NeuronType::NearestCraberAngle
    ||| t == NeuronType::NearestCraberDistance
    ||| t == NeuronType::NearestWallAngle
    ||| t == NeuronType::NearestWallDistance
    ||| t == NeuronType::BrainInterval
}

/// The actuator roles: those an output neuron may carry.
pub open spec fn is_output_role(t: NeuronType) -> bool {
    ||| t == NeuronType::MoveForward
    ||| t == NeuronType::Rotate
    ||| t == NeuronType::ModifyBrainInterval
    ||| t == NeuronType::WantToMate
    ||| t == NeuronType::WantToAttack
    ||| t == NeuronType::WantToDefend
}

impl NeuronType {
    /// Draw a sensor role uniformly from the ten sensor roles.
    pub fn random_input_type() -> (t: NeuronType)
        ensures
            is_input_role(t),
    {
        let k: usize = rand_index(10);
        match k {
            0 => NeuronType::AlwaysOn,
            1 => NeuronType::CraberHealth,
            2 => NeuronType::CraberSpeed,
            3 => NeuronType::NearestFoodAngle,
            4 => NeuronType::NearestFoodDistance,
            5 => NeuronType::NearestCraberAngle,
            6 => NeuronType::NearestCraberDistance,
            7 => NeuronType::NearestWallAngle,
            8 => NeuronType::NearestWallDistance,
            _ => NeuronType::BrainInterval,
        }
    }

    /// The one hidden role.
    pub fn random_hidden_type() -> (t: NeuronType)
        ensures
            t == NeuronType::Hidden,
    {
        NeuronType::Hidden
    }

    /// Draw an actuator role uniformly from the four that mutation hands out.
    /// The attack and defend drives are never drawn; a brain carries them only
    /// where a hand-authored topology placed them.
    pub fn random_output_type() -> (t: NeuronType)
        ensures
            t == NeuronType::MoveForward || t == NeuronType::Rotate || t
                == NeuronType::ModifyBrainInterval || t == NeuronType::WantToMate,
    {
        let k: usize = rand_index(4);
        match k {
            0 => NeuronType::MoveForward,
            1 => NeuronType::Rotate,
            2 => NeuronType::ModifyBrainInterval,
            _ => NeuronType::WantToMate,
        }
    }
}

/// A typed scalar register: a role, an activation function, and the current
/// fixed-point signal value.
#[derive(PartialEq, Eq, Clone, Copy, Debug, Structural)]
pub struct Neuron {
    /// The neuron's semantic role.
    pub neuron_type: NeuronType,
    /// The transform applied to the accumulated value during evaluation.
    pub activation_function: ActivationFunction,
    /// The current signal value, overwritten by every evaluation pass.
    pub value: i64,
}

} // verus!

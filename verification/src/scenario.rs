//! Scenario data: an ordered sequence of effects with repeat controls, and
//! the per-step output record. Loading from disk and playing against a live
//! driver are I/O and live outside the library.

use crate::effects::ConditionType;
use crate::effects::Effect;
use crate::effects::WaveType;
use vstd::prelude::*;

verus! {

/// Scenario step - an effect to play.
#[derive(Debug, Clone)]
pub struct ScenarioStep {
    /// Effect
    pub effect: Effect,
}

/// Playback scenario.
#[derive(Debug, Clone)]
pub struct Scenario {
    /// Scenario name
    pub name: String,
    /// Description
    pub description: String,
    /// Loop forever
    pub loop_forever: bool,
    /// Repeat count (if not loop_forever)
    pub repeat_count: u32,
    /// Scenario steps
    pub steps: Vec<ScenarioStep>,
}

/// Default repeat count of a scenario.
pub fn default_repeat_count() -> (r: u32)
    ensures
        r == 1u32,
{
    1
}

/// Captured output for a single step.
#[derive(Debug, Clone)]
pub struct StepOutput {
    pub step_index: usize,
    pub step_name: String,
    pub packets: Vec<String>,
}

/// The display label of an effect variant.
pub open spec fn spec_effect_label(e: Effect) -> Seq<char> {
    match e {
        Effect::Constant { .. } => "Constant force"@,
        Effect::Periodic { effect, .. } => match effect.wave_type {
            WaveType::Sine => "Periodic (sine)"@,
            WaveType::Square => "Periodic (square)"@,
            WaveType::Triangle => "Periodic (triangle)"@,
            WaveType::SawtoothUp => "Periodic (sawtooth up)"@,
            WaveType::SawtoothDown => "Periodic (sawtooth down)"@,
        },
        Effect::Ramp { .. } => "Ramp (linear change)"@,
        Effect::Condition { effect, .. } => match effect.condition_type {
            ConditionType::Spring => "Condition (spring)"@,
            ConditionType::Damper => "Condition (damper)"@,
            ConditionType::Friction => "Condition (friction)"@,
            ConditionType::Inertia => "Condition (inertia)"@,
        },
    }
}

/// The display label used for a step's effect in run logs and step headers.
pub fn effect_label(effect: &Effect) -> (r: &'static str)
    ensures
        r@ == spec_effect_label(*effect),
{
    match effect {
        Effect::Constant { .. } => "Constant force",
        Effect::Periodic { effect, .. } => match effect.wave_type {
            WaveType::Sine => "Periodic (sine)",
            WaveType::Square => "Periodic (square)",
            WaveType::Triangle => "Periodic (triangle)",
            WaveType::SawtoothUp => "Periodic (sawtooth up)",
            WaveType::SawtoothDown => "Periodic (sawtooth down)",
        },
        Effect::Ramp { .. } => "Ramp (linear change)",
        Effect::Condition { effect, .. } => match effect.condition_type {
            ConditionType::Spring => "Condition (spring)",
            ConditionType::Damper => "Condition (damper)",
            ConditionType::Friction => "Condition (friction)",
            ConditionType::Inertia => "Condition (inertia)",
        },
    }
}

impl Scenario {
    /// How many iterations a run performs: the repeat count, or, when the
    /// scenario loops forever, the maximum count (such a run is stopped from
    /// outside).
    pub fn iterations(&self) -> (r: u32)
        ensures
            self.loop_forever ==> r == u32::MAX,
            !self.loop_forever ==> r == self.repeat_count,
    {
        if self.loop_forever {
            u32::MAX
        } else {
            self.repeat_count
        }
    }
}

} // verus!

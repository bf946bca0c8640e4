//! The effect data model: a closed set of force-feedback effect variants and
//! their numeric parameter domains. Pure data; values are caller-supplied and
//! are not clamped here — clamping and quantization are part of each encoder's
//! wire-format contract.

use vstd::prelude::*;

verus! {

/// Effect direction (in degrees, 0-360)
#[derive(Debug, Clone, Copy, PartialEq, Eq, Structural)]
pub struct Direction(pub u16);

impl Default for Direction {
    fn default() -> (d: Direction)
        ensures
            d == (Direction(0u16)),
    {
        Direction(0)
    }
}

/// Envelope for smooth attack and fade of an effect
#[derive(Debug, Clone, Copy, PartialEq, Eq, Structural)]
pub struct Envelope {
    /// Attack time (ms)
    pub attack_time: u32,
    /// Level at start of attack (0-10000)
    pub attack_level: u16,
    /// Fade time (ms)
    pub fade_time: u32,
    /// Level at end of fade (0-10000)
    pub fade_level: u16,
}

impl Default for Envelope {
    fn default() -> (e: Envelope)
        ensures
            e == (Envelope { attack_time: 0u32, attack_level: 0u16, fade_time: 0u32, fade_level: 0u16 }),
    {
        Envelope { attack_time: 0, attack_level: 0, fade_time: 0, fade_level: 0 }
    }
}

/// Constant force
#[derive(Debug, Clone, Copy, PartialEq, Eq, Structural)]
pub struct ConstantForce {
    /// Force magnitude (-10000 to 10000)
    pub magnitude: i16,
    /// Direction
    pub direction: Direction,
    /// Envelope
    pub envelope: Envelope,
}

/// Periodic wave types
#[derive(Debug, Clone, Copy, PartialEq, Eq, Structural)]
pub enum WaveType {
    Sine,
    Square,
    Triangle,
    SawtoothUp,
    SawtoothDown,
}

/// Periodic effect
#[derive(Debug, Clone, Copy, PartialEq, Eq, Structural)]
pub struct PeriodicEffect {
    /// Wave type
    pub wave_type: WaveType,
    /// Amplitude (0-10000)
    pub magnitude: u16,
    /// Offset (-10000 to 10000)
    pub offset: i16,
    /// Phase (0-36000, in hundredths of a degree)
    pub phase: u16,
    /// Period (ms)
    pub period: u32,
    /// Direction
    pub direction: Direction,
    /// Envelope
    pub envelope: Envelope,
}

/// Ramp effect (linear force change)
#[derive(Debug, Clone, Copy, PartialEq, Eq, Structural)]
pub struct RampEffect {
    /// Start force (-10000 to 10000)
    pub start_magnitude: i16,
    /// End force (-10000 to 10000)
    pub end_magnitude: i16,
    /// Direction
    pub direction: Direction,
    /// Envelope
    pub envelope: Envelope,
}

/// Condition effects (depend on wheel position/velocity)
#[derive(Debug, Clone, Copy, PartialEq, Eq, Structural)]
pub enum ConditionType {
    Spring,
    Damper,
    Friction,
    Inertia,
}

/// Condition effect parameters for one axis
#[derive(Debug, Clone, Copy, PartialEq, Eq, Structural)]
pub struct ConditionParams {
    /// Center offset (-10000 to 10000)
    pub offset: i16,
    /// Positive direction coefficient (-10000 to 10000)
    pub positive_coefficient: i16,
    /// Negative direction coefficient (-10000 to 10000)
    pub negative_coefficient: i16,
    /// Positive direction saturation (0-10000)
    pub positive_saturation: u16,
    /// Negative direction saturation (0-10000)
    pub negative_saturation: u16,
    /// Dead band (0-10000)
    pub dead_band: u16,
}

/// Default coefficient for a condition axis.
pub fn default_coefficient() -> (r: i16)
    ensures
        r == 10000i16,
{
    10000
}

/// Default saturation for a condition axis.
pub fn default_saturation() -> (r: u16)
    ensures
        r == 10000u16,
{
    10000
}

impl Default for ConditionParams {
    fn default() -> (p: ConditionParams)
        ensures
            p == (ConditionParams {
                offset: 0i16,
                positive_coefficient: 10000i16,
                negative_coefficient: 10000i16,
                positive_saturation: 10000u16,
                negative_saturation: 10000u16,
                dead_band: 0u16,
            }),
    {
        ConditionParams {
            offset: 0,
            positive_coefficient: 10000,
            negative_coefficient: 10000,
            positive_saturation: 10000,
            negative_saturation: 10000,
            dead_band: 0,
        }
    }
}

/// Condition effect
#[derive(Debug, Clone, Copy, PartialEq, Eq, Structural)]
pub struct ConditionEffect {
    /// Condition effect type
    pub condition_type: ConditionType,
    /// X axis parameters (usually the steering wheel)
    pub x_axis: ConditionParams,
}

/// Common effect parameters
#[derive(Debug, Clone, Copy, PartialEq, Eq, Structural)]
pub struct EffectParams {
    /// Effect duration (ms), 0 = infinite
    pub duration: u32,
    /// Delay before start (ms)
    pub start_delay: u32,
    /// Gain (0-10000)
    pub gain: u16,
}

/// Default gain for an effect.
pub fn default_gain() -> (r: u16)
    ensures
        r == 10000u16,
{
    10000
}

impl Default for EffectParams {
    fn default() -> (p: EffectParams)
        ensures
            p == (EffectParams { duration: 1000u32, start_delay: 0u32, gain: 10000u16 }),
    {
        EffectParams { duration: 1000, start_delay: 0, gain: 10000 }
    }
}

/// All effect types
#[derive(Debug, Clone, Copy, PartialEq, Eq, Structural)]
#[allow(inconsistent_fields)]
pub enum Effect {
    Constant { params: EffectParams, force: ConstantForce },
    Periodic { params: EffectParams, effect: PeriodicEffect },
    Ramp { params: EffectParams, effect: RampEffect },
    Condition { params: EffectParams, effect: ConditionEffect },
}

impl Effect {
    /// The common parameters of any variant.
    pub open spec fn spec_params(&self) -> EffectParams {
        match self {
            Effect::Constant { params, .. } => *params,
            Effect::Periodic { params, .. } => *params,
            Effect::Ramp { params, .. } => *params,
            Effect::Condition { params, .. } => *params,
        }
    }

    pub fn duration(&self) -> (r: u32)
        ensures
            r == self.spec_params().duration,
    {
        match self {
            Effect::Constant { params, .. } => params.duration,
            Effect::Periodic { params, .. } => params.duration,
            Effect::Ramp { params, .. } => params.duration,
            Effect::Condition { params, .. } => params.duration,
        }
    }

    /// True when any condition coefficients lie strictly above `i16::MIN`.
    /// The wire encoders decrement in-between coefficient values by one unit
    /// and so need this one unit of headroom; every value in the documented
    /// -10000..10000 domain has it.
    pub open spec fn spec_condition_coeffs_above_min(&self) -> bool {
        match self {
            Effect::Condition { effect, .. } => effect.x_axis.positive_coefficient != i16::MIN
                && effect.x_axis.negative_coefficient != i16::MIN,
            _ => true,
        }
    }

    pub fn start_delay(&self) -> (r: u32)
        ensures
            r == self.spec_params().start_delay,
    {
        match self {
            Effect::Constant { params, .. } => params.start_delay,
            Effect::Periodic { params, .. } => params.start_delay,
            Effect::Ramp { params, .. } => params.start_delay,
            Effect::Condition { params, .. } => params.start_delay,
        }
    }
}

} // verus!

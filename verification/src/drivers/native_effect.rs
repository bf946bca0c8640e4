//! Translation layer of the capture-backed encoder: converts the abstract
//! effect model into the device-native actuation record.
//!
//! The native haptic subsystem speaks a union-typed effect record with values
//! in the -32767..32767 range; the model uses -10000..10000. This module
//! models that record as a plain, fully-populated value, one constructor per
//! effect variant, with the documented unit/scale conversions.

use crate::effects::ConditionEffect;
use crate::effects::ConditionType;
use crate::effects::ConstantForce;
use crate::effects::EffectParams;
use crate::effects::PeriodicEffect;
use crate::effects::RampEffect;
use crate::effects::WaveType;
use vstd::prelude::*;

verus! {

/// Sentinel duration meaning "play until stopped" in the native record; a
/// model duration of 0 ms maps to this value, never to a literal 0.
pub const NATIVE_DURATION_INFINITE: u32 = 4294967295;

/// `round(m * 32767 / 10000)` for non-negative `m`, rounding halves up.
pub open spec fn spec_round_scale(m: int) -> int
    recommends
        m >= 0,
{
    (m * 32767 + 5000) / 10000
}

/// Scaling of a signed model magnitude (-10000..10000 domain) to the native
/// -32767..32767 range: `round(m * 32767/10000)` (halves away from zero),
/// clamped to [-32767, 32767].
pub open spec fn spec_scale_signed(m: int) -> int {
    if m >= 0 {
        if spec_round_scale(m) > 32767 {
            32767
        } else {
            spec_round_scale(m)
        }
    } else {
        if spec_round_scale(-m) > 32767 {
            -32767
        } else {
            -spec_round_scale(-m)
        }
    }
}

/// Scaling of an unsigned model level (0..10000 domain) to the native
/// 0..32767 range: `round(m * 32767/10000)` clamped to [0, 32767].
pub open spec fn spec_scale_unsigned(m: int) -> int
    recommends
        m >= 0,
{
    if spec_round_scale(m) > 32767 {
        32767
    } else {
        spec_round_scale(m)
    }
}

/// Native-scale converter for signed magnitude-like fields.
pub fn scale_magnitude(value: i16) -> (r: i16)
    ensures
        r == spec_scale_signed(value as int),
{
    if value >= 0 {
        let v: u32 = value as u32;
        let scaled: u32 = (v * 32767 + 5000) / 10000;
        if scaled > 32767 {
            32767
        } else {
            scaled as i16
        }
    } else {
        let v: u32 = (-(value as i32)) as u32;
        let scaled: u32 = (v * 32767 + 5000) / 10000;
        if scaled > 32767 {
            -32767
        } else {
            (-(scaled as i32)) as i16
        }
    }
}

/// Native-scale converter for unsigned magnitude-like fields (for example a
/// periodic amplitude); same scaling rule, clamped to [0, 32767].
pub fn scale_magnitude_u16(value: u16) -> (r: i16)
    ensures
        r == spec_scale_unsigned(value as int),
{
    let v: u32 = value as u32;
    let scaled: u32 = (v * 32767 + 5000) / 10000;
    if scaled > 32767 {
        32767
    } else {
        scaled as i16
    }
}

/// Kind tag of the native effect record, one per supported native effect.
#[derive(Debug, Clone, Copy, PartialEq, Eq, Structural)]
pub enum NativeEffectKind {
    Constant,
    Sine,
    Square,
    Triangle,
    SawtoothUp,
    SawtoothDown,
    Ramp,
    Spring,
    Damper,
    Friction,
    Inertia,
}

/// Device-native actuation record: the union-typed native effect modeled as
/// one plain value. Each constructor zero-fills the fields its variant does
/// not use, exactly as the native record is zero-initialized before filling.
#[derive(Debug, Clone, Copy, PartialEq, Eq, Structural)]
pub struct NativeEffect {
    pub kind: NativeEffectKind,
    /// Direction along the X axis, in hundredths of a degree.
    pub direction_x: i32,
    /// Duration in ms, or `NATIVE_DURATION_INFINITE`.
    pub length: u32,
    pub delay: u16,
    /// Constant force level.
    pub level: i16,
    /// Periodic period (ms).
    pub period: u16,
    /// Periodic amplitude.
    pub magnitude: i16,
    /// Periodic offset.
    pub offset: i16,
    /// Periodic phase (hundredths of a degree).
    pub phase: u16,
    /// Ramp start force.
    pub start: i16,
    /// Ramp end force.
    pub end: i16,
    /// Condition positive-direction saturation, X axis.
    pub right_sat: u16,
    /// Condition negative-direction saturation, X axis.
    pub left_sat: u16,
    /// Condition positive-direction coefficient, X axis.
    pub right_coeff: i16,
    /// Condition negative-direction coefficient, X axis.
    pub left_coeff: i16,
    /// Condition dead band, X axis (model units, unscaled).
    pub deadband: u16,
    /// Condition center offset, X axis (model units, unscaled).
    pub center: i16,
    pub attack_length: u16,
    pub attack_level: u16,
    pub fade_length: u16,
    pub fade_level: u16,
}

/// The all-zero record with the given kind, before variant fields are filled.
pub open spec fn spec_zeroed_native(kind: NativeEffectKind) -> NativeEffect {
    NativeEffect {
        kind,
        direction_x: 0,
        length: 0,
        delay: 0,
        level: 0,
        period: 0,
        magnitude: 0,
        offset: 0,
        phase: 0,
        start: 0,
        end: 0,
        right_sat: 0,
        left_sat: 0,
        right_coeff: 0,
        left_coeff: 0,
        deadband: 0,
        center: 0,
        attack_length: 0,
        attack_level: 0,
        fade_length: 0,
        fade_level: 0,
    }
}

/// A model duration in ms as the native length field: 0 means infinite.
pub open spec fn spec_native_length(duration: u32) -> u32 {
    if duration == 0 {
        NATIVE_DURATION_INFINITE
    } else {
        duration
    }
}

fn native_length(duration: u32) -> (r: u32)
    ensures
        r == spec_native_length(duration),
{
    if duration == 0 {
        NATIVE_DURATION_INFINITE
    } else {
        duration
    }
}

/// Native wave kind for a model wave type.
pub open spec fn spec_native_wave_kind(wave: WaveType) -> NativeEffectKind {
    match wave {
        WaveType::Sine => NativeEffectKind::Sine,
        WaveType::Square => NativeEffectKind::Square,
        WaveType::Triangle => NativeEffectKind::Triangle,
        WaveType::SawtoothUp => NativeEffectKind::SawtoothUp,
        WaveType::SawtoothDown => NativeEffectKind::SawtoothDown,
    }
}

/// Native condition kind for a model condition type.
pub open spec fn spec_native_condition_kind(cond: ConditionType) -> NativeEffectKind {
    match cond {
        ConditionType::Spring => NativeEffectKind::Spring,
        ConditionType::Damper => NativeEffectKind::Damper,
        ConditionType::Friction => NativeEffectKind::Friction,
        ConditionType::Inertia => NativeEffectKind::Inertia,
    }
}

/// Native record for a constant-force effect.
pub fn create_constant_effect(params: &EffectParams, force: &ConstantForce) -> (r: NativeEffect)
    ensures
        r == (NativeEffect {
            direction_x: (force.direction.0 * 100) as i32,
            length: spec_native_length(params.duration),
            delay: (params.start_delay % 65536) as u16,
            level: spec_scale_signed(force.magnitude as int) as i16,
            attack_length: (force.envelope.attack_time % 65536) as u16,
            attack_level: spec_scale_unsigned(force.envelope.attack_level as int) as u16,
            fade_length: (force.envelope.fade_time % 65536) as u16,
            fade_level: spec_scale_unsigned(force.envelope.fade_level as int) as u16,
            ..spec_zeroed_native(NativeEffectKind::Constant)
        }),
{
    let mut r = zeroed_native(NativeEffectKind::Constant);
    r.direction_x = (force.direction.0 as i32) * 100;
    r.length = native_length(params.duration);
    r.delay = (params.start_delay % 65536) as u16;
    r.level = scale_magnitude(force.magnitude);
    r.attack_length = (force.envelope.attack_time % 65536) as u16;
    r.attack_level = scale_magnitude_u16(force.envelope.attack_level) as u16;
    r.fade_length = (force.envelope.fade_time % 65536) as u16;
    r.fade_level = scale_magnitude_u16(force.envelope.fade_level) as u16;
    r
}

/// Native record for a periodic effect.
pub fn create_periodic_effect(params: &EffectParams, periodic: &PeriodicEffect) -> (r:
    NativeEffect)
    ensures
        r == (NativeEffect {
            direction_x: (periodic.direction.0 * 100) as i32,
            length: spec_native_length(params.duration),
            delay: (params.start_delay % 65536) as u16,
            period: (periodic.period % 65536) as u16,
            magnitude: spec_scale_unsigned(periodic.magnitude as int) as i16,
            offset: spec_scale_signed(periodic.offset as int) as i16,
            phase: periodic.phase,
            attack_length: (periodic.envelope.attack_time % 65536) as u16,
            attack_level: spec_scale_unsigned(periodic.envelope.attack_level as int) as u16,
            fade_length: (periodic.envelope.fade_time % 65536) as u16,
            fade_level: spec_scale_unsigned(periodic.envelope.fade_level as int) as u16,
            ..spec_zeroed_native(spec_native_wave_kind(periodic.wave_type))
        }),
{
    let mut r = zeroed_native(native_wave_kind(periodic.wave_type));
    r.direction_x = (periodic.direction.0 as i32) * 100;
    r.length = native_length(params.duration);
    r.delay = (params.start_delay % 65536) as u16;
    r.period = (periodic.period % 65536) as u16;
    r.magnitude = scale_magnitude_u16(periodic.magnitude);
    r.offset = scale_magnitude(periodic.offset);
    r.phase = periodic.phase;
    r.attack_length = (periodic.envelope.attack_time % 65536) as u16;
    r.attack_level = scale_magnitude_u16(periodic.envelope.attack_level) as u16;
    r.fade_length = (periodic.envelope.fade_time % 65536) as u16;
    r.fade_level = scale_magnitude_u16(periodic.envelope.fade_level) as u16;
    r
}

/// Native record for a ramp effect.
pub fn create_ramp_effect(params: &EffectParams, ramp: &RampEffect) -> (r: NativeEffect)
    ensures
        r == (NativeEffect {
            direction_x: (ramp.direction.0 * 100) as i32,
            length: spec_native_length(params.duration),
            delay: (params.start_delay % 65536) as u16,
            start: spec_scale_signed(ramp.start_magnitude as int) as i16,
            end: spec_scale_signed(ramp.end_magnitude as int) as i16,
            attack_length: (ramp.envelope.attack_time % 65536) as u16,
            attack_level: spec_scale_unsigned(ramp.envelope.attack_level as int) as u16,
            fade_length: (ramp.envelope.fade_time % 65536) as u16,
            fade_level: spec_scale_unsigned(ramp.envelope.fade_level as int) as u16,
            ..spec_zeroed_native(NativeEffectKind::Ramp)
        }),
{
    let mut r = zeroed_native(NativeEffectKind::Ramp);
    r.direction_x = (ramp.direction.0 as i32) * 100;
    r.length = native_length(params.duration);
    r.delay = (params.start_delay % 65536) as u16;
    r.start = scale_magnitude(ramp.start_magnitude);
    r.end = scale_magnitude(ramp.end_magnitude);
    r.attack_length = (ramp.envelope.attack_time % 65536) as u16;
    r.attack_level = scale_magnitude_u16(ramp.envelope.attack_level) as u16;
    r.fade_length = (ramp.envelope.fade_time % 65536) as u16;
    r.fade_level = scale_magnitude_u16(ramp.envelope.fade_level) as u16;
    r
}

/// Native record for a condition effect; the X axis carries the parameters,
/// saturations and coefficients scale to the native range, dead band and
/// center pass through in model units.
pub fn create_condition_effect(params: &EffectParams, condition: &ConditionEffect) -> (r:
    NativeEffect)
    ensures
        r == (NativeEffect {
            length: spec_native_length(params.duration),
            delay: (params.start_delay % 65536) as u16,
            right_sat: spec_scale_unsigned(condition.x_axis.positive_saturation as int) as u16,
            left_sat: spec_scale_unsigned(condition.x_axis.negative_saturation as int) as u16,
            right_coeff: spec_scale_signed(condition.x_axis.positive_coefficient as int) as i16,
            left_coeff: spec_scale_signed(condition.x_axis.negative_coefficient as int) as i16,
            deadband: condition.x_axis.dead_band,
            center: condition.x_axis.offset,
            ..spec_zeroed_native(spec_native_condition_kind(condition.condition_type))
        }),
{
    let mut r = zeroed_native(native_condition_kind(condition.condition_type));
    r.length = native_length(params.duration);
    r.delay = (params.start_delay % 65536) as u16;
    r.right_sat = scale_magnitude_u16(condition.x_axis.positive_saturation) as u16;
    r.left_sat = scale_magnitude_u16(condition.x_axis.negative_saturation) as u16;
    r.right_coeff = scale_magnitude(condition.x_axis.positive_coefficient);
    r.left_coeff = scale_magnitude(condition.x_axis.negative_coefficient);
    r.deadband = condition.x_axis.dead_band;
    r.center = condition.x_axis.offset;
    r
}

fn zeroed_native(kind: NativeEffectKind) -> (r: NativeEffect)
    ensures
        r == spec_zeroed_native(kind),
{
    NativeEffect {
        kind,
        direction_x: 0,
        length: 0,
        delay: 0,
        level: 0,
        period: 0,
        magnitude: 0,
        offset: 0,
        phase: 0,
        start: 0,
        end: 0,
        right_sat: 0,
        left_sat: 0,
        right_coeff: 0,
        left_coeff: 0,
        deadband: 0,
        center: 0,
        attack_length: 0,
        attack_level: 0,
        fade_length: 0,
        fade_level: 0,
    }
}

fn native_wave_kind(wave: WaveType) -> (r: NativeEffectKind)
    ensures
        r == spec_native_wave_kind(wave),
{
    match wave {
        WaveType::Sine => NativeEffectKind::Sine,
        WaveType::Square => NativeEffectKind::Square,
        WaveType::Triangle => NativeEffectKind::Triangle,
        WaveType::SawtoothUp => NativeEffectKind::SawtoothUp,
        WaveType::SawtoothDown => NativeEffectKind::SawtoothDown,
    }
}

fn native_condition_kind(cond: ConditionType) -> (r: NativeEffectKind)
    ensures
        r == spec_native_condition_kind(cond),
{
    match cond {
        ConditionType::Spring => NativeEffectKind::Spring,
        ConditionType::Damper => NativeEffectKind::Damper,
        ConditionType::Friction => NativeEffectKind::Friction,
        ConditionType::Inertia => NativeEffectKind::Inertia,
    }
}

} // verus!

use ffb_replay::effects::ConditionParams;
use ffb_replay::effects::ConstantForce;
use ffb_replay::effects::Direction;
use ffb_replay::effects::Effect;
use ffb_replay::effects::EffectParams;
use ffb_replay::effects::Envelope;
use ffb_replay::effects::PeriodicEffect;
use ffb_replay::effects::WaveType;
use ffb_replay::effects::default_coefficient;
use ffb_replay::effects::default_gain;
use ffb_replay::effects::default_saturation;
use ffb_replay::error::FFBError;
use ffb_replay::scenario::Scenario;
use ffb_replay::scenario::ScenarioStep;
use ffb_replay::scenario::default_repeat_count;
use ffb_replay::scenario::effect_label;

#[test]
fn model_defaults() {
    assert_eq!(Direction::default().0, 0);
    let envelope = Envelope::default();
    assert_eq!(envelope.attack_time, 0);
    assert_eq!(envelope.attack_level, 0);
    assert_eq!(envelope.fade_time, 0);
    assert_eq!(envelope.fade_level, 0);
    let condition = ConditionParams::default();
    assert_eq!(condition.offset, 0);
    assert_eq!(condition.positive_coefficient, 10000);
    assert_eq!(condition.negative_coefficient, 10000);
    assert_eq!(condition.positive_saturation, 10000);
    assert_eq!(condition.negative_saturation, 10000);
    assert_eq!(condition.dead_band, 0);
    let params = EffectParams::default();
    assert_eq!(params.duration, 1000);
    assert_eq!(params.start_delay, 0);
    assert_eq!(params.gain, 10000);
    assert_eq!(default_coefficient(), 10000);
    assert_eq!(default_saturation(), 10000);
    assert_eq!(default_gain(), 10000);
    assert_eq!(default_repeat_count(), 1);
}

fn sample_effect(duration: u32, start_delay: u32) -> Effect {
    Effect::Constant {
        params: EffectParams {
            duration,
            start_delay,
            gain: 10000,
        },
        force: ConstantForce {
            magnitude: 100,
            direction: Direction::default(),
            envelope: Envelope::default(),
        },
    }
}

#[test]
fn effect_accessors() {
    let effect = sample_effect(1234, 55);
    assert_eq!(effect.duration(), 1234);
    assert_eq!(effect.start_delay(), 55);
    let zero = sample_effect(0, 0);
    assert_eq!(zero.duration(), 0);
}

#[test]
fn effect_labels() {
    assert_eq!(effect_label(&sample_effect(1, 0)), "Constant force");
    let sine = Effect::Periodic {
        params: EffectParams::default(),
        effect: PeriodicEffect {
            wave_type: WaveType::Sine,
            magnitude: 1,
            offset: 0,
            phase: 0,
            period: 10,
            direction: Direction::default(),
            envelope: Envelope::default(),
        },
    };
    assert_eq!(effect_label(&sine), "Periodic (sine)");
}

#[test]
fn scenario_iterations() {
    let finite = Scenario {
        name: "sample".to_string(),
        description: String::new(),
        loop_forever: false,
        repeat_count: 3,
        steps: vec![ScenarioStep {
            effect: sample_effect(1, 0),
        }],
    };
    assert_eq!(finite.iterations(), 3);
    let endless = Scenario {
        loop_forever: true,
        ..finite
    };
    assert_eq!(endless.iterations(), u32::MAX);
}

#[test]
fn error_messages() {
    assert_eq!(FFBError::DeviceNotFound.message(), "Device not found");
    assert_eq!(
        FFBError::InitializationFailed("no capture tool".to_string()).message(),
        "Failed to initialize device: no capture tool"
    );
    assert_eq!(
        FFBError::EffectCreationFailed("bad".to_string()).message(),
        "Failed to create effect: bad"
    );
    assert_eq!(
        FFBError::EffectPlaybackFailed("bad".to_string()).message(),
        "Failed to play effect: bad"
    );
    assert_eq!(
        FFBError::EffectStopFailed("bad".to_string()).message(),
        "Failed to stop effect: bad"
    );
    assert_eq!(
        FFBError::DeviceError("bad".to_string()).message(),
        "Device error: bad"
    );
    assert_eq!(
        FFBError::InvalidParameter("bad".to_string()).message(),
        "Invalid parameter: bad"
    );
}

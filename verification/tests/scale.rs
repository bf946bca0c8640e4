use ffb_replay::drivers::native_effect::create_condition_effect;
use ffb_replay::drivers::native_effect::create_constant_effect;
use ffb_replay::drivers::native_effect::create_periodic_effect;
use ffb_replay::drivers::native_effect::create_ramp_effect;
use ffb_replay::drivers::native_effect::scale_magnitude;
use ffb_replay::drivers::native_effect::scale_magnitude_u16;
use ffb_replay::drivers::native_effect::NativeEffectKind;
use ffb_replay::drivers::native_effect::NATIVE_DURATION_INFINITE;
use ffb_replay::effects::ConditionEffect;
use ffb_replay::effects::ConditionParams;
use ffb_replay::effects::ConditionType;
use ffb_replay::effects::ConstantForce;
use ffb_replay::effects::Direction;
use ffb_replay::effects::EffectParams;
use ffb_replay::effects::Envelope;
use ffb_replay::effects::PeriodicEffect;
use ffb_replay::effects::RampEffect;
use ffb_replay::effects::WaveType;

/// round(m * 32767 / 10000), halves away from zero, clamped; reference for
/// the native-scale converter.
fn expected_scale(m: i32) -> i32 {
    let scaled = if m >= 0 {
        (m * 32767 + 5000) / 10000
    } else {
        -((-m * 32767 + 5000) / 10000)
    };
    scaled.clamp(-32767, 32767)
}

#[test]
fn scale_fixed_points() {
    assert_eq!(scale_magnitude(0), 0);
    assert_eq!(scale_magnitude(10000), 32767);
    assert_eq!(scale_magnitude(-10000), -32767);
}

#[test]
fn scale_rounding() {
    // 1 * 32767/10000 = 3.2767 -> 3
    assert_eq!(scale_magnitude(1), 3);
    assert_eq!(scale_magnitude(-1), -3);
    // 50 * 32767/10000 = 163.835 -> 164
    assert_eq!(scale_magnitude(50), 164);
    assert_eq!(scale_magnitude(-50), -164);
}

#[test]
fn scale_whole_domain_matches_reference() {
    let mut m: i32 = -10000;
    while m <= 10000 {
        assert_eq!(scale_magnitude(m as i16) as i32, expected_scale(m));
        m += 1;
    }
}

#[test]
fn scale_clamps_out_of_domain_values() {
    assert_eq!(scale_magnitude(i16::MAX), 32767);
    assert_eq!(scale_magnitude(i16::MIN), -32767);
    assert_eq!(scale_magnitude(10001), 32767);
    assert_eq!(scale_magnitude(-10001), -32767);
}

#[test]
fn scale_unsigned() {
    assert_eq!(scale_magnitude_u16(0), 0);
    assert_eq!(scale_magnitude_u16(10000), 32767);
    assert_eq!(scale_magnitude_u16(1), 3);
    assert_eq!(scale_magnitude_u16(5000), 16384); // 16383.5 rounds up
    assert_eq!(scale_magnitude_u16(u16::MAX), 32767);
}

#[test]
fn constant_native_record() {
    let params = EffectParams {
        duration: 250,
        start_delay: 3,
        gain: 10000,
    };
    let force = ConstantForce {
        magnitude: 10000,
        direction: Direction(90),
        envelope: Envelope {
            attack_time: 10,
            attack_level: 5000,
            fade_time: 20,
            fade_level: 2500,
        },
    };
    let native = create_constant_effect(&params, &force);
    assert_eq!(native.kind, NativeEffectKind::Constant);
    assert_eq!(native.direction_x, 9000);
    assert_eq!(native.length, 250);
    assert_eq!(native.delay, 3);
    assert_eq!(native.level, 32767);
    assert_eq!(native.attack_length, 10);
    assert_eq!(native.attack_level, 16384);
    assert_eq!(native.fade_length, 20);
    assert_eq!(native.fade_level, 8192); // round(2500 * 3.2767) = 8192
    assert_eq!(native.period, 0);
    assert_eq!(native.right_sat, 0);
}

#[test]
fn duration_zero_maps_to_infinite_sentinel() {
    let params = EffectParams {
        duration: 0,
        start_delay: 0,
        gain: 10000,
    };
    let force = ConstantForce {
        magnitude: 1,
        direction: Direction::default(),
        envelope: Envelope::default(),
    };
    let native = create_constant_effect(&params, &force);
    assert_eq!(native.length, NATIVE_DURATION_INFINITE);
    assert_eq!(native.length, 4294967295);
}

#[test]
fn periodic_native_record() {
    let params = EffectParams {
        duration: 1000,
        start_delay: 0,
        gain: 10000,
    };
    let periodic = PeriodicEffect {
        wave_type: WaveType::Square,
        magnitude: 5000,
        offset: -50,
        phase: 18000,
        period: 100,
        direction: Direction(180),
        envelope: Envelope::default(),
    };
    let native = create_periodic_effect(&params, &periodic);
    assert_eq!(native.kind, NativeEffectKind::Square);
    assert_eq!(native.direction_x, 18000);
    assert_eq!(native.length, 1000);
    assert_eq!(native.period, 100);
    assert_eq!(native.magnitude, 16384);
    assert_eq!(native.offset, -164);
    assert_eq!(native.phase, 18000);
}

#[test]
fn ramp_native_record() {
    let params = EffectParams {
        duration: 500,
        start_delay: 0,
        gain: 10000,
    };
    let ramp = RampEffect {
        start_magnitude: -10000,
        end_magnitude: 10000,
        direction: Direction(0),
        envelope: Envelope::default(),
    };
    let native = create_ramp_effect(&params, &ramp);
    assert_eq!(native.kind, NativeEffectKind::Ramp);
    assert_eq!(native.start, -32767);
    assert_eq!(native.end, 32767);
}

#[test]
fn condition_native_record() {
    let params = EffectParams {
        duration: 0,
        start_delay: 0,
        gain: 10000,
    };
    let condition = ConditionEffect {
        condition_type: ConditionType::Spring,
        x_axis: ConditionParams {
            offset: 100,
            positive_coefficient: 10000,
            negative_coefficient: -10000,
            positive_saturation: 10000,
            negative_saturation: 5000,
            dead_band: 250,
        },
    };
    let native = create_condition_effect(&params, &condition);
    assert_eq!(native.kind, NativeEffectKind::Spring);
    assert_eq!(native.direction_x, 0);
    assert_eq!(native.length, NATIVE_DURATION_INFINITE);
    assert_eq!(native.right_coeff, 32767);
    assert_eq!(native.left_coeff, -32767);
    assert_eq!(native.right_sat, 32767);
    assert_eq!(native.left_sat, 16384);
    // dead band and center pass through in model units
    assert_eq!(native.deadband, 250);
    assert_eq!(native.center, 100);
}

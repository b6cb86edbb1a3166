use loq_rgb::model::{DeviceState, Effect, LightingConfig, LiveEffect, Rgb};
use loq_rgb::packet::{build_packet, led_zones, parse_state};
use loq_rgb::readback::{describe_state, state_matches_config};

#[test]
fn state_matching_logic() {
    let cfg = LightingConfig {
        effect: Effect::Static,
        speed: 2,
        brightness: 2,
        zones: [Rgb::new(255, 0, 0); 4],
    };
    let same = DeviceState {
        effect: LiveEffect::Known(Effect::Static),
        speed: 2,
        brightness: 2,
        zones: [Rgb::new(255, 0, 0); 4],
        flag_right: false,
        flag_left: false,
    };
    assert!(state_matches_config(&same, &cfg));

    let different_effect = DeviceState {
        effect: LiveEffect::Known(Effect::Breath),
        ..same
    };
    assert!(!state_matches_config(&different_effect, &cfg));

    let wave_cfg = LightingConfig {
        effect: Effect::FlowLeft,
        ..cfg
    };
    let matching_wave = DeviceState {
        effect: LiveEffect::Known(Effect::Static),
        zones: led_zones(&wave_cfg),
        ..same
    };
    assert!(state_matches_config(&matching_wave, &wave_cfg));
    let wrong_palette = DeviceState {
        zones: [Rgb::black(); 4],
        ..matching_wave
    };
    assert!(!state_matches_config(&wrong_palette, &wave_cfg));

    let smooth_cfg = LightingConfig {
        effect: Effect::Smooth,
        ..cfg
    };
    let smooth_state = DeviceState {
        effect: LiveEffect::Known(Effect::Smooth),
        zones: [Rgb::black(); 4],
        ..same
    };
    assert!(state_matches_config(&smooth_state, &smooth_cfg));
}

#[test]
fn a_sent_packet_reads_back_as_matching() {
    let cfg = LightingConfig {
        effect: Effect::Breath,
        speed: 3,
        brightness: 1,
        zones: [Rgb::new(9, 8, 7), Rgb::new(1, 2, 3), Rgb::new(200, 100, 0), Rgb::white()],
    };
    let st = parse_state(&build_packet(&cfg)).unwrap();
    assert!(state_matches_config(&st, &cfg));
    let unknown = DeviceState {
        effect: LiveEffect::Unknown(0x42),
        ..st
    };
    assert!(!state_matches_config(&unknown, &cfg));
}

#[test]
fn describe_readback() {
    let st = DeviceState {
        effect: LiveEffect::Known(Effect::Breath),
        speed: 2,
        brightness: 1,
        zones: [Rgb::new(0x12, 0x34, 0x56), Rgb::black(), Rgb::white(), Rgb::new(1, 2, 3)],
        flag_right: false,
        flag_left: false,
    };
    assert_eq!(
        describe_state(&st),
        "Breathing, speed 2, brightness 1, zones [#123456 #000000 #ffffff #010203]"
    );
    let unknown = DeviceState {
        effect: LiveEffect::Unknown(0x0a),
        ..st
    };
    assert!(describe_state(&unknown).starts_with("unknown effect (0x0a), speed 2"));
}

use loq_rgb::model::{DeviceState, Effect, LightingConfig, LiveEffect, Rgb};
use loq_rgb::packet::{
    auto_rainbow_palette, build_packet, effective_zones, interpret_state_report, led_zones,
    parse_state, IDX_WAVE_LEFT, IDX_WAVE_RIGHT, MAGIC, PACKET_LEN, REPORT_ID,
};

fn cfg(effect: Effect, speed: u8, brightness: u8) -> LightingConfig {
    LightingConfig {
        effect,
        speed,
        brightness,
        zones: [
            Rgb::new(255, 0, 0),
            Rgb::new(0, 255, 0),
            Rgb::new(0, 0, 255),
            Rgb::new(255, 255, 255),
        ],
    }
}

#[test]
fn static_golden_packet() {
    let p = build_packet(&cfg(Effect::Static, 1, 2));
    assert_eq!(p[0], 0xCC);
    assert_eq!(p[1], 0x16);
    assert_eq!(p[2], 0x01);
    assert_eq!(p[3], 1);
    assert_eq!(p[4], 2);
    assert_eq!(&p[5..17], &[255, 0, 0, 0, 255, 0, 0, 0, 255, 255, 255, 255]);
    assert_eq!(p[17], 0);
    assert_eq!(p[18], 0);
    assert_eq!(p[19], 0);
    assert!(p[20..].iter().all(|b| *b == 0));
}

#[test]
fn breath_golden_packet() {
    let p = build_packet(&cfg(Effect::Breath, 2, 1));
    assert_eq!(p[2], 0x03);
    assert_eq!(&p[5..17], &[0x99, 0, 0, 0, 0x99, 0, 0, 0, 0x99, 0x99, 0x99, 0x99]);
}

#[test]
fn high_brightness_sends_colours_unscaled() {
    let p = build_packet(&cfg(Effect::Breath, 2, 2));
    assert_eq!(&p[5..17], &[255, 0, 0, 0, 255, 0, 0, 0, 255, 255, 255, 255]);
}

#[test]
fn dimming_applies_to_every_effect_that_writes_colour_bytes() {
    let static_low = cfg(Effect::Static, 1, 1);
    assert_ne!(effective_zones(&static_low), static_low.zones);
    let wave_low = cfg(Effect::WaveLeft, 1, 1);
    assert_ne!(effective_zones(&wave_low), wave_low.zones);
    let smooth_low = cfg(Effect::Smooth, 1, 1);
    let p = build_packet(&smooth_low);
    assert!(p[5..17].iter().all(|b| *b == 0));
}

#[test]
fn dimming_rounds_to_nearest() {
    let c = LightingConfig {
        effect: Effect::Static,
        speed: 1,
        brightness: 1,
        zones: [Rgb::new(1, 2, 3), Rgb::new(4, 5, 128), Rgb::new(0, 100, 254), Rgb::new(10, 11, 12)],
    };
    // round(v * 0.6): 1→1, 2→1, 3→2, 4→2, 5→3, 128→77, 100→60, 254→152.
    assert_eq!(
        effective_zones(&c),
        [Rgb::new(1, 1, 2), Rgb::new(2, 3, 77), Rgb::new(0, 60, 152), Rgb::new(6, 7, 7)]
    );
}

#[test]
fn wave_carries_the_palette_bytes() {
    let l = build_packet(&cfg(Effect::WaveLeft, 2, 2));
    assert_eq!(l[2], 0x04);
    assert_eq!(l[IDX_WAVE_LEFT], 1);
    assert_eq!(l[IDX_WAVE_RIGHT], 0);
    assert_eq!(&l[5..17], &[255, 0, 0, 0, 255, 0, 0, 0, 255, 255, 255, 255]);

    let r = build_packet(&cfg(Effect::WaveRight, 3, 2));
    assert_eq!(r[IDX_WAVE_RIGHT], 1);
    assert_eq!(r[IDX_WAVE_LEFT], 0);
}

#[test]
fn rainbow_wave_golden_palette() {
    let r = build_packet(&cfg(Effect::RainbowRight, 2, 2));
    assert_eq!(r[2], 0x04);
    assert_eq!(r[IDX_WAVE_RIGHT], 1);
    assert_eq!(&r[5..17], &[255, 0, 0, 128, 255, 0, 0, 255, 255, 128, 0, 255]);

    let l = build_packet(&cfg(Effect::RainbowLeft, 2, 2));
    assert_eq!(l[IDX_WAVE_LEFT], 1);
    assert_eq!(l[IDX_WAVE_RIGHT], 0);
    let dim = build_packet(&cfg(Effect::RainbowRight, 2, 1));
    assert_eq!(&dim[5..17], &[0x99, 0, 0, 0x4D, 0x99, 0, 0, 0x99, 0x99, 0x4D, 0, 0x99]);
}

#[test]
fn smooth_and_off_golden() {
    let s = build_packet(&cfg(Effect::Smooth, 4, 2));
    assert_eq!(s[2], 0x06);
    assert_eq!(s[18], 0);
    assert_eq!(s[19], 0);
    assert!(s[5..17].iter().all(|b| *b == 0), "smooth writes no palette");

    let o = build_packet(&cfg(Effect::Off, 2, 2));
    assert_eq!(o[2], 0x00);
    assert_eq!(o[3], 1, "off forces speed to 1");
    assert_eq!(o[4], 0, "off forces brightness to 0");
}

#[test]
fn length_is_always_33() {
    for e in [
        Effect::Off,
        Effect::Static,
        Effect::Breath,
        Effect::WaveLeft,
        Effect::WaveRight,
        Effect::RainbowLeft,
        Effect::RainbowRight,
        Effect::Smooth,
    ] {
        assert_eq!(build_packet(&cfg(e, 2, 2)).len(), PACKET_LEN);
    }
}

#[test]
fn out_of_range_values_are_clamped_in_the_packet() {
    let p = build_packet(&cfg(Effect::Breath, 9, 0));
    assert_eq!(p[3], 4);
    assert_eq!(p[4], 1);
    // brightness 0 normalises to Low, so the colours are dimmed.
    assert_eq!(p[5], 0x99);
}

#[test]
fn parse_state_round_trips_build() {
    for e in [Effect::Static, Effect::Breath, Effect::WaveLeft, Effect::WaveRight, Effect::Smooth] {
        let cfg = cfg(e, 3, 1);
        let p = build_packet(&cfg);
        let st = parse_state(&p).expect("valid packet parses");
        assert_eq!(st.effect, LiveEffect::Known(e), "effect {e:?}");
        assert_eq!(st.speed, 3);
        assert_eq!(st.brightness, 1);
        if e.writes_zone_bytes() {
            assert_eq!(st.zones, led_zones(&cfg));
        }
    }
    let o = parse_state(&build_packet(&cfg(Effect::Off, 2, 2))).unwrap();
    assert_eq!(o.effect, LiveEffect::Known(Effect::Off));
}

#[test]
fn parse_rainbow_packet_reports_wave_with_palette_bytes() {
    let p = build_packet(&cfg(Effect::RainbowRight, 2, 2));
    let st = parse_state(&p).unwrap();
    assert_eq!(st.effect, LiveEffect::Known(Effect::WaveRight));
    assert_eq!(st.zones, auto_rainbow_palette());
}

#[test]
fn parse_state_preserves_unknown_effect() {
    let mut p = [0u8; PACKET_LEN];
    p[0] = REPORT_ID;
    p[1] = MAGIC;
    p[2] = 0x42;
    p[3] = 2;
    p[4] = 2;
    let st = parse_state(&p).unwrap();
    assert_eq!(st.effect, LiveEffect::Unknown(0x42));
}

#[test]
fn parse_state_rejects_garbage() {
    assert!(parse_state(&[0u8; 10]).is_none());
    let mut bad = [0u8; PACKET_LEN];
    bad[0] = 0xAB;
    assert!(parse_state(&bad).is_none());
}

#[test]
fn wave_code_without_flags_is_unknown() {
    let mut p = [0u8; PACKET_LEN];
    p[0] = REPORT_ID;
    p[1] = MAGIC;
    p[2] = 0x04;
    assert_eq!(parse_state(&p).unwrap().effect, LiveEffect::Unknown(0x04));
}

#[test]
fn flow_led_zones_are_the_resting_frame() {
    let palette = cfg(Effect::FlowRight, 2, 2);
    assert_eq!(led_zones(&palette), palette.zones);
    let white = LightingConfig {
        zones: [Rgb::white(); 4],
        ..palette
    };
    assert_eq!(led_zones(&white), auto_rainbow_palette());
}

#[test]
fn short_readback_is_reported_as_unsupported() {
    let buf = [0u8; PACKET_LEN];
    match interpret_state_report(&buf, 11) {
        Err(loq_rgb::error::Error::Unsupported(m)) => {
            assert!(m.starts_with("this controller answers the CC report with 11 bytes"))
        }
        other => panic!("unexpected {other:?}"),
    }
    match interpret_state_report(&buf, PACKET_LEN) {
        Err(loq_rgb::error::Error::Protocol(_)) => {}
        other => panic!("unexpected {other:?}"),
    }
    let good = build_packet(&cfg(Effect::Static, 1, 2));
    let st: DeviceState = interpret_state_report(&good, PACKET_LEN).unwrap();
    assert_eq!(st.effect, LiveEffect::Known(Effect::Static));
}

#[test]
fn low_brightness_is_dimmed_once_by_the_builder() {
    let c = LightingConfig {
        effect: Effect::FlowRight,
        speed: 2,
        brightness: 1,
        zones: [
            Rgb::new(255, 0, 0),
            Rgb::new(255, 230, 0),
            Rgb::new(0, 220, 60),
            Rgb::new(0, 90, 255),
        ],
    };
    let packet = build_packet(&c);
    assert_eq!(
        &packet[5..17],
        &[0x99, 0x00, 0x00, 0x99, 0x8A, 0x00, 0x00, 0x84, 0x24, 0x00, 0x36, 0x99]
    );
}

#[test]
fn uses_palette_needs_distinct_zones() {
    let c = cfg(Effect::FlowLeft, 2, 2);
    assert!(loq_rgb::flow::uses_palette(&c));
    let w = LightingConfig { zones: [Rgb::white(); 4], ..c };
    assert!(!loq_rgb::flow::uses_palette(&w));
}

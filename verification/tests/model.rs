use loq_rgb::model::{Effect, LightingConfig, Rgb, BRIGHTNESS_MIN, SPEED_MAX};

#[test]
fn hex_round_trip() {
    for s in ["#000000", "#ffffff", "#ff0000", "#00ff00", "#0000ff", "#12abCD"] {
        let rgb = Rgb::from_hex(s).unwrap();
        assert_eq!(rgb.to_hex(), s.to_lowercase());
    }
}

#[test]
fn hex_parses_without_hash() {
    assert_eq!(Rgb::from_hex("ff0000"), Some(Rgb::new(255, 0, 0)));
}

#[test]
fn hex_rejects_bad_input() {
    for bad in ["", "#fff", "#gggggg", "12345", "#12345", "1234567", "0xff0000"] {
        assert_eq!(Rgb::from_hex(bad), None, "should reject {bad:?}");
    }
}

#[test]
fn hex_rejects_non_ascii_and_double_hash() {
    assert_eq!(Rgb::from_hex("##12345"), None);
    assert_eq!(Rgb::from_hex("#12345é"), None);
    assert_eq!(Rgb::from_hex("ABCDEF"), Some(Rgb::new(0xab, 0xcd, 0xef)));
}

#[test]
fn effect_codes_match_protocol() {
    assert_eq!(Effect::Off.code(), 0x00);
    assert_eq!(Effect::Static.code(), 0x01);
    assert_eq!(Effect::Breath.code(), 0x03);
    assert_eq!(Effect::WaveLeft.code(), 0x04);
    assert_eq!(Effect::WaveRight.code(), 0x04);
    assert_eq!(Effect::RainbowLeft.code(), 0x04);
    assert_eq!(Effect::RainbowRight.code(), 0x04);
    assert_eq!(Effect::Smooth.code(), 0x06);
}

#[test]
fn flow_effects_send_static_frames() {
    assert_eq!(Effect::FlowLeft.code(), 0x01);
    assert_eq!(Effect::FlowRight.code(), 0x01);
}

#[test]
fn zone_colour_consumers_are_static_breath_wave_and_flow() {
    for e in [
        Effect::Static,
        Effect::Breath,
        Effect::WaveLeft,
        Effect::WaveRight,
        Effect::FlowLeft,
        Effect::FlowRight,
    ] {
        assert!(e.uses_zone_colors(), "{e:?}");
    }
    for e in [Effect::Off, Effect::RainbowLeft, Effect::RainbowRight, Effect::Smooth] {
        assert!(!e.uses_zone_colors(), "{e:?}");
    }
}

#[test]
fn zone_bytes_are_written_for_all_colour_driven_effects() {
    for e in [
        Effect::Static,
        Effect::Breath,
        Effect::WaveLeft,
        Effect::WaveRight,
        Effect::RainbowLeft,
        Effect::RainbowRight,
        Effect::FlowLeft,
        Effect::FlowRight,
    ] {
        assert!(e.writes_zone_bytes(), "{e:?}");
    }
    for e in [Effect::Off, Effect::Smooth] {
        assert!(!e.writes_zone_bytes(), "{e:?}");
    }
}

#[test]
fn flows_are_host_rendered_animated_directional() {
    for e in [Effect::FlowLeft, Effect::FlowRight] {
        assert!(e.is_host_rendered(), "{e:?}");
        assert!(e.is_animated(), "{e:?}");
        assert!(e.needs_direction(), "{e:?}");
    }
    assert!(!Effect::Static.is_host_rendered());
    assert!(!Effect::Smooth.is_host_rendered());
}

#[test]
fn animation_and_direction_classes() {
    assert!(!Effect::Off.is_animated());
    assert!(!Effect::Static.is_animated());
    assert!(Effect::Smooth.is_animated());
    assert!(Effect::Breath.is_animated());
    assert!(!Effect::Breath.needs_direction());
    assert!(Effect::RainbowLeft.needs_direction());
}

#[test]
fn normalized_clamps_and_off_keeps_colours() {
    let cfg = LightingConfig {
        effect: Effect::WaveLeft,
        speed: 99,
        brightness: 0,
        ..LightingConfig::default()
    };
    let n = cfg.normalized();
    assert_eq!(n.speed, SPEED_MAX);
    assert_eq!(n.brightness, BRIGHTNESS_MIN);

    let colours = [Rgb::new(1, 2, 3), Rgb::new(4, 5, 6), Rgb::new(7, 8, 9), Rgb::new(10, 11, 12)];
    let off = LightingConfig {
        effect: Effect::Off,
        speed: 3,
        brightness: 2,
        zones: colours,
    }
    .normalized();
    assert_eq!(off.brightness, 0);
    assert_eq!(off.speed, 1);
    assert_eq!(off.zones, colours);
}

#[test]
fn normalizing_twice_changes_nothing() {
    let cfg = LightingConfig {
        effect: Effect::Breath,
        speed: 0,
        brightness: 7,
        ..LightingConfig::default()
    };
    let once = cfg.normalized();
    assert_eq!(once.speed, 1);
    assert_eq!(once.brightness, 2);
    assert_eq!(once.normalized(), once);
    assert!(!once.is_off());
    assert!(LightingConfig { effect: Effect::Off, ..once }.is_off());
}

#[test]
fn default_is_static_white() {
    let d = LightingConfig::default();
    assert_eq!(d.effect, Effect::Static);
    assert_eq!(d.speed, 2);
    assert_eq!(d.brightness, 2);
    assert_eq!(d.zones, [Rgb::white(); 4]);
    assert_eq!(Effect::default(), Effect::Static);
}

#[test]
fn effect_names_are_kebab_case() {
    assert_eq!(Effect::Off.name(), "off");
    assert_eq!(Effect::WaveLeft.name(), "wave-left");
    assert_eq!(Effect::RainbowRight.name(), "rainbow-right");
    assert_eq!(Effect::Smooth.name(), "smooth");
}

#[test]
fn rainbow_zones_are_the_four_quarter_hues() {
    assert_eq!(
        loq_rgb::model::rainbow_zones(),
        [
            Rgb::new(255, 0, 0),
            Rgb::new(128, 255, 0),
            Rgb::new(0, 255, 255),
            Rgb::new(128, 0, 255)
        ]
    );
}

#[test]
fn rgb_to_gray_helper() {
    assert_eq!(Rgb::from_gray(60), Rgb::new(60, 60, 60));
}

#[test]
fn black_and_white() {
    assert_eq!(Rgb::black(), Rgb::new(0, 0, 0));
    assert_eq!(Rgb::white().to_hex(), "#ffffff");
}

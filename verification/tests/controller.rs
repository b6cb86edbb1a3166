use loq_rgb::effects::{info, zone_colors_editable};
use loq_rgb::backend::{LightingBackend, MockBackend};
use loq_rgb::controller::Controller;
use loq_rgb::error::Error;
use loq_rgb::model::{DeviceState, Effect, LightingConfig, LiveEffect, Rgb};
use loq_rgb::packet::{build_packet, PACKET_LEN};

fn red_cfg() -> LightingConfig {
    LightingConfig {
        effect: Effect::Static,
        speed: 1,
        brightness: 2,
        zones: [Rgb::new(255, 0, 0); 4],
    }
}

fn static_cfg(zones: [Rgb; 4]) -> LightingConfig {
    LightingConfig {
        effect: Effect::Static,
        speed: 1,
        brightness: 2,
        zones,
    }
}

#[test]
fn apply_records_success_and_clears_error() {
    let mut c = Controller::new(Box::new(MockBackend::new()));
    c.apply(red_cfg()).unwrap();
    assert_eq!(c.last_config(), Some(&red_cfg().normalized()));
    assert!(c.last_error().is_none());
}

#[test]
fn apply_error_is_remembered_and_cleared_on_later_success() {
    let mut backend = MockBackend::new();
    backend.fail_apply = Some(Error::Io("simulated unplug".into()));
    let mut c = Controller::new(Box::new(backend));
    let err = c.apply(red_cfg()).unwrap_err();
    assert!(matches!(err, Error::Io(_)));
    assert!(matches!(c.last_error(), Some(Error::Io(_))));
    assert!(c.last_config().is_none(), "failed apply must not record state");

    let recovered = {
        let mut c2 = Controller::new(Box::new(MockBackend::new()));
        c2.apply(red_cfg()).unwrap();
        c2.last_error().is_none()
    };
    assert!(recovered);
}

#[test]
fn read_state_error_is_remembered() {
    let mut backend = MockBackend::new();
    backend.fail_read = Some(Error::Unsupported("no readback".into()));
    let mut c = Controller::new(Box::new(backend));
    assert!(c.read_state().is_err());
    assert!(c.last_error().is_some());
}

#[test]
fn error_is_cleared_by_a_later_success_on_the_same_controller() {
    let mut c = Controller::new(Box::new(MockBackend::new()));
    c.backend_mut().as_mock_mut().unwrap().fail_apply = Some(Error::Io("x".into()));
    assert!(c.apply(red_cfg()).is_err());
    assert!(c.last_error().is_some());
    c.backend_mut().as_mock_mut().unwrap().fail_apply = None;
    c.apply(red_cfg()).unwrap();
    assert!(c.last_error().is_none());
    assert_eq!(c.device_desc(), "mock controller 048d:c993");
}

#[test]
fn mock_records_normalised_configs() {
    let mut m = MockBackend::new();
    assert_eq!(m.last_applied(), None);
    m.apply(LightingConfig { speed: 9, ..red_cfg() }).unwrap();
    assert_eq!(m.last_applied().unwrap().speed, 4);
    assert!(matches!(m.read_state(), Err(Error::Unsupported(_))));
}

#[test]
fn changing_one_zone_never_touches_the_others() {
    let backend = MockBackend::new();
    let mut controller = Controller::new(Box::new(backend));

    let red = Rgb::new(255, 0, 0);
    let green = Rgb::new(0, 255, 0);
    let blue = Rgb::new(0, 0, 255);
    let white = Rgb::new(255, 255, 255);

    controller.apply(static_cfg([red, green, blue, white])).unwrap();

    let edited = LightingConfig {
        zones: [red, green, Rgb::new(12, 34, 56), white],
        ..controller.last_config().copied().unwrap()
    };
    controller.apply(edited).unwrap();

    let applied = controller.last_config().unwrap();
    assert_eq!(applied.zones[0], red);
    assert_eq!(applied.zones[1], green);
    assert_eq!(applied.zones[2], Rgb::new(12, 34, 56));
    assert_eq!(applied.zones[3], white);

    let packet = build_packet(applied);
    let z = |i: usize| {
        let o = 5 + i * 3;
        [packet[o], packet[o + 1], packet[o + 2]]
    };
    assert_eq!(z(0), [255, 0, 0]);
    assert_eq!(z(1), [0, 255, 0]);
    assert_eq!(z(2), [12, 34, 56]);
    assert_eq!(z(3), [255, 255, 255]);
}

#[test]
fn every_effect_on_every_zone_slot() {
    let backend = MockBackend::new();
    let mut controller = Controller::new(Box::new(backend));
    let colours = [
        Rgb::new(255, 0, 0),
        Rgb::new(0, 255, 0),
        Rgb::new(0, 0, 255),
        Rgb::new(200, 100, 50),
    ];
    for effect in [
        Effect::Off,
        Effect::Static,
        Effect::Breath,
        Effect::WaveLeft,
        Effect::WaveRight,
        Effect::Smooth,
    ] {
        for zone in 0..4 {
            let mut zones = [Rgb::black(); 4];
            zones[zone] = colours[zone];
            let cfg = LightingConfig {
                effect,
                speed: 1 + zone as u8,
                brightness: if zone % 2 == 0 { 1 } else { 2 },
                zones,
            };
            controller.apply(cfg).unwrap();
            let packet = build_packet(controller.last_config().unwrap());
            assert_eq!(packet.len(), PACKET_LEN);
            assert_eq!(packet[0], 0xCC);
        }
    }
}

#[test]
fn single_global_effect_byte_is_enforced() {
    for effect in [
        Effect::Off,
        Effect::Static,
        Effect::Breath,
        Effect::WaveLeft,
        Effect::WaveRight,
        Effect::Smooth,
    ] {
        let cfg = LightingConfig {
            effect,
            ..LightingConfig::default()
        };
        let p = build_packet(&cfg);
        assert_eq!(p[2], effect.code());
        assert_eq!(zone_colors_editable(effect), effect.uses_zone_colors());
        assert!(!info(effect).label.is_empty());
    }
}

#[test]
fn failed_apply_keeps_previous_good_state() {
    let mut controller = Controller::new(Box::new(MockBackend::new()));
    controller.apply(static_cfg([Rgb::white(); 4])).unwrap();
    let mock = controller.backend_mut().as_mock_mut().expect("mock backend");
    mock.fail_apply = Some(Error::Io("unplugged".into()));
    let err = controller.apply(static_cfg([Rgb::new(1, 2, 3); 4])).unwrap_err();
    assert!(matches!(err, Error::Io(_)));
    assert_eq!(
        controller.last_config().unwrap().zones[0],
        Rgb::white(),
        "last good state must survive a failed apply"
    );
}

#[test]
fn read_state_flows_through_controller() {
    let mut backend = MockBackend::new();
    let state = DeviceState {
        effect: LiveEffect::Known(Effect::Breath),
        speed: 2,
        brightness: 1,
        zones: [Rgb::new(10, 20, 30); 4],
        flag_right: false,
        flag_left: false,
    };
    backend.state = Some(state);
    let mut controller = Controller::new(Box::new(backend));
    let read = controller.read_state().unwrap();
    assert_eq!(read, state);
}

#[test]
fn in_memory_controller_records_each_apply_once() {
    let mut c = Controller::in_memory();
    assert_eq!(c.device_desc(), "mock controller 048d:c993");
    let cfg = LightingConfig {
        effect: Effect::Static,
        speed: 9,
        brightness: 2,
        zones: [Rgb::new(255, 0, 0); 4],
    };
    assert_eq!(c.apply(cfg), Ok(()));
    assert_eq!(c.last_config(), Some(&cfg.normalized()));
    let mock = c.backend_mut().as_mock_mut().unwrap();
    assert_eq!(mock.applied, vec![cfg.normalized()]);
    mock.fail_apply = Some(Error::Io("unplugged".into()));
    assert_eq!(c.apply(red_cfg()), Err(Error::Io("unplugged".into())));
    assert_eq!(c.last_config(), Some(&cfg.normalized()));
    assert!(matches!(c.read_state(), Err(Error::Unsupported(_))));
}

#[test]
fn a_controller_drives_the_backend_it_was_given() {
    let mut backend = MockBackend::new();
    backend.desc = "bench keyboard".to_string();
    let c = Controller::new(Box::new(backend));
    assert_eq!(c.device_desc(), "bench keyboard");
    assert!(c.last_config().is_none());
    assert!(c.last_error().is_none());
}

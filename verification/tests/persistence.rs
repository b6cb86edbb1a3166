use loq_rgb::config::{AppConfig, ConfigStore};
use loq_rgb::detect::{detect_from_bus, usb_entry};
use loq_rgb::model::{Effect, LightingConfig, Rgb};

fn fresh_store() -> ConfigStore {
    ConfigStore {
        path: "config.json".to_string(),
        cfg: AppConfig::default(),
    }
}

/// What the next start reads back of a store: the loaded configuration.
fn restart(store: &ConfigStore) -> ConfigStore {
    ConfigStore {
        path: store.path.clone(),
        cfg: store.cfg.clone().repaired().unwrap(),
    }
}

#[test]
fn profile_survives_restart_cycles() {
    let zones = [
        Rgb::new(0x12, 0x34, 0x56),
        Rgb::new(0xab, 0xcd, 0xef),
        Rgb::new(10, 20, 30),
        Rgb::new(200, 100, 0),
    ];
    let cfg = LightingConfig {
        effect: Effect::Breath,
        speed: 4,
        brightness: 1,
        zones,
    };

    let mut store = fresh_store();
    store.upsert_profile("Night", cfg).unwrap();
    store.set_active_profile("Night").unwrap();
    assert!(store.add_palette_color(Rgb::new(1, 2, 3)));

    let second = restart(&store);
    assert_eq!(second.cfg.active_profile, "Night");
    assert_eq!(second.cfg.active_config(), cfg.normalized());
    assert_eq!(second.cfg.palette, vec![Rgb::new(1, 2, 3)]);

    let mut third = restart(&second);
    third.set_active_profile("Default").unwrap();
    assert_eq!(third.cfg.active_config().effect, Effect::Static);
    third.set_active_profile("Night").unwrap();
    assert_eq!(third.cfg.active_config().effect, Effect::Breath);

    let final_store = restart(&third);
    assert_eq!(final_store.cfg.active_profile, "Night");
    assert_eq!(final_store.cfg.active_config(), cfg.normalized());
}

#[test]
fn many_restart_cycles_stay_byte_stable() {
    let mut store = fresh_store();
    for i in 0..20 {
        store
            .upsert_profile(
                &format!("P{i}"),
                LightingConfig {
                    effect: if i % 2 == 0 {
                        Effect::Smooth
                    } else {
                        Effect::WaveLeft
                    },
                    speed: 1 + (i % 4) as u8,
                    brightness: 1 + (i % 2) as u8,
                    ..LightingConfig::default()
                },
            )
            .unwrap();
        store.set_active_profile(&format!("P{i}")).unwrap();
        let reloaded = restart(&store);
        assert_eq!(reloaded.cfg.profiles.len(), i + 2);
        assert_eq!(reloaded.cfg.active_profile, format!("P{i}"));
        store = reloaded;
    }
    let again = restart(&store);
    assert_eq!(again.cfg, store.cfg, "a loaded config loads back unchanged");
}

#[test]
fn detects_c993_among_other_devices() {
    let entries = [
        ("1-1", "0bda\n", "4853\n"),
        ("1-7", "048d\n", "c993\n"),
        ("1-7:1.0", "048d\n", "c993\n"),
        ("1-8", "048d\n", "c996\n"),
        ("usb1", "1d6b\n", ""),
    ];
    let devs: Vec<(u16, u16)> = entries
        .iter()
        .filter_map(|(name, vid, pid)| usb_entry(name, vid, pid))
        .collect();
    assert!(devs.contains(&(0x048d, 0xC993)));
    assert_eq!(
        devs.iter().filter(|d| *d == &(0x048d, 0xC993)).count(),
        1,
        "interface dirs must not double-count"
    );
    let d = detect_from_bus(&devs, None).unwrap();
    assert_eq!(d.vid, 0x048d);
    assert_eq!(d.pid, 0xC993);
    assert_eq!(d.family, "Lenovo LOQ (2024)");
}

use loq_rgb::config::{AppConfig, ConfigStore, OFF_PROFILE};
use loq_rgb::error::Error;
use loq_rgb::model::{Effect, LightingConfig, Rgb, BRIGHTNESS_MAX, SPEED_MAX};
use loq_rgb::profile_map::ProfileMap;
use loq_rgb::profiles::delete_profile;

fn store() -> ConfigStore {
    ConfigStore {
        path: "config.json".to_string(),
        cfg: AppConfig::default(),
    }
}

#[test]
fn defaults_have_one_active_profile() {
    let cfg = AppConfig::default();
    assert_eq!(cfg.version, 1);
    assert_eq!(cfg.active_profile, "Default");
    assert_eq!(cfg.profiles.len(), 1);
    assert!(cfg.profiles.contains_key("Default"));
    assert!(cfg.palette.is_empty());
    assert_eq!(cfg.active_config(), LightingConfig::default());
}

#[test]
fn save_and_load_round_trip() {
    let mut store = store();
    store
        .upsert_profile(
            "gaming",
            LightingConfig {
                effect: Effect::Breath,
                speed: 3,
                brightness: 1,
                zones: [
                    Rgb::new(255, 0, 0),
                    Rgb::new(0, 255, 0),
                    Rgb::new(0, 0, 255),
                    Rgb::new(255, 255, 0),
                ],
            },
        )
        .unwrap();
    store.set_active_profile("gaming").unwrap();
    assert!(store.add_palette_color(Rgb::new(1, 2, 3)));

    let loaded = store.cfg.clone().repaired().unwrap();
    assert_eq!(loaded, store.cfg);
    assert_eq!(loaded.active_profile, "gaming");
    let active = loaded.active_config();
    assert_eq!(active.effect, Effect::Breath);
    assert_eq!(active.zones[0], Rgb::new(255, 0, 0));
    assert_eq!(loaded.palette, vec![Rgb::new(1, 2, 3)]);
}

#[test]
fn invalid_values_are_clamped_on_load() {
    let mut cfg = AppConfig::default();
    cfg.profiles.insert(
        "wild".into(),
        LightingConfig {
            effect: Effect::WaveLeft,
            speed: 99,
            brightness: 99,
            ..LightingConfig::default()
        },
    );
    cfg.active_profile = "wild".into();
    let cfg = cfg.repaired().unwrap();
    let active = cfg.active_config();
    assert_eq!(active.speed, SPEED_MAX);
    assert_eq!(active.brightness, BRIGHTNESS_MAX);
    assert_eq!(cfg.profiles.get("wild").unwrap().speed, SPEED_MAX);
}

#[test]
fn repair_rejects_bad_versions_and_blank_names() {
    let mut cfg = AppConfig::default();
    cfg.version = 2;
    assert_eq!(
        cfg.repaired(),
        Err(Error::Config("unsupported config version 2 (this build reads 1)".into()))
    );
    let mut cfg = AppConfig::default();
    cfg.profiles.insert("  ".into(), LightingConfig::default());
    assert_eq!(cfg.repaired(), Err(Error::Config("profile name must not be empty".into())));
}

#[test]
fn repair_fills_in_missing_pieces() {
    let cfg = AppConfig {
        version: 1,
        active_profile: "Ghost".into(),
        profiles: ProfileMap::new(),
        palette: vec![Rgb::black(); 70],
    };
    let cfg = cfg.repaired().unwrap();
    assert_eq!(cfg.profiles.len(), 1);
    assert_eq!(cfg.active_profile, "Default");
    assert_eq!(cfg.palette.len(), 64);

    let mut two = AppConfig::default();
    two.profiles.insert("Alpha".into(), LightingConfig::default());
    two.active_profile = "Ghost".into();
    assert_eq!(two.repaired().unwrap().active_profile, "Alpha");
}

#[test]
fn active_profile_must_exist() {
    let mut store = store();
    assert!(store.set_active_profile("nope").is_err());
    assert_eq!(store.cfg.active_profile, "Default");
}

#[test]
fn off_name_is_reserved_for_off_configs() {
    let mut store = store();
    assert!(store.upsert_profile(OFF_PROFILE, LightingConfig::default()).is_err());
    let off_cfg = LightingConfig {
        effect: Effect::Off,
        ..LightingConfig::default()
    };
    assert!(store.upsert_profile(OFF_PROFILE, off_cfg).is_ok());
    assert_eq!(store.cfg.profiles.get(OFF_PROFILE).unwrap().brightness, 0);
}

#[test]
fn upsert_trims_and_rejects_blank_names() {
    let mut store = store();
    assert!(store.upsert_profile(" \t", LightingConfig::default()).is_err());
    store.upsert_profile("  Night ", LightingConfig::default()).unwrap();
    assert!(store.cfg.profiles.contains_key("Night"));
}

#[test]
fn profile_operations() {
    let mut store = store();
    store.upsert_profile("b", LightingConfig::default()).unwrap();
    store.set_active_profile("b").unwrap();
    store.upsert_profile("a", LightingConfig::default()).unwrap();
    delete_profile(&mut store, "a").unwrap();
    assert!(!store.cfg.profiles.contains_key("a"));
    assert_eq!(store.cfg.active_profile, "b");
    assert!(store.set_active_profile("a").is_err());
}

#[test]
fn palette_add_and_remove() {
    let mut store = store();
    assert!(store.add_palette_color(Rgb::new(1, 2, 3)));
    assert!(!store.add_palette_color(Rgb::new(1, 2, 3)), "duplicates are not added");
    assert!(store.add_palette_color(Rgb::new(4, 5, 6)));
    assert!(store.remove_palette_color(Rgb::new(1, 2, 3)));
    assert!(!store.remove_palette_color(Rgb::new(9, 9, 9)));
    assert_eq!(store.cfg.palette, vec![Rgb::new(4, 5, 6)]);
}

#[test]
fn profiles_are_kept_in_name_order() {
    let mut map = ProfileMap::new();
    for n in ["Gamma", "alpha", "Beta", "Off", "Alpha"] {
        map.insert(n.to_string(), LightingConfig::default());
    }
    assert_eq!(map.keys(), vec!["Alpha", "Beta", "Gamma", "Off", "alpha"]);
    assert_eq!(map.first_key().as_deref(), Some("Alpha"));
    assert!(map.remove("Beta").is_some());
    assert!(map.remove("Beta").is_none());
    assert_eq!(map.len(), 4);
}

#[test]
fn loading_keeps_every_stored_effect() {
    let mut cfg = AppConfig::default();
    for (name, effect) in [
        ("a", Effect::WaveLeft),
        ("b", Effect::RainbowLeft),
        ("c", Effect::WaveRight),
        ("d", Effect::RainbowRight),
        ("e", Effect::FlowLeft),
    ] {
        cfg.profiles.insert(
            name.into(),
            LightingConfig {
                effect,
                speed: 9,
                ..LightingConfig::default()
            },
        );
    }
    let loaded = cfg.repaired().unwrap();
    for (name, effect) in [
        ("a", Effect::WaveLeft),
        ("b", Effect::RainbowLeft),
        ("c", Effect::WaveRight),
        ("d", Effect::RainbowRight),
        ("e", Effect::FlowLeft),
    ] {
        let p = loaded.profiles.get(name).unwrap();
        assert_eq!(p.effect, effect);
        assert_eq!(p.speed, 4);
    }
}

use loq_rgb::config::{ensure_off_profile, AppConfig, ConfigStore, OFF_PROFILE};
use loq_rgb::hotkey::{advance_profile, cycle_order, next_profile_name};
use loq_rgb::model::{Effect, LightingConfig, Rgb};
use loq_rgb::profile_map::ProfileMap;

fn cfg_with(names: &[&str]) -> AppConfig {
    let mut profiles = ProfileMap::new();
    for n in names {
        profiles.insert(n.to_string(), LightingConfig::default());
    }
    let active = names.first().unwrap_or(&"Default").to_string();
    AppConfig {
        version: 1,
        active_profile: active,
        profiles,
        palette: vec![Rgb::white()],
    }
}

#[test]
fn cycle_ends_with_off_and_wraps() {
    let mut cfg = cfg_with(&["Alpha", "Beta", "Gamma"]);
    ensure_off_profile(&mut cfg);
    assert_eq!(next_profile_name(&cfg, "Alpha").as_deref(), Some("Beta"));
    assert_eq!(next_profile_name(&cfg, "Gamma").as_deref(), Some("Off"));
    assert_eq!(
        next_profile_name(&cfg, "Off").as_deref(),
        Some("Alpha"),
        "wraps back to the first profile after Off"
    );
}

#[test]
fn cycle_order_is_sorted_with_off_last() {
    let cfg = cfg_with(&["Gamma", "Alpha", "Off", "Beta"]);
    let order = cycle_order(&cfg);
    assert_eq!(order, vec!["Alpha", "Beta", "Gamma", "Off"]);
}

#[test]
fn off_profile_has_off_effect() {
    let mut cfg = cfg_with(&["Default"]);
    assert!(ensure_off_profile(&mut cfg));
    assert!(!ensure_off_profile(&mut cfg), "second call must be a no-op");
    let off = cfg.profiles.get(OFF_PROFILE).unwrap();
    assert_eq!(off.effect, Effect::Off);
    assert_eq!(off.brightness, 0, "off config forces brightness 0 on normalize");
}

#[test]
fn missing_active_profile_self_heals_to_first() {
    let mut cfg = cfg_with(&["Alpha", "Beta"]);
    ensure_off_profile(&mut cfg);
    assert_eq!(next_profile_name(&cfg, "Ghost").as_deref(), Some("Beta"));
}

#[test]
fn only_off_profile_has_nowhere_to_cycle() {
    let mut cfg = cfg_with(&[]);
    ensure_off_profile(&mut cfg);
    assert_eq!(next_profile_name(&cfg, OFF_PROFILE), None);
}

#[test]
fn advance_persists_selection_including_off() {
    let mut store = ConfigStore {
        path: "config.json".to_string(),
        cfg: cfg_with(&["Alpha", "Beta"]),
    };
    assert_eq!(advance_profile(&mut store).unwrap(), "Beta");
    assert_eq!(advance_profile(&mut store).unwrap(), "Off");
    assert_eq!(store.cfg.active_profile, OFF_PROFILE);
    assert!(store.cfg.profiles.contains_key(OFF_PROFILE));
    assert_eq!(advance_profile(&mut store).unwrap(), "Alpha");
}

#[test]
fn advance_with_nothing_to_cycle_is_an_error() {
    let mut store = ConfigStore {
        path: "config.json".to_string(),
        cfg: cfg_with(&[]),
    };
    store.cfg.active_profile = OFF_PROFILE.to_string();
    assert!(advance_profile(&mut store).is_err());
    assert!(store.cfg.profiles.contains_key(OFF_PROFILE));
}

use loq_rgb::config::{ensure_off_profile, AppConfig, ConfigStore, OFF_PROFILE};
use loq_rgb::error::Error;
use loq_rgb::model::{LightingConfig, Rgb};
use loq_rgb::profile_map::ProfileMap;
use loq_rgb::profiles::{delete_profile, rename_profile};

fn cfg_with(names: &[&str], active: &str) -> AppConfig {
    let mut profiles = ProfileMap::new();
    for n in names {
        profiles.insert(n.to_string(), LightingConfig::default());
    }
    AppConfig {
        version: 1,
        active_profile: active.to_string(),
        profiles,
        palette: vec![Rgb::white()],
    }
}

fn store_of(cfg: AppConfig) -> ConfigStore {
    ConfigStore {
        path: "config.json".to_string(),
        cfg,
    }
}

fn set_zone0(store: &mut ConfigStore, name: &str, c: Rgb) {
    let mut cfg = store.cfg.profiles.get(name).unwrap();
    cfg.zones[0] = c;
    store.cfg.profiles.insert(name.to_string(), cfg);
}

#[test]
fn deleting_non_active_keeps_everything_else() {
    let mut store = store_of(cfg_with(&["Alpha", "Beta", "Gamma"], "Beta"));
    assert_eq!(delete_profile(&mut store, "Alpha").unwrap(), None);
    assert_eq!(store.cfg.active_profile, "Beta", "active untouched");
    assert!(!store.cfg.profiles.contains_key("Alpha"));
    assert!(store.cfg.profiles.contains_key("Beta"));
    assert!(store.cfg.profiles.contains_key("Gamma"));
}

#[test]
fn deleting_active_profile_switches_active_and_persists() {
    let mut store = store_of(cfg_with(&["Alpha", "Beta", "Gamma"], "Gamma"));
    set_zone0(&mut store, "Alpha", Rgb::new(1, 0, 0));
    set_zone0(&mut store, "Beta", Rgb::new(0, 2, 0));

    let switched = delete_profile(&mut store, "Gamma").unwrap();
    assert_eq!(switched.as_deref(), Some("Alpha"), "falls back to first remaining");
    assert!(!store.cfg.profiles.contains_key("Gamma"));
    assert_eq!(store.cfg.profiles.get("Alpha").unwrap().zones[0], Rgb::new(1, 0, 0));
    assert_eq!(store.cfg.profiles.get("Beta").unwrap().zones[0], Rgb::new(0, 2, 0));
    assert_eq!(store.cfg.active_profile, "Alpha");
}

#[test]
fn deleting_last_user_profile_falls_back_to_off() {
    let mut store = store_of(cfg_with(&["Solo"], "Solo"));
    assert!(!store.cfg.profiles.contains_key(OFF_PROFILE));

    let switched = delete_profile(&mut store, "Solo").unwrap();
    assert_eq!(switched.as_deref(), Some(OFF_PROFILE));
    assert_eq!(store.cfg.active_profile, OFF_PROFILE);
    assert_eq!(store.cfg.profiles.len(), 1, "only the reserved Off profile remains");
    assert!(store.cfg.profiles.contains_key(OFF_PROFILE));
}

#[test]
fn off_profile_cannot_be_deleted() {
    let mut store = store_of(cfg_with(&["Alpha"], "Alpha"));
    ensure_off_profile(&mut store.cfg);
    let err = delete_profile(&mut store, OFF_PROFILE).unwrap_err();
    assert!(err.message().contains("reserved"));
    assert!(store.cfg.profiles.contains_key(OFF_PROFILE));
}

#[test]
fn deleting_missing_profile_is_an_error() {
    let mut store = store_of(cfg_with(&["Alpha"], "Alpha"));
    assert!(delete_profile(&mut store, "Ghost").is_err());
    assert_eq!(
        delete_profile(&mut store, "Ghost").unwrap_err(),
        Error::Config("no profile named \"Ghost\"".into())
    );
}

#[test]
fn fallback_prefers_real_profiles_over_off() {
    let mut store = store_of(cfg_with(&["blue", "Off", "Alpha"], "Off"));
    ensure_off_profile(&mut store.cfg);
    assert_eq!(delete_profile(&mut store, "Alpha").unwrap(), None);
    assert_eq!(store.cfg.active_profile, OFF_PROFILE);
    assert!(store.cfg.profiles.contains_key("blue"));
}

#[test]
fn deleting_active_skips_off_in_name_order() {
    // "Off" sorts before "blue" (upper case first), yet the fallback is "blue".
    let mut store = store_of(cfg_with(&["blue", "Off", "Alpha"], "Alpha"));
    assert_eq!(delete_profile(&mut store, "Alpha").unwrap().as_deref(), Some("blue"));
    assert_eq!(store.cfg.active_profile, "blue");
}

#[test]
fn rename_keeps_config_and_active_untouched() {
    let mut store = store_of(cfg_with(&["Alpha", "Beta"], "Beta"));
    let mut a = store.cfg.profiles.get("Alpha").unwrap();
    a.speed = 4;
    store.cfg.profiles.insert("Alpha".to_string(), a);

    rename_profile(&mut store, "Alpha", "Gamma").unwrap();
    assert!(!store.cfg.profiles.contains_key("Alpha"));
    let renamed = store.cfg.profiles.get("Gamma").expect("renamed exists");
    assert_eq!(renamed.speed, 4, "config survives rename");
    assert_eq!(store.cfg.active_profile, "Beta", "active unaffected");
    assert!(store.cfg.profiles.contains_key("Beta"));
}

#[test]
fn renaming_active_profile_keeps_it_active() {
    let mut store = store_of(cfg_with(&["Alpha", "Beta"], "Alpha"));
    rename_profile(&mut store, "Alpha", "First").unwrap();
    assert_eq!(store.cfg.active_profile, "First");
}

#[test]
fn rename_rejects_collisions_and_reserved_off() {
    let mut store = store_of(cfg_with(&["Alpha", "Beta"], "Alpha"));
    assert!(rename_profile(&mut store, "Alpha", "Beta").is_err(), "collision rejected");
    ensure_off_profile(&mut store.cfg);
    assert!(rename_profile(&mut store, "Beta", OFF_PROFILE).is_err(), "cannot rename onto Off");
    assert!(rename_profile(&mut store, OFF_PROFILE, "X").is_err(), "cannot rename Off");
    assert!(rename_profile(&mut store, "Ghost", "X").is_err());
    assert!(rename_profile(&mut store, "Alpha", "   ").is_err(), "empty name rejected");
    assert!(rename_profile(&mut store, "Alpha", "Alpha").is_ok());
}

#[test]
fn rename_trims_the_new_name() {
    let mut store = store_of(cfg_with(&["Alpha"], "Alpha"));
    rename_profile(&mut store, "Alpha", "  Night  ").unwrap();
    assert!(store.cfg.profiles.contains_key("Night"));
    assert_eq!(store.cfg.active_profile, "Night");
    assert_eq!(
        rename_profile(&mut store, "Night", "Night ").map(|_| store.cfg.profiles.len()),
        Ok(1)
    );
}

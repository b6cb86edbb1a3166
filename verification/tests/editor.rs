use loq_rgb::backend::MockBackend;
use loq_rgb::config::{AppConfig, ConfigStore};
use loq_rgb::controller::Controller;
use loq_rgb::editor::{
    clock_text, preview_colour, typed_hex, zone_note, Editor, FIRMWARE_WAVE_NOTE,
    PALETTE_WAVE_NOTE, SPECTRUM_WAVE_NOTE,
};
use loq_rgb::error::Error;
use loq_rgb::model::{Effect, LightingConfig, Rgb};

fn store() -> ConfigStore {
    ConfigStore {
        path: "config.json".to_string(),
        cfg: AppConfig::default(),
    }
}

fn editor() -> Editor {
    Editor::from_store(store(), None).0
}

fn connected() -> Editor {
    let mut e = editor();
    e.connected(Ok(Controller::new(Box::new(MockBackend::new()))));
    e
}

fn last_sent(e: &mut Editor) -> Option<LightingConfig> {
    e.controller
        .as_mut()
        .unwrap()
        .backend_mut()
        .as_mock_mut()
        .unwrap()
        .last_applied()
}

#[test]
fn opening_adds_off_and_loads_the_active_profile() {
    let (e, added) = Editor::from_store(store(), Some("broken file".into()));
    assert!(added, "Off was missing and must be written back");
    assert!(e.store.cfg.profiles.contains_key("Off"));
    assert_eq!(e.draft, LightingConfig::default());
    assert_eq!(e.hex_buf, "#ffffff");
    assert_eq!(e.selected_zone, 0);
    assert!(!e.dirty);
    assert_eq!(e.store_error.as_deref(), Some("broken file"));
    let (again, added_again) = Editor::from_store(e.store.clone(), None);
    assert!(!added_again);
    assert_eq!(again.store.cfg.profiles.len(), 2);
}

#[test]
fn editing_one_zone_leaves_the_others_alone() {
    let mut e = editor();
    e.select_zone(2);
    e.set_zone_colour(2, Rgb::new(1, 2, 3), 5);
    assert_eq!(e.draft.zones[2], Rgb::new(1, 2, 3));
    assert_eq!(e.draft.zones[0], Rgb::white());
    assert_eq!(e.draft.zones[1], Rgb::white());
    assert_eq!(e.draft.zones[3], Rgb::white());
    assert!(e.dirty);
    assert_eq!(e.last_edit_us, 5);
    assert_eq!(e.hex_buf, "#010203");
}

#[test]
fn speed_only_moves_for_animated_effects_and_brightness_not_when_off() {
    let mut e = editor();
    e.set_speed(4, 1);
    assert_eq!(e.draft.speed, 2, "static has no speed");
    assert!(!e.dirty);
    e.choose_effect(Effect::Breath, 2);
    e.set_speed(9, 3);
    assert_eq!(e.draft.speed, 4, "clamped");
    e.choose_effect(Effect::Off, 4);
    assert_eq!(e.draft.brightness, 0);
    e.set_brightness(2, 5);
    assert_eq!(e.draft.brightness, 0, "off has no brightness");
    assert_eq!(e.last_edit_us, 4);
}

#[test]
fn typed_hex_needs_the_full_hash_form() {
    assert_eq!(typed_hex("#00ff00"), Some(Rgb::new(0, 255, 0)));
    assert_eq!(typed_hex("00ff00"), None);
    assert_eq!(typed_hex("#00ff0"), None);
    let mut e = editor();
    e.hex_typed("#00ff0".to_string(), true, 9);
    assert_eq!(e.hex_buf, "#00ff0");
    assert!(!e.dirty);
    e.hex_typed("#00FF00".to_string(), true, 10);
    assert_eq!(e.draft.zones[0], Rgb::new(0, 255, 0));
    assert_eq!(e.hex_buf, "#00FF00");
    assert!(e.dirty);
}

#[test]
fn edits_are_written_after_a_pause_and_persisted() {
    let mut e = connected();
    assert!(e.apply_on_connect(0) == false, "draft already stored");
    assert!(e.start_applied);
    assert_eq!(e.last_apply_time.as_deref(), Some("00:00:00"));

    e.choose_effect(Effect::Breath, 1_000_000);
    assert!(!e.flush_pending(1_100_000), "still editing");
    assert!(e.dirty);
    assert_eq!(last_sent(&mut e).unwrap().effect, Effect::Static);

    assert!(e.flush_pending(3_661_000_000), "persisted into the active profile");
    assert!(!e.dirty);
    assert_eq!(last_sent(&mut e).unwrap().effect, Effect::Breath);
    assert_eq!(e.store.cfg.profiles.get("Default").unwrap().effect, Effect::Breath);
    assert_eq!(e.last_apply_time.as_deref(), Some("01:01:01"));
    assert_eq!(e.sent_status(), "sent to hardware at 01:01:01");
    assert!(!e.apply_draft(3_700_000_000), "nothing new to store");
}

#[test]
fn nothing_is_sent_or_stored_without_a_controller() {
    let mut e = editor();
    e.choose_effect(Effect::Smooth, 0);
    assert!(!e.flush_pending(1_000_000));
    assert_eq!(e.store.cfg.profiles.get("Default").unwrap().effect, Effect::Static);
    assert_eq!(e.sent_status(), "nothing sent yet");
}

#[test]
fn a_lit_draft_is_not_stored_under_off() {
    let mut e = connected();
    e.store.cfg.active_profile = "Off".to_string();
    e.choose_effect(Effect::Static, 0);
    assert!(!e.apply_draft(0));
    assert!(e.store_error.as_deref().unwrap().contains("reserved"));
}

#[test]
fn switching_profiles_loads_the_draft_and_activates_it() {
    let mut e = editor();
    let night = LightingConfig {
        effect: Effect::Smooth,
        speed: 3,
        brightness: 1,
        zones: [Rgb::new(9, 9, 9); 4],
    };
    e.store.upsert_profile("Night", night).unwrap();
    e.select_zone(1);
    assert!(!e.select_profile("Default", 5), "already active");
    assert!(!e.select_profile("Ghost", 5));
    assert!(e.select_profile("Night", 7));
    assert_eq!(e.store.cfg.active_profile, "Night");
    assert_eq!(e.draft, night);
    assert!(e.dirty);
    assert_eq!(e.hex_buf, "#090909");
}

#[test]
fn save_as_trims_and_clears_the_field() {
    let mut e = editor();
    e.save_as_name = "   ".to_string();
    assert!(!e.save_as());
    e.save_as_name = "  Gaming ".to_string();
    assert!(e.save_as());
    assert!(e.save_as_name.is_empty());
    assert!(e.store.cfg.profiles.contains_key("Gaming"));
    assert_eq!(e.store.cfg.active_profile, "Default");
    assert!(e.save_current(3));
    assert!(e.dirty);
}

#[test]
fn palette_keeps_each_colour_once() {
    let mut e = editor();
    assert!(e.save_zone_to_palette());
    assert!(!e.save_zone_to_palette());
    assert_eq!(e.store.cfg.palette, vec![Rgb::white()]);
    assert!(e.remove_palette_colour(Rgb::white()));
    assert!(e.store.cfg.palette.is_empty());
    assert!(!e.remove_palette_colour(Rgb::white()));
}

#[test]
fn deleting_the_active_profile_moves_the_editor_along() {
    let mut e = editor();
    e.store.upsert_profile("Alpha", LightingConfig { effect: Effect::Breath, ..LightingConfig::default() }).unwrap();
    e.request_delete();
    assert_eq!(e.pending_delete.as_deref(), Some("Default"));
    assert!(!e.resolve_delete(false));
    assert!(e.pending_delete.is_none());
    assert!(e.store.cfg.profiles.contains_key("Default"));

    e.request_delete();
    assert!(e.resolve_delete(true));
    assert!(!e.store.cfg.profiles.contains_key("Default"));
    assert_eq!(e.store.cfg.active_profile, "Alpha");
    assert_eq!(e.draft.effect, Effect::Breath);
    assert_eq!(
        e.notice.as_deref(),
        Some("Deleted \"Default\". It was active — the active profile is now \"Alpha\" (keyboard lighting unchanged).")
    );
}

#[test]
fn off_cannot_be_deleted_from_the_window() {
    let mut e = editor();
    e.store.cfg.active_profile = "Off".to_string();
    assert!(!e.delete_allowed());
    e.request_delete();
    assert!(e.pending_delete.is_none());
    e.pending_delete = Some("Off".to_string());
    assert!(!e.resolve_delete(true));
    assert!(e.store.cfg.profiles.contains_key("Off"));
}

#[test]
fn rename_dialog_renames_and_reports() {
    let mut e = editor();
    e.pending_rename = Some("Default".to_string());
    e.rename_new_name = "  ".to_string();
    assert!(!e.can_rename());
    e.rename_new_name = " Work ".to_string();
    assert!(e.can_rename());
    assert!(e.confirm_rename());
    assert!(e.pending_rename.is_none());
    assert!(e.rename_new_name.is_empty());
    assert_eq!(e.store.cfg.active_profile, "Work");
    assert_eq!(e.notice.as_deref(), Some("Renamed \"Default\" to \"Work\"."));

    e.pending_rename = Some("Work".to_string());
    e.rename_new_name = "Off".to_string();
    assert!(!e.confirm_rename());
    assert!(e.store_error.is_some());
    assert!(e.store.cfg.profiles.contains_key("Work"));
}

#[test]
fn clock_wraps_at_midnight() {
    assert_eq!(clock_text(0), "00:00:00");
    assert_eq!(clock_text(3661), "01:01:01");
    assert_eq!(clock_text(86_399), "23:59:59");
    assert_eq!(clock_text(86_400 + 62), "00:01:02");
}

#[test]
fn preview_shows_what_the_leds_show() {
    let mut cfg = LightingConfig::default();
    cfg.zones[1] = Rgb::new(200, 100, 50);
    assert_eq!(preview_colour(&cfg, 1), Rgb::new(200, 100, 50));
    cfg.brightness = 1;
    assert_eq!(preview_colour(&cfg, 1), Rgb::new(120, 60, 30), "dimmed at low brightness");
    cfg.effect = Effect::Off;
    assert_eq!(preview_colour(&cfg, 1), Rgb::from_gray(24));
    cfg.effect = Effect::Smooth;
    assert_eq!(preview_colour(&cfg, 1), Rgb::from_gray(64));
}

#[test]
fn zone_note_explains_the_colours() {
    let mut cfg = LightingConfig::default();
    assert_eq!(zone_note(&cfg), None);
    cfg.effect = Effect::FlowLeft;
    assert_eq!(zone_note(&cfg), Some(SPECTRUM_WAVE_NOTE));
    cfg.zones[0] = Rgb::new(255, 0, 0);
    assert_eq!(zone_note(&cfg), Some(PALETTE_WAVE_NOTE));
    cfg.effect = Effect::WaveLeft;
    assert_eq!(zone_note(&cfg), Some(FIRMWARE_WAVE_NOTE));
    cfg.effect = Effect::Smooth;
    assert!(zone_note(&cfg).unwrap().contains("are not used"));
}

#[test]
fn animator_is_started_once_per_wave_session() {
    let mut e = editor();
    assert!(!e.animation_needed());
    e.choose_effect(Effect::FlowRight, 0);
    assert!(e.animation_needed());
    assert!(e.spawn_due());
    assert!(!e.spawn_due());
    assert!(!e.spawned(Err(Error::Io("cannot start".into()))));
    assert_eq!(
        e.daemon_notice.as_deref(),
        Some("Animating from this window (could not start the background animator: I/O error talking to the controller: cannot start). The wave pauses when you close this window.")
    );
    assert!(e.spawned(Ok(77)));
    assert!(e.daemon_notice.as_deref().unwrap().contains("(pid 77)"));
    e.animator_found(88);
    assert!(e.daemon_notice.as_deref().unwrap().starts_with("Background animator (pid 88)"));
    e.choose_effect(Effect::Static, 1);
    assert!(!e.animation_needed());
    assert!(e.daemon_notice.is_none());
    assert!(e.spawn_due(), "a new wave session may try again");
}

#[test]
fn wave_frames_leave_the_draft_alone() {
    let mut e = connected();
    e.choose_effect(Effect::FlowLeft, 0);
    let draft = e.draft;
    let zones = [Rgb::new(1, 0, 0), Rgb::new(0, 1, 0), Rgb::new(0, 0, 1), Rgb::new(1, 1, 1)];
    e.apply_frame(zones, 2_000_000);
    assert_eq!(e.draft, draft);
    assert_eq!(last_sent(&mut e).unwrap().zones, zones);
    assert_eq!(e.last_apply_time.as_deref(), Some("00:00:02"));
}

#[test]
fn readback_without_controller_says_so() {
    let mut e = editor();
    e.read_back();
    assert_eq!(
        e.readback,
        Some(Err(Error::DeviceNotFound("controller not connected".into())))
    );
    let mut c = connected();
    c.read_back();
    assert!(matches!(c.readback, Some(Err(Error::Unsupported(_)))));
}

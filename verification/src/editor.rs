//! The desktop window's editing state and every decision it takes: the
//! draft configuration and how edits change it, when an edit is written to
//! the keyboard, persisting the draft into the active profile, switching,
//! saving, deleting and renaming profiles, the saved-colour palette, the
//! background-animator notices and the status texts. Drawing, the colour
//! picker's float maths, clocks and files are the application's part; times
//! reach this module as microseconds.

use vstd::prelude::*;

use crate::config::{capped, ensure_off_profile, no_profile_message, with_off, AppConfig, ConfigStore,
    EMPTY_NAME_MESSAGE, OFF_PROFILE, RESERVED_OFF_MESSAGE};
use crate::backend::mock_read;
use crate::controller::Controller;
use crate::effects::{reason_text, UnsupportedReason};
use crate::error::{error_detail, error_prefix, Error};
use crate::listener::EDIT_SETTLE_US;
use crate::model::{hex_colour, parse_hex_colour, Effect, DeviceState, LightingConfig, Rgb, ZONE_COUNT};
use crate::packet::{led_palette, led_zones};
use crate::flow::{palette_mode, uses_palette};
use crate::profiles::{collision_message, delete_profile, fallback_name, rename_profile,
    RENAME_OFF_MESSAGE};
use crate::text::{debug_quoted, decimal, is_blank, lemma_trim_idempotent, owned, push_decimal,
    push_str, quoted, str_eq, trim, trimmed};

verus! {

// ---------------------------------------------------------------------------
// Texts
// ---------------------------------------------------------------------------

/// A number below 100 as at least two digits.
pub open spec fn two_digits(n: nat) -> Seq<char> {
    if n < 10 {
        "0"@ + decimal(n)
    } else {
        decimal(n)
    }
}

/// `HH:MM:SS` of a count of seconds, wrapped to one day.
pub open spec fn clock_spec(secs: nat) -> Seq<char> {
    two_digits((secs / 3600) % 24) + ":"@ + two_digits((secs / 60) % 60) + ":"@ + two_digits(
        secs % 60,
    )
}

fn push_two_digits(s: &mut String, n: u64)
    requires
        n < 100,
    ensures
        final(s)@ == old(s)@ + two_digits(n as nat),
{
    if n < 10 {
        push_str(s, "0");
    }
    push_decimal(s, n);
}

/// The time of day of a count of seconds, as the status bar shows it.
pub fn clock_text(secs: u64) -> (s: String)
    ensures
        s@ == clock_spec(secs as nat),
{
    let mut s = String::new();
    push_two_digits(&mut s, (secs / 3600) % 24);
    push_str(&mut s, ":");
    push_two_digits(&mut s, (secs / 60) % 60);
    push_str(&mut s, ":");
    push_two_digits(&mut s, secs % 60);
    assert(s@ =~= clock_spec(secs as nat));
    s
}

/// The status bar's note on the last write.
pub open spec fn sent_text(last_apply_time: Option<Seq<char>>) -> Seq<char> {
    match last_apply_time {
        Some(t) => "sent to hardware at "@ + t,
        None => "nothing sent yet"@,
    }
}

/// The notice after a deletion.
pub open spec fn deleted_notice(name: Seq<char>, new_active: Option<Seq<char>>) -> Seq<char> {
    match new_active {
        Some(a) => "Deleted "@ + debug_quoted(name)
            + ". It was active \u{2014} the active profile is now "@ + debug_quoted(a)
            + " (keyboard lighting unchanged)."@,
        None => "Deleted profile "@ + debug_quoted(name) + "."@,
    }
}

/// The notice after a rename.
pub open spec fn renamed_notice(old_name: Seq<char>, new_name: Seq<char>) -> Seq<char> {
    "Renamed "@ + debug_quoted(old_name) + " to "@ + debug_quoted(new_name) + "."@
}

/// The notice while another process animates the colour wave.
pub open spec fn animator_notice(pid: u32) -> Seq<char> {
    "Background animator (pid "@ + decimal(pid as nat)
        + ") is driving the colour wave, and keeps it running if you close this window. Saving a change? It is applied within ~1 s. Stop it with: pkill -f 'loq-rgb-cli listen-hotkeys'"@
}

/// The notice when the background animator was just started.
pub open spec fn starting_notice(pid: u32) -> Seq<char> {
    "Starting the background animator (pid "@ + decimal(pid as nat)
        + ") so the colour wave keeps running when this window is closed."@
}

/// The notice when the background animator could not be started.
pub open spec fn fallback_notice(e: Error) -> Seq<char> {
    "Animating from this window (could not start the background animator: "@ + error_prefix(e)
        + error_detail(e)
        + "). The wave pauses when you close this window."@
}

pub const ZONES_INTRO: &'static str =
    "Four independent colour zones. Edit one zone without touching the others.";

pub const PALETTE_WAVE_NOTE: &'static str =
    "Colour wave: these four colours are the wave's colour blocks \u{2014} they glide across the keyboard with smooth blends between them. Runs while this window or the listener daemon is open.";

pub const SPECTRUM_WAVE_NOTE: &'static str =
    "All four zone colours are identical \u{2014} the colour wave shows the full colour spectrum instead. Pick different zone colours to make your own palette wave.";

pub const FIRMWARE_WAVE_NOTE: &'static str =
    "For the wave effects these four colours form the moving wave's palette (verified on this hardware).";

pub const MATCHES_TEXT: &'static str = "\u{2713} matches applied config";

pub const DIFFERS_TEXT: &'static str =
    "\u{2717} differs from applied config (Fn-key cycle or external change?)";

pub const NOT_CONNECTED: &'static str = "controller not connected";

/// The note under the zone heading: for editable colours, what they mean
/// for the chosen effect (nothing for static and breathing); otherwise why
/// they cannot be edited.
pub open spec fn zone_note_spec(cfg: LightingConfig) -> Option<Seq<char>> {
    if !cfg.effect.uses_zone_colors() {
        Some(reason_text(UnsupportedReason::EffectIgnoresZoneColors))
    } else if cfg.effect is FlowLeft || cfg.effect is FlowRight {
        if palette_mode(cfg) {
            Some(PALETTE_WAVE_NOTE@)
        } else {
            Some(SPECTRUM_WAVE_NOTE@)
        }
    } else if cfg.effect.is_animated() {
        Some(FIRMWARE_WAVE_NOTE@)
    } else {
        None
    }
}

pub fn zone_note(cfg: &LightingConfig) -> (n: Option<&'static str>)
    ensures
        n matches Some(t) ==> zone_note_spec(*cfg) == Some(t@),
        n is None ==> zone_note_spec(*cfg) is None,
{
    if !cfg.effect.uses_zone_colors() {
        Some(UnsupportedReason::EffectIgnoresZoneColors.text())
    } else if matches!(cfg.effect, Effect::FlowLeft | Effect::FlowRight) {
        if uses_palette(cfg) {
            Some(PALETTE_WAVE_NOTE)
        } else {
            Some(SPECTRUM_WAVE_NOTE)
        }
    } else if cfg.effect.is_animated() {
        Some(FIRMWARE_WAVE_NOTE)
    } else {
        None
    }
}

/// What the keyboard drawing shows for a zone: what the LEDs show, except
/// a dark grey for off and a mid grey for smooth flow, whose colours the
/// firmware picks.
pub open spec fn preview_spec(cfg: LightingConfig, zone: int) -> Rgb {
    match cfg.effect {
        Effect::Off => Rgb { r: 24, g: 24, b: 24 },
        Effect::Smooth => Rgb { r: 64, g: 64, b: 64 },
        _ => led_palette(cfg)[zone],
    }
}

pub fn preview_colour(cfg: &LightingConfig, zone: usize) -> (c: Rgb)
    requires
        zone < ZONE_COUNT,
    ensures
        c == preview_spec(*cfg, zone as int),
{
    match cfg.effect {
        Effect::Off => Rgb::from_gray(24),
        Effect::Smooth => Rgb::from_gray(64),
        _ => led_zones(cfg)[zone],
    }
}

/// A colour typed into the hex field counts only in the full `#rrggbb`
/// form.
pub open spec fn typed_colour(text: Seq<char>) -> Option<Rgb> {
    if text.len() == 7 && text[0] == '#' {
        parse_hex_colour(text)
    } else {
        None
    }
}

pub fn typed_hex(text: &str) -> (r: Option<Rgb>)
    ensures
        r == typed_colour(text@),
{
    if text.unicode_len() == 7 && text.get_char(0) == '#' {
        Rgb::from_hex(text)
    } else {
        None
    }
}

// ---------------------------------------------------------------------------
// The editor
// ---------------------------------------------------------------------------

/// Would `upsert_profile` accept this name and config?
pub open spec fn upsert_accepts(name: Seq<char>, cfg: LightingConfig) -> bool {
    trim(name).len() > 0 && (trim(name) != OFF_PROFILE@ || cfg.effect is Off)
}

/// How a configuration error reads in the status bar.
pub open spec fn config_error_text(m: Seq<char>) -> Seq<char> {
    "Configuration error: "@ + m
}

/// Why `upsert_profile` refuses a name and config, as the status bar
/// shows it.
pub open spec fn refusal_text(name: Seq<char>) -> Seq<char> {
    if trim(name).len() == 0 {
        config_error_text(EMPTY_NAME_MESSAGE@)
    } else {
        config_error_text(RESERVED_OFF_MESSAGE@)
    }
}

/// Why `rename_profile` refuses to rename `old_name` to the trimmed name
/// `t` (meaningful only when it does refuse).
pub open spec fn rename_refusal(before: AppConfig, old_name: Seq<char>, t: Seq<char>) -> Seq<char> {
    if old_name == OFF_PROFILE@ || t == OFF_PROFILE@ {
        RENAME_OFF_MESSAGE@
    } else if t.len() == 0 {
        EMPTY_NAME_MESSAGE@
    } else if !before.profiles@.dom().contains(old_name) {
        no_profile_message(old_name)
    } else {
        collision_message(t)
    }
}

/// The editing state of the window.
pub struct Editor {
    /// The connected controller, if any.
    pub controller: Option<Controller>,
    /// Why the last attempt to open the controller failed.
    pub open_error: Option<Error>,
    pub store: ConfigStore,
    /// The last failure to change or write the stored profiles.
    pub store_error: Option<String>,
    /// Informational (non-error) message for the status bar.
    pub notice: Option<String>,
    /// Profile awaiting delete confirmation.
    pub pending_delete: Option<String>,
    /// Profile awaiting rename, and the new name being typed.
    pub pending_rename: Option<String>,
    pub rename_new_name: String,
    /// The configuration being edited (kept normalised by every edit).
    pub draft: LightingConfig,
    /// The draft has edits not yet written to the keyboard.
    pub dirty: bool,
    /// When the draft was last edited.
    pub last_edit_us: u64,
    /// The draft was written once since the controller was connected.
    pub start_applied: bool,
    pub selected_zone: usize,
    /// Text of the hex field for the selected zone.
    pub hex_buf: String,
    /// Time of day of the last successful write.
    pub last_apply_time: Option<String>,
    pub readback: Option<Result<DeviceState, Error>>,
    /// Name typed for "Save as…".
    pub save_as_name: String,
    /// What the background animator is doing.
    pub daemon_notice: Option<String>,
    /// Starting the background animator was tried for this colour-wave
    /// session.
    pub animator_spawn_attempted: bool,
}

impl Editor {
    /// The profile map is well formed and a zone is selected.
    pub open spec fn inv(&self) -> bool {
        self.store.cfg.profiles.wf() && self.selected_zone < ZONE_COUNT
    }

    /// The hex field shows the selected zone's colour.
    pub open spec fn hex_shows_selected(&self) -> bool {
        self.hex_buf@ == hex_colour(self.draft.zones[self.selected_zone as int])
    }

    /// Everything but the draft and its bookkeeping is the same.
    pub open spec fn same_but_draft(&self, other: &Editor) -> bool {
        &&& self.controller == other.controller
        &&& self.open_error == other.open_error
        &&& self.store == other.store
        &&& self.store_error == other.store_error
        &&& self.notice == other.notice
        &&& self.pending_delete == other.pending_delete
        &&& self.pending_rename == other.pending_rename
        &&& self.rename_new_name == other.rename_new_name
        &&& self.start_applied == other.start_applied
        &&& self.selected_zone == other.selected_zone
        &&& self.last_apply_time == other.last_apply_time
        &&& self.readback == other.readback
        &&& self.save_as_name == other.save_as_name
        &&& self.daemon_notice == other.daemon_notice
        &&& self.animator_spawn_attempted == other.animator_spawn_attempted
    }

    /// The editor a window opens with: the reserved Off profile added when
    /// it is missing (the second result says so: the store must then be
    /// written back), the active profile as the draft, zone 1 selected.
    pub fn from_store(store: ConfigStore, store_error: Option<String>) -> (r: (Editor, bool))
        requires
            store.cfg.profiles.wf(),
        ensures
            r.0.inv(),
            r.1 == !store.cfg.profiles@.dom().contains(OFF_PROFILE@),
            r.0.store.cfg.profiles@ == with_off(store.cfg.profiles@),
            r.0.store.cfg.active_profile == store.cfg.active_profile,
            r.0.store.cfg.palette == store.cfg.palette,
            r.0.store.cfg.version == store.cfg.version,
            r.0.store.path == store.path,
            r.0.draft == r.0.store.cfg.active_lighting(),
            r.0.selected_zone == 0,
            r.0.hex_shows_selected(),
            !r.0.dirty,
            !r.0.start_applied,
            r.0.controller is None && r.0.open_error is None,
            r.0.store_error == store_error,
            r.0.notice is None && r.0.pending_delete is None && r.0.pending_rename is None,
            r.0.last_apply_time is None && r.0.readback is None && r.0.daemon_notice is None,
            !r.0.animator_spawn_attempted,
    {
        let mut store = store;
        let added = ensure_off_profile(&mut store.cfg);
        let draft = store.cfg.active_config();
        let hex_buf = draft.zones[0].to_hex();
        let e = Editor {
            controller: None,
            open_error: None,
            store,
            store_error,
            notice: None,
            pending_delete: None,
            pending_rename: None,
            rename_new_name: String::new(),
            draft,
            dirty: false,
            last_edit_us: 0,
            start_applied: false,
            selected_zone: 0,
            hex_buf,
            last_apply_time: None,
            readback: None,
            save_as_name: String::new(),
            daemon_notice: None,
            animator_spawn_attempted: false,
        };
        (e, added)
    }

    /// Finish an edit: normalise the draft, mark it pending and refresh the
    /// hex field.
    fn touch(&mut self, now_us: u64)
        requires
            old(self).inv(),
        ensures
            final(self).inv(),
            final(self).same_but_draft(&*old(self)),
            final(self).draft == old(self).draft.normal_form(),
            final(self).dirty,
            final(self).last_edit_us == now_us,
            final(self).hex_shows_selected(),
    {
        self.draft = self.draft.normalized();
        self.dirty = true;
        self.last_edit_us = now_us;
        self.hex_buf = self.draft.zones[self.selected_zone].to_hex();
    }

    /// Choose the effect. The zone colours are kept: effects that ignore
    /// them simply do not send them.
    pub fn choose_effect(&mut self, effect: Effect, now_us: u64)
        requires
            old(self).inv(),
        ensures
            final(self).inv(),
            final(self).same_but_draft(&*old(self)),
            final(self).draft == (LightingConfig { effect, ..old(self).draft }).normal_form(),
            final(self).dirty,
            final(self).last_edit_us == now_us,
            final(self).hex_shows_selected(),
    {
        self.draft.effect = effect;
        self.touch(now_us);
    }

    /// Move the speed slider; it only acts for animated effects.
    pub fn set_speed(&mut self, speed: u8, now_us: u64)
        requires
            old(self).inv(),
        ensures
            final(self).inv(),
            final(self).same_but_draft(&*old(self)),
            old(self).draft.effect.is_animated() && speed != old(self).draft.speed ==> {
                &&& final(self).draft == (LightingConfig { speed, ..old(self).draft }).normal_form()
                &&& final(self).dirty
                &&& final(self).last_edit_us == now_us
                &&& final(self).hex_shows_selected()
            },
            !(old(self).draft.effect.is_animated() && speed != old(self).draft.speed) ==> *final(self)
                == *old(self),
    {
        if self.draft.effect.is_animated() && speed != self.draft.speed {
            self.draft.speed = speed;
            self.touch(now_us);
        }
    }

    /// Pick the brightness; it only acts while the lighting is on.
    pub fn set_brightness(&mut self, brightness: u8, now_us: u64)
        requires
            old(self).inv(),
        ensures
            final(self).inv(),
            final(self).same_but_draft(&*old(self)),
            !(old(self).draft.effect is Off) && brightness != old(self).draft.brightness ==> {
                &&& final(self).draft == (LightingConfig { brightness, ..old(self).draft }).normal_form()
                &&& final(self).dirty
                &&& final(self).last_edit_us == now_us
                &&& final(self).hex_shows_selected()
            },
            !(!(old(self).draft.effect is Off) && brightness != old(self).draft.brightness) ==> *final(self) == *old(self),
    {
        if !self.draft.is_off() && brightness != self.draft.brightness {
            self.draft.brightness = brightness;
            self.touch(now_us);
        }
    }

    /// Give one zone a colour; the other zones are untouched.
    pub fn set_zone_colour(&mut self, zone: usize, colour: Rgb, now_us: u64)
        requires
            old(self).inv(),
            zone < ZONE_COUNT,
        ensures
            final(self).inv(),
            final(self).same_but_draft(&*old(self)),
            final(self).draft.zones@ == old(self).draft.zones@.update(zone as int, colour),
            final(self).draft.effect == old(self).draft.effect,
            final(self).draft.speed == old(self).draft.normal_form().speed,
            final(self).draft.brightness == old(self).draft.normal_form().brightness,
            final(self).dirty,
            final(self).last_edit_us == now_us,
            final(self).hex_shows_selected(),
    {
        self.draft.zones[zone] = colour;
        assert(self.draft.zones@ =~= old(self).draft.zones@.update(zone as int, colour));
        self.touch(now_us);
    }

    /// Select the zone the colour editor works on.
    pub fn select_zone(&mut self, zone: usize)
        requires
            old(self).inv(),
            zone < ZONE_COUNT,
        ensures
            final(self).inv(),
            final(self).hex_shows_selected(),
            *final(self) == (Editor { selected_zone: zone, hex_buf: final(self).hex_buf, ..*old(self) }),
    {
        self.selected_zone = zone;
        self.hex_buf = self.draft.zones[zone].to_hex();
    }

    /// The hex field's text after a frame; when the user changed it to a
    /// full `#rrggbb` colour, the selected zone takes that colour.
    pub fn hex_typed(&mut self, text: String, changed: bool, now_us: u64)
        requires
            old(self).inv(),
        ensures
            final(self).inv(),
            final(self).same_but_draft(&*old(self)),
            final(self).hex_buf == text,
            changed && typed_colour(text@) is Some ==> {
                &&& final(self).draft.zones@ == old(self).draft.zones@.update(
                    old(self).selected_zone as int,
                    typed_colour(text@).unwrap(),
                )
                &&& final(self).draft.effect == old(self).draft.effect
                &&& final(self).draft.speed == old(self).draft.normal_form().speed
                &&& final(self).draft.brightness == old(self).draft.normal_form().brightness
                &&& final(self).dirty
                &&& final(self).last_edit_us == now_us
            },
            !(changed && typed_colour(text@) is Some) ==> final(self).draft == old(self).draft
                && final(self).dirty == old(self).dirty && final(self).last_edit_us == old(self).last_edit_us,
    {
        if changed {
            match typed_hex(text.as_str()) {
                Some(c) => {
                    let zone = self.selected_zone;
                    self.set_zone_colour(zone, c, now_us);
                },
                None => {},
            }
        }
        self.hex_buf = text;
    }

    /// The draft is what the active profile stores.
    pub open spec fn draft_stored(&self) -> bool {
        self.store.cfg.profiles@.dom().contains(self.store.cfg.active_profile@)
            && self.store.cfg.profiles@[self.store.cfg.active_profile@] == self.draft
    }

    /// Only the stored profiles and the store error may differ.
    pub open spec fn same_but_store(&self, other: &Editor) -> bool {
        &&& self.controller == other.controller
        &&& self.open_error == other.open_error
        &&& self.notice == other.notice
        &&& self.pending_delete == other.pending_delete
        &&& self.pending_rename == other.pending_rename
        &&& self.rename_new_name == other.rename_new_name
        &&& self.draft == other.draft
        &&& self.dirty == other.dirty
        &&& self.last_edit_us == other.last_edit_us
        &&& self.start_applied == other.start_applied
        &&& self.selected_zone == other.selected_zone
        &&& self.hex_buf == other.hex_buf
        &&& self.last_apply_time == other.last_apply_time
        &&& self.readback == other.readback
        &&& self.save_as_name == other.save_as_name
        &&& self.daemon_notice == other.daemon_notice
        &&& self.animator_spawn_attempted == other.animator_spawn_attempted
    }

    /// The store after storing `cfg` under `name` in `before`: accepted
    /// names get the normalised config, refused ones leave the profiles
    /// alone and record an error.
    pub open spec fn stored_as(&self, before: &Editor, name: Seq<char>, cfg: LightingConfig, changed: bool) -> bool {
        &&& self.store.path == before.store.path
        &&& self.store.cfg.version == before.store.cfg.version
        &&& self.store.cfg.palette == before.store.cfg.palette
        &&& self.store.cfg.active_profile == before.store.cfg.active_profile
        &&& upsert_accepts(name, cfg) ==> changed && self.store.cfg.profiles@
            == before.store.cfg.profiles@.insert(trim(name), cfg.normal_form())
            && self.store_error == before.store_error
        &&& !upsert_accepts(name, cfg) ==> !changed && self.store.cfg.profiles
            == before.store.cfg.profiles && (self.store_error matches Some(t) && t@ == refusal_text(
            name,
        ))
    }

    /// Store `cfg` under `name`, recording a refusal in `store_error`.
    fn store_profile(&mut self, name: &str, cfg: LightingConfig) -> (changed: bool)
        requires
            old(self).inv(),
        ensures
            final(self).inv(),
            final(self).same_but_store(&*old(self)),
            final(self).stored_as(&*old(self), name@, cfg, changed),
            old(self).store.cfg.active_exists() ==> final(self).store.cfg.active_exists(),
    {
        match self.store.upsert_profile(name, cfg) {
            Ok(()) => true,
            Err(e) => {
                self.store_error = Some(e.message());
                false
            },
        }
    }

    /// Write the draft into the active profile unless it already stores
    /// it, so every front end sees what is on the keyboard. Returns whether
    /// the store must be written back.
    fn persist_draft(&mut self) -> (changed: bool)
        requires
            old(self).inv(),
        ensures
            final(self).inv(),
            final(self).same_but_store(&*old(self)),
            old(self).draft_stored() ==> *final(self) == *old(self) && !changed,
            !old(self).draft_stored() ==> final(self).stored_as(
                &*old(self),
                old(self).store.cfg.active_profile@,
                old(self).draft,
                changed,
            ),
    {
        let stored = match self.store.cfg.profiles.get(self.store.cfg.active_profile.as_str()) {
            Some(c) => c == self.draft,
            None => false,
        };
        if stored {
            return false;
        }
        let name = self.store.cfg.active_profile.clone();
        let draft = self.draft;
        self.store_profile(name.as_str(), draft)
    }

    /// What writing the draft did, starting from `before`: without a
    /// controller nothing; with one, the draft was sent (a success is timed
    /// and counts as the start-up write) and then persisted into the active
    /// profile unless it already stored it. Only the controller, the write
    /// time, the start-up mark and the store change.
    pub open spec fn wrote_draft(&self, before: &Editor, now_us: u64, changed: bool) -> bool {
        &&& *self == (Editor {
            controller: self.controller,
            last_apply_time: self.last_apply_time,
            start_applied: self.start_applied,
            store: self.store,
            store_error: self.store_error,
            ..*before
        })
        &&& before.controller is None ==> *self == *before && !changed
        &&& before.controller is Some ==> {
            &&& self.controller matches Some(c) && {
                &&& c.failure() is None ==> (c.applied() == Some(before.draft.normal_form())
                    && self.start_applied && (self.last_apply_time matches Some(t) && t@
                    == clock_spec(now_us as nat / 1_000_000)))
                &&& c.failure() is Some ==> (c.applied() == before.controller->0.applied()
                    && self.start_applied == before.start_applied && self.last_apply_time
                    == before.last_apply_time)
                &&& Controller::sent(before.controller->0, c, before.draft)
            }
            &&& before.draft_stored() ==> self.store == before.store && !changed && self.store_error
                == before.store_error
            &&& !before.draft_stored() ==> self.stored_as(
                before,
                before.store.cfg.active_profile@,
                before.draft,
                changed,
            )
        }
    }

    /// Send the draft to the keyboard (nothing happens without a
    /// controller). A successful write is timed and counts as the start-up
    /// write; either way the draft is then persisted into the active
    /// profile. Returns whether the store must be written back.
    pub fn apply_draft(&mut self, now_us: u64) -> (changed: bool)
        requires
            old(self).inv(),
        ensures
            final(self).inv(),
            final(self).wrote_draft(&*old(self), now_us, changed),
    {
        match self.controller.as_mut() {
            None => {
                return false;
            },
            Some(c) => {
                match c.apply(self.draft) {
                    Ok(()) => {
                        self.last_apply_time = Some(clock_text(now_us / 1_000_000));
                        self.start_applied = true;
                    },
                    Err(_) => {},
                }
            },
        }
        self.persist_draft()
    }

    /// Once a frame: write the pending edit when the user has paused
    /// editing. Returns whether the store must be written back.
    pub fn flush_pending(&mut self, now_us: u64) -> (changed: bool)
        requires
            old(self).inv(),
        ensures
            final(self).inv(),
            !(old(self).dirty && now_us >= old(self).last_edit_us && now_us - old(self).last_edit_us
                >= EDIT_SETTLE_US) ==> *final(self) == *old(self) && !changed,
            old(self).dirty && now_us >= old(self).last_edit_us && now_us - old(self).last_edit_us
                >= EDIT_SETTLE_US ==> final(self).wrote_draft(
                &Editor { dirty: false, ..*old(self) },
                now_us,
                changed,
            ),
    {
        if !self.dirty || now_us < self.last_edit_us || now_us - self.last_edit_us < EDIT_SETTLE_US {
            return false;
        }
        self.dirty = false;
        self.apply_draft(now_us)
    }

    /// "Apply now": write the draft at once, dropping the pending mark.
    /// Returns whether the store must be written back.
    pub fn apply_now(&mut self, now_us: u64) -> (changed: bool)
        requires
            old(self).inv(),
        ensures
            final(self).inv(),
            final(self).wrote_draft(&Editor { dirty: false, ..*old(self) }, now_us, changed),
    {
        self.dirty = false;
        self.apply_draft(now_us)
    }

    /// The result of trying to open the controller: a new connection is
    /// written to once, a failure is remembered.
    pub fn connected(&mut self, r: Result<Controller, Error>)
        requires
            old(self).inv(),
        ensures
            final(self).inv(),
            r matches Ok(c) ==> *final(self) == (Editor {
                controller: Some(c),
                open_error: None,
                start_applied: false,
                ..*old(self)
            }),
            r matches Err(e) ==> *final(self) == (Editor { open_error: Some(e), ..*old(self) }),
    {
        match r {
            Ok(c) => {
                self.controller = Some(c);
                self.open_error = None;
                self.start_applied = false;
            },
            Err(e) => {
                self.open_error = Some(e);
            },
        }
    }

    /// With a controller connected: the first frame after connecting
    /// writes the draft. Returns whether the store must be written back.
    pub fn apply_on_connect(&mut self, now_us: u64) -> (changed: bool)
        requires
            old(self).inv(),
        ensures
            final(self).inv(),
            !(old(self).controller is Some && !old(self).start_applied && old(self).open_error is None)
                ==> *final(self) == *old(self) && !changed,
            old(self).controller is Some && !old(self).start_applied && old(self).open_error is None
                ==> final(self).wrote_draft(&Editor { dirty: false, ..*old(self) }, now_us, changed),
    {
        if self.controller.is_none() || self.start_applied || self.open_error.is_some() {
            return false;
        }
        self.dirty = false;
        self.apply_draft(now_us)
    }

    /// Switch to another stored profile from the profile list: it becomes
    /// active and is loaded as a pending draft. Choosing the active profile
    /// (or a name not stored) changes nothing. Returns whether the store
    /// must be written back.
    pub fn select_profile(&mut self, name: &str, now_us: u64) -> (changed: bool)
        requires
            old(self).inv(),
        ensures
            final(self).inv(),
            changed == (name@ != old(self).store.cfg.active_profile@
                && old(self).store.cfg.profiles@.dom().contains(name@)),
            !changed ==> *final(self) == *old(self),
            changed ==> {
                &&& final(self).store.cfg.active_profile@ == name@
                &&& final(self).store.cfg.profiles == old(self).store.cfg.profiles
                &&& final(self).store.cfg.palette == old(self).store.cfg.palette
                &&& final(self).draft == old(self).store.cfg.profiles@[name@]
                &&& final(self).dirty
                &&& final(self).last_edit_us == now_us
                &&& final(self).hex_buf@ == hex_colour(final(self).draft.zones[0])
                &&& *final(self) == (Editor {
                    store: ConfigStore {
                        cfg: AppConfig {
                            active_profile: final(self).store.cfg.active_profile,
                            ..old(self).store.cfg
                        },
                        ..old(self).store
                    },
                    draft: final(self).draft,
                    dirty: true,
                    last_edit_us: now_us,
                    hex_buf: final(self).hex_buf,
                    ..*old(self)
                })
            },
    {
        if str_eq(name, self.store.cfg.active_profile.as_str()) {
            return false;
        }
        match self.store.cfg.profiles.get(name) {
            None => false,
            Some(cfg) => {
                let _ = self.store.set_active_profile(name);
                self.draft = cfg;
                self.dirty = true;
                self.last_edit_us = now_us;
                self.hex_buf = cfg.zones[0].to_hex();
                true
            },
        }
    }

    /// "Save current as this profile": store the draft under the active
    /// name and mark it pending. Returns whether the store must be written
    /// back.
    pub fn save_current(&mut self, now_us: u64) -> (changed: bool)
        requires
            old(self).inv(),
        ensures
            final(self).inv(),
            final(self).stored_as(
                &*old(self),
                old(self).store.cfg.active_profile@,
                old(self).draft,
                changed,
            ),
            *final(self) == (Editor {
                store: final(self).store,
                store_error: final(self).store_error,
                dirty: true,
                last_edit_us: now_us,
                ..*old(self)
            }),
    {
        let name = self.store.cfg.active_profile.clone();
        let draft = self.draft;
        let changed = self.store_profile(name.as_str(), draft);
        self.dirty = true;
        self.last_edit_us = now_us;
        changed
    }

    /// "Save as…": store the draft under the typed (trimmed) name; the
    /// field is cleared when that worked. A blank name does nothing.
    /// Returns whether the store must be written back.
    pub fn save_as(&mut self) -> (changed: bool)
        requires
            old(self).inv(),
        ensures
            final(self).inv(),
            trim(old(self).save_as_name@).len() == 0 ==> *final(self) == *old(self) && !changed,
            trim(old(self).save_as_name@).len() > 0 ==> {
                &&& final(self).stored_as(
                    &*old(self),
                    trim(old(self).save_as_name@),
                    old(self).draft,
                    changed,
                )
                &&& changed ==> final(self).save_as_name@.len() == 0
                &&& !changed ==> final(self).save_as_name == old(self).save_as_name
                &&& *final(self) == (Editor {
                    store: final(self).store,
                    store_error: final(self).store_error,
                    save_as_name: final(self).save_as_name,
                    ..*old(self)
                })
            },
    {
        let name = trimmed(self.save_as_name.as_str());
        if name.as_str().unicode_len() == 0 {
            return false;
        }
        let draft = self.draft;
        let changed = self.store_profile(name.as_str(), draft);
        if changed {
            self.save_as_name = String::new();
        }
        changed
    }

    /// Keep the selected zone's colour in the saved palette. Returns
    /// whether the store must be written back.
    pub fn save_zone_to_palette(&mut self) -> (changed: bool)
        requires
            old(self).inv(),
        ensures
            final(self).inv(),
            changed == !old(self).store.cfg.palette@.contains(
                old(self).draft.zones[old(self).selected_zone as int],
            ),
            changed ==> final(self).store.cfg.palette@ == capped(
                old(self).store.cfg.palette@.push(old(self).draft.zones[old(self).selected_zone as int]),
            ),
            !changed ==> final(self).store.cfg.palette@ == old(self).store.cfg.palette@,
            *final(self) == (Editor {
                store: ConfigStore {
                    cfg: AppConfig { palette: final(self).store.cfg.palette, ..old(self).store.cfg },
                    ..old(self).store
                },
                ..*old(self)
            }),
    {
        let c = self.draft.zones[self.selected_zone];
        self.store.add_palette_color(c)
    }

    /// Drop a colour from the saved palette. Returns whether the store
    /// must be written back.
    pub fn remove_palette_colour(&mut self, colour: Rgb) -> (changed: bool)
        requires
            old(self).inv(),
        ensures
            final(self).inv(),
            changed == old(self).store.cfg.palette@.contains(colour),
            final(self).store.cfg.palette@ == old(self).store.cfg.palette@.filter(|c: Rgb| c != colour),
            *final(self) == (Editor {
                store: ConfigStore {
                    cfg: AppConfig { palette: final(self).store.cfg.palette, ..old(self).store.cfg },
                    ..old(self).store
                },
                ..*old(self)
            }),
    {
        self.store.remove_palette_color(colour)
    }

    /// The active profile may be deleted unless it is the reserved Off.
    pub fn delete_allowed(&self) -> (b: bool)
        ensures
            b == (self.store.cfg.active_profile@ != OFF_PROFILE@),
    {
        !str_eq(self.store.cfg.active_profile.as_str(), OFF_PROFILE)
    }

    /// "Delete profile": ask to confirm deleting the active profile.
    pub fn request_delete(&mut self)
        requires
            old(self).inv(),
        ensures
            final(self).inv(),
            old(self).store.cfg.active_profile@ != OFF_PROFILE@ ==> *final(self) == (Editor {
                pending_delete: Some(old(self).store.cfg.active_profile),
                ..*old(self)
            }),
            old(self).store.cfg.active_profile@ == OFF_PROFILE@ ==> *final(self) == *old(self),
    {
        if self.delete_allowed() {
            self.pending_delete = Some(self.store.cfg.active_profile.clone());
        }
    }

    /// Close the delete confirmation, deleting when confirmed (never the
    /// reserved Off). Deleting the active profile loads the new active one
    /// into the editor; the keyboard is not written. Returns whether the
    /// store must be written back.
    pub fn resolve_delete(&mut self, confirm: bool) -> (changed: bool)
        requires
            old(self).inv(),
        ensures
            final(self).inv(),
            old(self).store.cfg.active_exists() ==> final(self).store.cfg.active_exists(),
            old(self).pending_delete is None ==> *final(self) == *old(self) && !changed,
            old(self).pending_delete matches Some(n) ==> {
                let before = old(self).store.cfg;
                let after = final(self).store.cfg;
                &&& *final(self) == (Editor {
                    pending_delete: None,
                    store: final(self).store,
                    store_error: final(self).store_error,
                    notice: final(self).notice,
                    draft: final(self).draft,
                    hex_buf: final(self).hex_buf,
                    ..*old(self)
                })
                &&& !(confirm && n@ != OFF_PROFILE@) ==> !changed && final(self).store == old(self).store
                    && final(self).draft == old(self).draft && final(self).notice == old(self).notice
                &&& confirm && n@ != OFF_PROFILE@ && !before.profiles@.dom().contains(n@) ==> !changed
                    && final(self).store == old(self).store && final(self).draft == old(self).draft
                    && (final(self).store_error matches Some(t) && t@ == config_error_text(
                    no_profile_message(n@),
                ))
                &&& confirm && n@ != OFF_PROFILE@ && before.profiles@.dom().contains(n@) ==> {
                    &&& changed
                    &&& after.profiles@ == with_off(before.profiles@).remove(n@)
                    &&& before.active_profile@ == n@ ==> {
                        &&& after.active_profile@ == fallback_name(after.profiles.key_list())
                        &&& final(self).draft == after.active_lighting()
                        &&& final(self).hex_buf@ == hex_colour(final(self).draft.zones[0])
                        &&& (final(self).notice matches Some(t) && t@ == deleted_notice(
                            n@,
                            Some(after.active_profile@),
                        ))
                    }
                    &&& before.active_profile@ != n@ ==> {
                        &&& after.active_profile == before.active_profile
                        &&& final(self).draft == old(self).draft
                        &&& (final(self).notice matches Some(t) && t@ == deleted_notice(n@, None))
                    }
                }
            },
    {
        let name = match self.pending_delete.take() {
            None => {
                return false;
            },
            Some(n) => n,
        };
        if !confirm || str_eq(name.as_str(), OFF_PROFILE) {
            return false;
        }
        match delete_profile(&mut self.store, name.as_str()) {
            Ok(Some(new_active)) => {
                self.draft = self.store.cfg.active_config();
                self.hex_buf = self.draft.zones[0].to_hex();
                let mut t = String::new();
                push_str(&mut t, "Deleted ");
                let q = quoted(name.as_str());
                push_str(&mut t, q.as_str());
                push_str(&mut t, ". It was active \u{2014} the active profile is now ");
                let qa = quoted(new_active.as_str());
                push_str(&mut t, qa.as_str());
                push_str(&mut t, " (keyboard lighting unchanged).");
                assert(t@ =~= deleted_notice(name@, Some(new_active@)));
                self.notice = Some(t);
                true
            },
            Ok(None) => {
                let mut t = String::new();
                push_str(&mut t, "Deleted profile ");
                let q = quoted(name.as_str());
                push_str(&mut t, q.as_str());
                push_str(&mut t, ".");
                assert(t@ =~= deleted_notice(name@, None));
                self.notice = Some(t);
                true
            },
            Err(e) => {
                self.store_error = Some(e.message());
                false
            },
        }
    }

    /// The rename button is enabled: a name is typed and the profile is
    /// not the reserved Off.
    pub fn can_rename(&self) -> (b: bool)
        ensures
            b == (self.pending_rename matches Some(n) && n@ != OFF_PROFILE@ && trim(
                self.rename_new_name@,
            ).len() > 0),
    {
        match &self.pending_rename {
            None => false,
            Some(n) => !str_eq(n.as_str(), OFF_PROFILE) && !is_blank(self.rename_new_name.as_str()),
        }
    }

    /// Confirm the rename dialog: the pending profile is renamed to the
    /// trimmed typed name (the keyboard is not written) and the dialog
    /// closes. Returns whether the store must be written back.
    pub fn confirm_rename(&mut self) -> (changed: bool)
        requires
            old(self).inv(),
        ensures
            final(self).inv(),
            old(self).store.cfg.active_exists() ==> final(self).store.cfg.active_exists(),
            old(self).pending_rename is None ==> *final(self) == *old(self) && !changed,
            old(self).pending_rename matches Some(n) ==> {
                let t = trim(old(self).rename_new_name@);
                &&& *final(self) == (Editor {
                    pending_rename: None,
                    rename_new_name: final(self).rename_new_name,
                    store: final(self).store,
                    store_error: final(self).store_error,
                    notice: final(self).notice,
                    ..*old(self)
                })
                &&& final(self).rename_new_name@.len() == 0
                &&& final(self).draft == old(self).draft
                &&& changed ==> (final(self).notice matches Some(m) && m@ == renamed_notice(n@, t))
                &&& !changed ==> final(self).store == old(self).store && (final(self).store_error matches Some(
                    m,
                ) && m@ == config_error_text(rename_refusal(old(self).store.cfg, n@, t)))
                &&& changed == (!(n@ == OFF_PROFILE@ || t == OFF_PROFILE@) && t.len() > 0 && (n@ == t || (
                    old(self).store.cfg.profiles@.dom().contains(n@)
                        && !old(self).store.cfg.profiles@.dom().contains(t))))
                &&& changed && n@ != t ==> final(self).store.cfg.profiles@ == old(self).store.cfg.profiles@.remove(n@).insert(t, old(self).store.cfg.profiles@[n@])
                &&& changed && n@ == t ==> final(self).store == old(self).store
                &&& changed && n@ != t && old(self).store.cfg.active_profile@ == n@ ==> final(self).store.cfg.active_profile@ == t
                &&& changed && old(self).store.cfg.active_profile@ != n@ ==> final(self).store.cfg.active_profile == old(self).store.cfg.active_profile
            },
    {
        let name = match self.pending_rename.take() {
            None => {
                return false;
            },
            Some(n) => n,
        };
        let new_name = trimmed(self.rename_new_name.as_str());
        self.rename_new_name = String::new();
        proof {
            lemma_trim_idempotent(old(self).rename_new_name@);
        }
        match rename_profile(&mut self.store, name.as_str(), new_name.as_str()) {
            Ok(()) => {
                let mut m = String::new();
                push_str(&mut m, "Renamed ");
                let q = quoted(name.as_str());
                push_str(&mut m, q.as_str());
                push_str(&mut m, " to ");
                let qn = quoted(new_name.as_str());
                push_str(&mut m, qn.as_str());
                push_str(&mut m, ".");
                assert(m@ =~= renamed_notice(name@, new_name@));
                self.notice = Some(m);
                true
            },
            Err(e) => {
                self.store_error = Some(e.message());
                false
            },
        }
    }

    /// Does the draft need host animation? When it does not, the animator
    /// state is cleared (the caller resets its phase and frame clock).
    pub fn animation_needed(&mut self) -> (b: bool)
        requires
            old(self).inv(),
        ensures
            final(self).inv(),
            b == old(self).draft.effect.is_host_rendered(),
            b ==> *final(self) == *old(self),
            !b ==> *final(self) == (Editor {
                daemon_notice: None,
                animator_spawn_attempted: false,
                ..*old(self)
            }),
    {
        if self.draft.effect.is_host_rendered() {
            return true;
        }
        self.daemon_notice = None;
        self.animator_spawn_attempted = false;
        false
    }

    /// Another live process holds the writer lock and drives the wave.
    pub fn animator_found(&mut self, pid: u32)
        requires
            old(self).inv(),
        ensures
            final(self).inv(),
            final(self).daemon_notice matches Some(t) && t@ == animator_notice(pid),
            *final(self) == (Editor { daemon_notice: final(self).daemon_notice, ..*old(self) }),
    {
        let mut t = String::new();
        push_str(&mut t, "Background animator (pid ");
        push_decimal(&mut t, pid as u64);
        push_str(
            &mut t,
            ") is driving the colour wave, and keeps it running if you close this window. Saving a change? It is applied within ~1 s. Stop it with: pkill -f 'loq-rgb-cli listen-hotkeys'",
        );
        assert(t@ =~= animator_notice(pid));
        self.daemon_notice = Some(t);
    }

    /// Start the background animator once per colour-wave session.
    pub fn spawn_due(&mut self) -> (b: bool)
        requires
            old(self).inv(),
        ensures
            final(self).inv(),
            b == !old(self).animator_spawn_attempted,
            *final(self) == (Editor { animator_spawn_attempted: true, ..*old(self) }),
    {
        if self.animator_spawn_attempted {
            return false;
        }
        self.animator_spawn_attempted = true;
        true
    }

    /// The outcome of starting the background animator. Returns whether it
    /// started (the window then leaves the animation to it).
    pub fn spawned(&mut self, r: Result<u32, Error>) -> (started: bool)
        requires
            old(self).inv(),
        ensures
            final(self).inv(),
            started == r is Ok,
            r matches Ok(pid) ==> (final(self).daemon_notice matches Some(t) && t@ == starting_notice(
                pid,
            )),
            r matches Err(e) ==> (final(self).daemon_notice matches Some(t) && t@ == fallback_notice(e)),
            *final(self) == (Editor { daemon_notice: final(self).daemon_notice, ..*old(self) }),
    {
        let mut t = String::new();
        match r {
            Ok(pid) => {
                push_str(&mut t, "Starting the background animator (pid ");
                push_decimal(&mut t, pid as u64);
                push_str(&mut t, ") so the colour wave keeps running when this window is closed.");
                assert(t@ =~= starting_notice(pid));
                self.daemon_notice = Some(t);
                true
            },
            Err(e) => {
                push_str(&mut t, "Animating from this window (could not start the background animator: ");
                let m = e.message();
                push_str(&mut t, m.as_str());
                push_str(&mut t, "). The wave pauses when you close this window.");
                assert(t@ =~= fallback_notice(e));
                self.daemon_notice = Some(t);
                false
            },
        }
    }

    /// Write one colour-wave frame: the draft with the frame's zone
    /// colours. A successful write is timed. The draft is not changed.
    pub fn apply_frame(&mut self, zones: [Rgb; ZONE_COUNT], now_us: u64)
        requires
            old(self).inv(),
        ensures
            final(self).inv(),
            *final(self) == (Editor {
                controller: final(self).controller,
                last_apply_time: final(self).last_apply_time,
                start_applied: final(self).start_applied,
                ..*old(self)
            }),
            old(self).controller is None ==> *final(self) == *old(self),
            old(self).controller is Some ==> (final(self).controller matches Some(c) && {
                &&& c.failure() is None ==> (c.applied() == Some(
                    (LightingConfig { zones, ..old(self).draft }).normal_form(),
                ) && final(self).start_applied && (final(self).last_apply_time matches Some(t) && t@
                    == clock_spec(now_us as nat / 1_000_000)))
                &&& c.failure() is Some ==> (c.applied() == old(self).controller->0.applied()
                    && final(self).start_applied == old(self).start_applied
                    && final(self).last_apply_time == old(self).last_apply_time)
                &&& Controller::sent(
                    old(self).controller->0,
                    c,
                    LightingConfig { zones, ..old(self).draft },
                )
            }),
    {
        let frame = LightingConfig {
            effect: self.draft.effect,
            speed: self.draft.speed,
            brightness: self.draft.brightness,
            zones,
        };
        match self.controller.as_mut() {
            None => {},
            Some(c) => {
                match c.apply(frame) {
                    Ok(()) => {
                        self.last_apply_time = Some(clock_text(now_us / 1_000_000));
                        self.start_applied = true;
                    },
                    Err(_) => {},
                }
            },
        }
    }

    /// "Read state from keyboard": remember what the controller reports,
    /// or that there is none.
    pub fn read_back(&mut self)
        requires
            old(self).inv(),
        ensures
            final(self).inv(),
            *final(self) == (Editor {
                controller: final(self).controller,
                readback: final(self).readback,
                ..*old(self)
            }),
            old(self).controller is None ==> (final(self).readback matches Some(Err(Error::DeviceNotFound(m)))
                && m@ == NOT_CONNECTED@),
            old(self).controller is Some ==> (final(self).readback matches Some(r) && final(self).controller matches Some(c) && (r is Ok ==> c.failure() is None) && (r matches Err(e)
                ==> c.failure() == Some(e)) && c.applied() == old(self).controller->0.applied()),
            old(self).controller is Some ==> (final(self).controller matches Some(c) && final(self).readback matches Some(r) && (old(self).controller->0.mock() is None ==> c.mock() is None)
                && (old(self).controller->0.mock() matches Some(m) ==> c.mock() == Some(m)
                && mock_read(m, r))),
    {
        let r = match self.controller.as_mut() {
            Some(c) => c.read_state(),
            None => Err(Error::DeviceNotFound(owned(NOT_CONNECTED))),
        };
        self.readback = Some(r);
    }

    /// The status bar's note on the last write.
    pub fn sent_status(&self) -> (s: String)
        ensures
            s@ == sent_text(
                match self.last_apply_time {
                    Some(t) => Some(t@),
                    None => None,
                },
            ),
    {
        match &self.last_apply_time {
            Some(t) => {
                let mut s = owned("sent to hardware at ");
                push_str(&mut s, t.as_str());
                s
            },
            None => owned("nothing sent yet"),
        }
    }
}

} // verus!

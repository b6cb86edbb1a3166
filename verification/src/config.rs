//! Configuration: profiles, the active profile and the saved colour palette,
//! with the validation and repair rules applied on load and on every edit.
//! Reading and writing the JSON file is the application's part; every
//! operation here reports whether the store must be written back.

use vstd::prelude::*;

use crate::error::Error;
use crate::model::{default_lighting, lemma_normal_form, white_spec, Effect,
    LightingConfig, Rgb};
use crate::profile_map::{strictly_sorted, ProfileMap};
use crate::text::{debug_quoted, decimal, is_blank, is_ws, lemma_trim_idempotent, owned, push_decimal, push_str, quoted, str_eq, trim, trim_end, trim_start, trimmed};

verus! {

pub const CONFIG_VERSION: u32 = 1;

/// Reserved profile name: the final step of the Fn+Space cycle (backlight
/// off). Added automatically and never deleted.
pub const OFF_PROFILE: &'static str = "Off";

/// Name of the profile a fresh configuration starts with.
pub const DEFAULT_PROFILE: &'static str = "Default";

/// At most this many saved palette colours are kept.
pub const PALETTE_LIMIT: usize = 64;

/// The lighting stored in the reserved Off profile.
pub open spec fn off_lighting() -> LightingConfig {
    LightingConfig {
        effect: Effect::Off,
        speed: 1,
        brightness: 0,
        zones: [white_spec(), white_spec(), white_spec(), white_spec()],
    }
}

#[derive(Debug, Clone, PartialEq)]
pub struct AppConfig {
    pub version: u32,
    pub active_profile: String,
    pub profiles: ProfileMap,
    /// Custom colours saved by the user for quick reuse.
    pub palette: Vec<Rgb>,
}

/// `profiles` with the reserved Off profile added when it is missing.
pub open spec fn with_off(profiles: Map<Seq<char>, LightingConfig>) -> Map<Seq<char>, LightingConfig> {
    if profiles.dom().contains(OFF_PROFILE@) {
        profiles
    } else {
        profiles.insert(OFF_PROFILE@, off_lighting())
    }
}

/// Add the reserved Off profile to a config if it is missing. Returns
/// whether the config changed.
pub fn ensure_off_profile(cfg: &mut AppConfig) -> (changed: bool)
    requires
        old(cfg).profiles.wf(),
    ensures
        final(cfg).profiles.wf(),
        changed == !old(cfg).profiles@.dom().contains(OFF_PROFILE@),
        final(cfg).profiles@ == with_off(old(cfg).profiles@),
        final(cfg).version == old(cfg).version,
        final(cfg).active_profile == old(cfg).active_profile,
        final(cfg).palette == old(cfg).palette,
        old(cfg).is_stable() ==> final(cfg).is_stable(),
{
    if cfg.profiles.contains_key(OFF_PROFILE) {
        return false;
    }
    let w = Rgb::white();
    let off = LightingConfig { effect: Effect::Off, speed: 1, brightness: 1, zones: [w, w, w, w] }.normalized();
    assert(off.zones =~= off_lighting().zones);
    cfg.profiles.insert(owned(OFF_PROFILE), off);
    proof {
        lemma_stable_by_keys(*old(cfg));
        lemma_stable_by_keys(*cfg);
        lemma_off_name_not_blank();
    }
    true
}

/// The reserved name is not blank.
pub proof fn lemma_off_name_not_blank()
    ensures
        trim(OFF_PROFILE@).len() > 0,
{
    reveal_strlit("Off");
    let s = OFF_PROFILE@;
    assert(!is_ws(s[0]));
    assert(trim_start(s) == s);
    assert(!is_ws(s.last()));
    assert(trim_end(s) == s);
}

/// The configuration of a fresh install: one "Default" profile (static
/// white), active, and an empty palette.
pub open spec fn default_app_config_spec(c: AppConfig) -> bool {
    &&& c.version == CONFIG_VERSION
    &&& c.active_profile@ == DEFAULT_PROFILE@
    &&& c.profiles.wf()
    &&& c.profiles@ == Map::<Seq<char>, LightingConfig>::empty().insert(DEFAULT_PROFILE@, default_lighting())
    &&& c.palette@.len() == 0
}

impl Default for AppConfig {
    fn default() -> (c: Self)
        ensures
            default_app_config_spec(c),
            c.is_stable(),
    {
        let mut profiles = ProfileMap::new();
        profiles.insert(owned(DEFAULT_PROFILE), LightingConfig::default());
        let c = AppConfig {
            version: CONFIG_VERSION,
            active_profile: owned(DEFAULT_PROFILE),
            profiles,
            palette: Vec::new(),
        };
        proof {
            lemma_stable_by_keys(c);
            lemma_default_name_not_blank();
        }
        c
    }
}

/// The message for a config file of an unsupported version.
pub open spec fn version_message(v: u32) -> Seq<char> {
    "unsupported config version "@ + decimal(v as nat) + " (this build reads 1)"@
}

pub const EMPTY_NAME_MESSAGE: &'static str = "profile name must not be empty";

/// Some stored profile name is empty once trimmed.
pub open spec fn has_blank_name(m: ProfileMap) -> bool {
    exists|i: int| 0 <= i < m.key_list().len() && trim(#[trigger] m.key_list()[i]).len() == 0
}

/// A blank name is a stored key that trims to nothing.
pub proof fn lemma_blank_names(m: ProfileMap)
    requires
        m.wf(),
    ensures
        has_blank_name(m) <==> exists|k: Seq<char>| #[trigger] m@.dom().contains(k) && trim(k).len() == 0,
{
    m.lemma_keys();
    if has_blank_name(m) {
        let i = choose|i: int| 0 <= i < m.key_list().len() && trim(#[trigger] m.key_list()[i]).len() == 0;
        let k = m.key_list()[i];
        assert(m.key_list().contains(k));
        assert(m@.dom().contains(k));
    }
    if exists|k: Seq<char>| #[trigger] m@.dom().contains(k) && trim(k).len() == 0 {
        let k = choose|k: Seq<char>| #[trigger] m@.dom().contains(k) && trim(k).len() == 0;
        assert(m.key_list().contains(k));
        let i = choose|i: int| 0 <= i < m.key_list().len() && m.key_list()[i] == k;
        assert(trim(m.key_list()[i]).len() == 0);
    }
}

/// Stability read through the map: no stored key is blank and every
/// stored profile is already normalised.
pub proof fn lemma_stable_by_keys(c: AppConfig)
    requires
        c.profiles.wf(),
    ensures
        c.is_stable() <==> {
            &&& c.version == CONFIG_VERSION
            &&& forall|k: Seq<char>| #[trigger] c.profiles@.dom().contains(k) ==> trim(k).len() > 0
                && c.profiles@[k].normal_form() == c.profiles@[k]
            &&& c.active_exists()
            &&& c.palette@.len() <= PALETTE_LIMIT
        },
{
    lemma_blank_names(c.profiles);
}

/// The default profile's name is not blank.
proof fn lemma_default_name_not_blank()
    ensures
        trim(DEFAULT_PROFILE@).len() > 0,
{
    reveal_strlit("Default");
    let s = DEFAULT_PROFILE@;
    assert(!is_ws(s[0]));
    assert(trim_start(s) == s);
    assert(!is_ws(s.last()));
    assert(trim_end(s) == s);
}

/// The message for a missing profile.
pub open spec fn no_profile_message(name: Seq<char>) -> Seq<char> {
    "no profile named "@ + debug_quoted(name)
}

pub fn no_profile_error(name: &str) -> (e: Error)
    ensures
        e matches Error::Config(m) && m@ == no_profile_message(name@),
{
    let mut m = String::new();
    push_str(&mut m, "no profile named ");
    let q = quoted(name);
    push_str(&mut m, q.as_str());
    Error::Config(m)
}

/// `self.palette` cut to at most [`PALETTE_LIMIT`] colours.
pub open spec fn capped(p: Seq<Rgb>) -> Seq<Rgb> {
    if p.len() > PALETTE_LIMIT {
        p.take(PALETTE_LIMIT as int)
    } else {
        p
    }
}

impl AppConfig {
    /// The lighting of the active profile (static white when it is
    /// missing), normalised.
    pub open spec fn active_lighting(self) -> LightingConfig {
        if self.profiles@.dom().contains(self.active_profile@) {
            self.profiles@[self.active_profile@].normal_form()
        } else {
            default_lighting()
        }
    }

    /// The active profile names an existing profile.
    pub open spec fn active_exists(self) -> bool {
        self.profiles@.dom().contains(self.active_profile@)
    }

    /// A config that loading leaves as it is: supported version, no blank
    /// name, the active profile stored, every profile already normalised,
    /// and the palette within its cap.
    pub open spec fn is_stable(self) -> bool {
        &&& self.version == CONFIG_VERSION
        &&& !has_blank_name(self.profiles)
        &&& self.active_exists()
        &&& forall|k: Seq<char>| #[trigger] self.profiles@.dom().contains(k) ==> self.profiles@[k].normal_form()
            == self.profiles@[k]
        &&& self.palette@.len() <= PALETTE_LIMIT
    }

    /// Validate and repair on load: the version must be supported and no
    /// profile name may be blank; every profile is normalised (its effect
    /// kept), an empty set
    /// gets the default profile, a missing active profile falls back to the
    /// first name, and the palette is capped.
    pub fn repaired(self) -> (r: Result<Self, Error>)
        requires
            self.profiles.wf(),
        ensures
            self.version != CONFIG_VERSION ==> (r matches Err(Error::Config(m)) && m@
                == version_message(self.version)),
            self.version == CONFIG_VERSION && has_blank_name(self.profiles) ==> (r matches Err(
                Error::Config(m),
            ) && m@ == EMPTY_NAME_MESSAGE@),
            (self.version == CONFIG_VERSION && !has_blank_name(self.profiles)) == r is Ok,
            r matches Ok(c) ==> c.version == CONFIG_VERSION && c.profiles.wf() && c.active_exists(),
            r matches Ok(c) ==> c.palette@ == capped(self.palette@),
            r matches Ok(c) ==> (self.profiles.key_list().len() == 0 ==> c.profiles@ == Map::<
                Seq<char>,
                LightingConfig,
            >::empty().insert(DEFAULT_PROFILE@, default_lighting())),
            r matches Ok(c) ==> (self.profiles.key_list().len() > 0 ==> c.profiles@.dom()
                == self.profiles@.dom()),
            r matches Ok(c) ==> (self.profiles.key_list().len() > 0 ==> forall|k: Seq<char>|
                #[trigger] c.profiles@.dom().contains(k) ==> c.profiles@[k]
                == self.profiles@[k].normal_form()),
            r matches Ok(c) ==> (self.active_exists() ==> c.active_profile == self.active_profile),
            r matches Ok(c) ==> (!self.active_exists() ==> c.active_profile@
                == c.profiles.key_list()[0]),
            self.is_stable() ==> (r matches Ok(c) && c.profiles@ == self.profiles@
                && c.active_profile == self.active_profile && c.palette@ == self.palette@),
            r matches Ok(c) ==> c.is_stable(),
    {
        let mut cfg = self;
        if cfg.version != CONFIG_VERSION {
            let mut m = String::new();
            push_str(&mut m, "unsupported config version ");
            push_decimal(&mut m, cfg.version as u64);
            push_str(&mut m, " (this build reads 1)");
            assert(m@ =~= version_message(self.version));
            return Err(Error::Config(m));
        }
        let names = cfg.profiles.keys();
        let mut i: usize = 0;
        while i < names.len()
            invariant
                cfg == self,
                self.version == CONFIG_VERSION,
                names@.map_values(|n: String| n@) == self.profiles.key_list(),
                i <= names@.len(),
                forall|k: int| 0 <= k < i ==> trim(#[trigger] self.profiles.key_list()[k]).len() > 0,
            decreases names@.len() - i,
        {
            assert(names@[i as int]@ == self.profiles.key_list()[i as int]);
            if is_blank(names[i].as_str()) {
                return Err(Error::Config(owned(EMPTY_NAME_MESSAGE)));
            }
            i = i + 1;
        }
        assert(!has_blank_name(self.profiles));
        proof {
            self.profiles.lemma_keys();
        }
        cfg.profiles.normalize_all();
        proof {
            cfg.profiles.lemma_keys();
        }
        if cfg.profiles.is_empty() {
            cfg.profiles.insert(owned(DEFAULT_PROFILE), LightingConfig::default());
            proof {
                cfg.profiles.lemma_keys();
                assert(cfg.profiles.key_list().len() == 1);
                assert(cfg.profiles@.dom().contains(DEFAULT_PROFILE@));
                assert(cfg.profiles.key_list().contains(DEFAULT_PROFILE@));
                assert(cfg.profiles.key_list()[0] == DEFAULT_PROFILE@);
                assert(cfg.profiles@ =~= Map::<Seq<char>, LightingConfig>::empty().insert(
                    DEFAULT_PROFILE@,
                    default_lighting(),
                ));
            }
        }
        if !cfg.profiles.contains_key(cfg.active_profile.as_str()) {
            match cfg.profiles.first_key() {
                Some(first) => {
                    proof {
                        cfg.profiles.lemma_keys();
                        assert(cfg.profiles.key_list().contains(first@));
                    }
                    cfg.active_profile = first;
                },
                None => {
                    proof {
                        cfg.profiles.lemma_keys();
                        assert(cfg.profiles@.dom().contains(DEFAULT_PROFILE@) || cfg.profiles.key_list().len() > 0);
                    }
                },
            }
        }
        cfg.palette.truncate(PALETTE_LIMIT);
        assert(cfg.palette@ =~= capped(self.palette@));
        proof {
            lemma_blank_names(self.profiles);
            lemma_stable_by_keys(cfg);
            lemma_default_name_not_blank();
            assert forall|k: Seq<char>| #[trigger] cfg.profiles@.dom().contains(k) implies trim(k).len()
                > 0 && cfg.profiles@[k].normal_form() == cfg.profiles@[k] by {
                if self.profiles.key_list().len() > 0 {
                    lemma_normal_form(self.profiles@[k]);
                } else {
                    assert(k == DEFAULT_PROFILE@);
                }
            }
        }
        Ok(cfg)
    }

    /// The lighting of the active profile, normalised; static white when
    /// the active profile is missing.
    pub fn active_config(&self) -> (c: LightingConfig)
        requires
            self.profiles.wf(),
        ensures
            c == self.active_lighting(),
    {
        let c = match self.profiles.get(self.active_profile.as_str()) {
            Some(c) => c,
            None => LightingConfig::default(),
        };
        c.normalized()
    }
}

/// The loaded configuration together with where it is stored.
#[derive(Debug, Clone)]
pub struct ConfigStore {
    pub path: String,
    pub cfg: AppConfig,
}

/// The message for a lit config saved under the reserved name.
pub const RESERVED_OFF_MESSAGE: &'static str =
    "\"Off\" is a reserved name for the backlight-off state";

impl ConfigStore {
    /// Make `name` the active profile. The store must then be written back.
    pub fn set_active_profile(&mut self, name: &str) -> (r: Result<(), Error>)
        requires
            old(self).cfg.profiles.wf(),
        ensures
            final(self).cfg.profiles == old(self).cfg.profiles,
            final(self).cfg.version == old(self).cfg.version,
            final(self).cfg.palette == old(self).cfg.palette,
            final(self).path == old(self).path,
            old(self).cfg.profiles@.dom().contains(name@) ==> r is Ok && final(self).cfg.active_profile@
                == name@,
            !old(self).cfg.profiles@.dom().contains(name@) ==> (r matches Err(Error::Config(m))
                && m@ == no_profile_message(name@)) && final(self).cfg.active_profile
                == old(self).cfg.active_profile,
            old(self).cfg.is_stable() ==> final(self).cfg.is_stable(),
    {
        if !self.cfg.profiles.contains_key(name) {
            return Err(no_profile_error(name));
        }
        self.cfg.active_profile = owned(name);
        Ok(())
    }

    /// Store `cfg` (normalised) under the trimmed `name`. Refused for a
    /// blank name, and for a lit config under the reserved Off name. The
    /// store must then be written back.
    pub fn upsert_profile(&mut self, name: &str, cfg: LightingConfig) -> (r: Result<(), Error>)
        requires
            old(self).cfg.profiles.wf(),
        ensures
            final(self).cfg.profiles.wf(),
            final(self).cfg.version == old(self).cfg.version,
            final(self).cfg.palette == old(self).cfg.palette,
            final(self).cfg.active_profile == old(self).cfg.active_profile,
            final(self).path == old(self).path,
            trim(name@).len() == 0 ==> (r matches Err(Error::Config(m)) && m@ == EMPTY_NAME_MESSAGE@)
                && final(self).cfg.profiles == old(self).cfg.profiles,
            trim(name@).len() > 0 && trim(name@) == OFF_PROFILE@ && !(cfg.effect is Off) ==> (
            r matches Err(Error::Config(m)) && m@ == RESERVED_OFF_MESSAGE@) && final(self).cfg.profiles
                == old(self).cfg.profiles,
            trim(name@).len() > 0 && (trim(name@) != OFF_PROFILE@ || cfg.effect is Off) ==> r is Ok
                && final(self).cfg.profiles@ == old(self).cfg.profiles@.insert(
                trim(name@),
                cfg.normal_form(),
            ),
            old(self).cfg.active_exists() ==> final(self).cfg.active_exists(),
            old(self).cfg.is_stable() ==> final(self).cfg.is_stable(),
    {
        let ghost given = name@;
        let name = trimmed(name);
        if name.as_str().unicode_len() == 0 {
            return Err(Error::Config(owned(EMPTY_NAME_MESSAGE)));
        }
        if str_eq(name.as_str(), OFF_PROFILE) && !cfg.is_off() {
            return Err(Error::Config(owned(RESERVED_OFF_MESSAGE)));
        }
        self.cfg.profiles.insert(name, cfg.normalized());
        proof {
            lemma_stable_by_keys(old(self).cfg);
            lemma_stable_by_keys(self.cfg);
            lemma_trim_idempotent(given);
            lemma_normal_form(cfg);
        }
        Ok(())
    }

    /// Save a colour to the palette unless it is already there (the
    /// palette stays capped at [`PALETTE_LIMIT`]). Returns whether the store
    /// must be written back.
    pub fn add_palette_color(&mut self, color: Rgb) -> (changed: bool)
        ensures
            final(self).cfg.profiles == old(self).cfg.profiles,
            final(self).cfg.active_profile == old(self).cfg.active_profile,
            final(self).cfg.version == old(self).cfg.version,
            final(self).path == old(self).path,
            changed == !old(self).cfg.palette@.contains(color),
            changed ==> final(self).cfg.palette@ == capped(old(self).cfg.palette@.push(color)),
            !changed ==> final(self).cfg.palette@ == old(self).cfg.palette@,
    {
        let n = self.cfg.palette.len();
        let mut i: usize = 0;
        while i < n
            invariant
                n == self.cfg.palette@.len(),
                i <= n,
                forall|k: int| 0 <= k < i ==> self.cfg.palette@[k] != color,
            decreases n - i,
        {
            if self.cfg.palette[i] == color {
                return false;
            }
            i = i + 1;
        }
        self.cfg.palette.push(color);
        self.cfg.palette.truncate(PALETTE_LIMIT);
        assert(self.cfg.palette@ =~= capped(old(self).cfg.palette@.push(color)));
        true
    }

    /// Remove every occurrence of a colour from the palette. Returns whether
    /// the store must be written back.
    pub fn remove_palette_color(&mut self, color: Rgb) -> (changed: bool)
        ensures
            final(self).cfg.profiles == old(self).cfg.profiles,
            final(self).cfg.active_profile == old(self).cfg.active_profile,
            final(self).cfg.version == old(self).cfg.version,
            final(self).path == old(self).path,
            final(self).cfg.palette@ == old(self).cfg.palette@.filter(|c: Rgb| c != color),
            changed == old(self).cfg.palette@.contains(color),
    {
        let ghost p = self.cfg.palette@;
        let ghost pred = |c: Rgb| c != color;
        let mut kept: Vec<Rgb> = Vec::new();
        let n = self.cfg.palette.len();
        let mut i: usize = 0;
        while i < n
            invariant
                n == p.len(),
                self.cfg.palette@ == p,
                i <= n,
                pred == (|c: Rgb| c != color),
                kept@ == p.take(i as int).filter(pred),
                kept@.len() <= i,
                (kept@.len() == i) == (forall|k: int| 0 <= k < i ==> p[k] != color),
            decreases n - i,
        {
            let c = self.cfg.palette[i];
            let ghost before = kept@;
            let keep = !(c == color);
            if keep {
                kept.push(c);
            }
            proof {
                reveal(Seq::filter);
                let t = p.take(i + 1);
                assert(t.drop_last() =~= p.take(i as int));
                assert(t.last() == c);
                assert(pred(c) == keep);
                assert(t.filter(pred) == if pred(t.last()) {
                    t.drop_last().filter(pred).push(t.last())
                } else {
                    t.drop_last().filter(pred)
                });
                assert(before == t.drop_last().filter(pred));
                if keep {
                    assert(kept@ == before.push(c));
                } else {
                    assert(kept@ == before);
                }
            }
            i = i + 1;
        }
        assert(p.take(n as int) =~= p);
        let changed = kept.len() != n;
        self.cfg.palette = kept;
        changed
    }
}

} // verus!

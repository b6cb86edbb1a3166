//! The command-line front end's decisions and text: effect names, building
//! a configuration from flags, the packet dump, the config summary, the
//! profile list lines and the autostart entry. Argument parsing, files and
//! printing are the application's part.

use vstd::prelude::*;

use crate::config::{no_profile_error, no_profile_message, AppConfig};
use crate::detect::Detected;
use crate::effects::{all_effects, describes, effect_label, info, ui_order};
use crate::error::Error;
use crate::flow::{palette_mode, uses_palette};
use crate::model::{
    ascii_lower, effect_name, hex_colour, parse_hex_colour, white_spec, DeviceState, Effect, LightingConfig,
    LiveEffect, Rgb, ZONE_COUNT,
};
use crate::packet::PACKET_LEN;
use crate::text::{debug_quoted, decimal, hex2, is_ws, owned, push_decimal, push_hex2, push_str, quoted, str_eq, trim, trim_end, trim_start, trimmed};

verus! {

// ---------------------------------------------------------------------------
// Effect names
// ---------------------------------------------------------------------------

/// One character of an effect name as typed: ASCII letters lowered, `_`
/// and space read as `-`.
pub open spec fn name_char(c: char) -> char {
    if c == '_' || c == ' ' {
        '-'
    } else {
        ascii_lower(c)
    }
}

/// An effect name as typed, normalised: trimmed, lowered, `_`/space → `-`.
pub open spec fn normalized_name(s: Seq<char>) -> Seq<char> {
    trim(s).map_values(|c: char| name_char(c))
}

/// The effect a normalised name selects. The firmware wave and rainbow
/// names select the colour wave in the same direction.
pub open spec fn effect_for_name(n: Seq<char>) -> Option<Effect> {
    if n == "off"@ {
        Some(Effect::Off)
    } else if n == "static"@ {
        Some(Effect::Static)
    } else if n == "breath"@ || n == "breathing"@ {
        Some(Effect::Breath)
    } else if n == "flow-left"@ || n == "wave-left"@ || n == "rainbow-left"@ {
        Some(Effect::FlowLeft)
    } else if n == "flow-right"@ || n == "wave-right"@ || n == "rainbow-right"@ {
        Some(Effect::FlowRight)
    } else if n == "smooth"@ || n == "smooth-flow"@ {
        Some(Effect::Smooth)
    } else {
        None
    }
}

/// The effect the command line selects for an effect's own name: the
/// firmware wave and rainbow names select the colour wave in the same
/// direction.
pub open spec fn command_line_effect(e: Effect) -> Effect {
    match e {
        Effect::WaveLeft | Effect::RainbowLeft => Effect::FlowLeft,
        Effect::WaveRight | Effect::RainbowRight => Effect::FlowRight,
        _ => e,
    }
}

/// A name made only of lower-case letters and `-` reads as itself.
proof fn lemma_plain_name(s: Seq<char>)
    requires
        s.len() > 0,
        forall|i: int| 0 <= i < s.len() ==> ('a' <= #[trigger] s[i] <= 'z') || s[i] == '-',
    ensures
        normalized_name(s) == s,
{
    assert(!is_ws(s[0]));
    assert(trim_start(s) == s);
    assert(!is_ws(s.last()));
    assert(trim_end(s) == s);
    assert(trim(s).map_values(|c: char| name_char(c)) =~= s);
}

/// Every effect's own name parses back: to the effect itself, except the
/// firmware waves, whose names select the colour wave in the same
/// direction.
pub proof fn lemma_effect_names_parse_back(e: Effect)
    ensures
        effect_for_name(normalized_name(effect_name(e))) == Some(command_line_effect(e)),
{
    reveal_strlit("off");
    reveal_strlit("static");
    reveal_strlit("breath");
    reveal_strlit("breathing");
    reveal_strlit("wave-left");
    reveal_strlit("wave-right");
    reveal_strlit("rainbow-left");
    reveal_strlit("rainbow-right");
    reveal_strlit("flow-left");
    reveal_strlit("flow-right");
    reveal_strlit("smooth");
    reveal_strlit("smooth-flow");
    let s = effect_name(e);
    assert forall|i: int| 0 <= i < s.len() implies ('a' <= #[trigger] s[i] <= 'z') || s[i] == '-' by {
        match e {
            Effect::Off => {},
            Effect::Static => {},
            Effect::Breath => {},
            Effect::WaveLeft => {},
            Effect::WaveRight => {},
            Effect::RainbowLeft => {},
            Effect::RainbowRight => {},
            Effect::FlowLeft => {},
            Effect::FlowRight => {},
            Effect::Smooth => {},
        }
    }
    lemma_plain_name(s);
}

/// Every effect name, quoted, in UI order.
pub const EFFECT_CHOICES: &'static str =
    "\"off\", \"static\", \"breath\", \"wave-left\", \"wave-right\", \"rainbow-left\", \"rainbow-right\", \"flow-left\", \"flow-right\", \"smooth\"";

/// The message for an unknown effect name.
pub open spec fn unknown_effect_message(n: Seq<char>) -> Seq<char> {
    "unknown effect "@ + debug_quoted(n) + "; choose from: "@ + EFFECT_CHOICES@
}

fn normalize_name(s: &str) -> (r: String)
    ensures
        r@ == normalized_name(s@),
{
    let t = trimmed(s);
    let ts = t.as_str();
    let lower = "abcdefghijklmnopqrstuvwxyz";
    proof {
        reveal_strlit("abcdefghijklmnopqrstuvwxyz");
        reveal_strlit("-");
    }
    let ghost target = t@.map_values(|c: char| name_char(c));
    let n = ts.unicode_len();
    let mut out = String::new();
    let mut i: usize = 0;
    while i < n
        invariant
            n == ts@.len(),
            ts@ == t@,
            target == t@.map_values(|c: char| name_char(c)),
            lower@ == "abcdefghijklmnopqrstuvwxyz"@,
            "-"@ == seq!['-'],
            i <= n,
            out@ == target.take(i as int),
        decreases n - i,
    {
        let c = ts.get_char(i);
        let ghost before = out@;
        if c == '_' || c == ' ' {
            push_str(&mut out, "-");
        } else if 'A' <= c && c <= 'Z' {
            proof {
                reveal_strlit("abcdefghijklmnopqrstuvwxyz");
                assert(65 <= c as u32 <= 90);
            }
            let k = (c as u32 - 'A' as u32) as usize;
            let piece = lower.substring_char(k, k + 1);
            proof {
                let u = c as u32;
                let l = ascii_lower(c);
                let lu = (u + 32) as u32;
                vstd::utf8::char_u32_cast(l, lu);
                assert(lower@[k as int] as u32 == lu);
                vstd::utf8::char_u32_cast(lower@[k as int], lu);
                assert(piece@ =~= seq![name_char(c)]);
            }
            push_str(&mut out, piece);
        } else {
            let piece = ts.substring_char(i, i + 1);
            assert(piece@ =~= seq![name_char(c)]);
            push_str(&mut out, piece);
        }
        proof {
            assert(target[i as int] == name_char(c));
            assert(out@ =~= target.take(i + 1));
        }
        i = i + 1;
    }
    assert(target.take(n as int) =~= target);
    out
}

/// Parse an effect name as typed on the command line.
pub fn parse_effect(s: &str) -> (r: Result<Effect, String>)
    ensures
        effect_for_name(normalized_name(s@)) matches Some(e) ==> r == Ok::<Effect, String>(e),
        effect_for_name(normalized_name(s@)) is None ==> (r matches Err(m) && m@
            == unknown_effect_message(normalized_name(s@))),
{
    let n = normalize_name(s);
    let ns = n.as_str();
    if str_eq(ns, "off") {
        Ok(Effect::Off)
    } else if str_eq(ns, "static") {
        Ok(Effect::Static)
    } else if str_eq(ns, "breath") || str_eq(ns, "breathing") {
        Ok(Effect::Breath)
    } else if str_eq(ns, "flow-left") || str_eq(ns, "wave-left") || str_eq(ns, "rainbow-left") {
        Ok(Effect::FlowLeft)
    } else if str_eq(ns, "flow-right") || str_eq(ns, "wave-right") || str_eq(ns, "rainbow-right") {
        Ok(Effect::FlowRight)
    } else if str_eq(ns, "smooth") || str_eq(ns, "smooth-flow") {
        Ok(Effect::Smooth)
    } else {
        let mut m = String::new();
        push_str(&mut m, "unknown effect ");
        let q = quoted(ns);
        push_str(&mut m, q.as_str());
        push_str(&mut m, "; choose from: ");
        push_str(&mut m, EFFECT_CHOICES);
        assert(m@ =~= unknown_effect_message(normalized_name(s@)));
        Err(m)
    }
}

// ---------------------------------------------------------------------------
// Configuration from flags
// ---------------------------------------------------------------------------

/// The message for a colour argument that does not parse.
pub open spec fn invalid_colour_message(c: Seq<char>) -> Seq<char> {
    "invalid colour "@ + debug_quoted(c) + "; expected #rrggbb"@
}

/// Zone colours from the `--colors` values: white when none are given,
/// otherwise the given colours left to right, the last one repeated.
pub open spec fn zones_from(parsed: Seq<Rgb>) -> Seq<Rgb> {
    if parsed.len() == 0 {
        seq![white_spec(), white_spec(), white_spec(), white_spec()]
    } else {
        Seq::new(4, |i: int| if i < parsed.len() { parsed[i] } else { parsed.last() })
    }
}

/// All colour arguments parse.
pub open spec fn all_colours_parse(colors: Seq<String>) -> bool {
    forall|i: int| 0 <= i < colors.len() ==> (#[trigger] parse_hex_colour(colors[i]@)) is Some
}

/// The colours the arguments spell.
pub open spec fn parsed_colours(colors: Seq<String>) -> Seq<Rgb> {
    colors.map_values(|c: String| parse_hex_colour(c@).unwrap())
}

/// What the `apply`/`dump-packet` flags give: when every colour parses,
/// the configuration they describe (static, speed 2, brightness 2 by
/// default; zones from [`zones_from`]) normalised; otherwise the error for
/// the first colour that does not parse.
pub open spec fn flags_outcome(
    effect: Option<Effect>,
    speed: Option<u8>,
    brightness: Option<u8>,
    colors: Seq<String>,
    r: Result<LightingConfig, Error>,
) -> bool {
    &&& all_colours_parse(colors) ==> (r matches Ok(cfg) && cfg == (LightingConfig {
        effect: match effect {
            Some(e) => e,
            None => Effect::Static,
        },
        speed: match speed {
            Some(s) => s,
            None => 2,
        },
        brightness: match brightness {
            Some(b) => b,
            None => 2,
        },
        zones: cfg.zones,
    }).normal_form() && cfg.zones@ == zones_from(parsed_colours(colors)))
    &&& !all_colours_parse(colors) ==> (r matches Err(Error::Config(m)) && exists|i: int|
        0 <= i < colors.len() && parse_hex_colour(colors[i]@) is None && (forall|j: int|
            0 <= j < i ==> (#[trigger] parse_hex_colour(colors[j]@)) is Some) && m@
            == invalid_colour_message(colors[i]@))
}

/// The `--colors` values fill the four zones left to right; fewer than
/// four repeat the last one given across the remaining zones, whatever
/// their number, and none at all leaves every zone white.
pub proof fn lemma_flags_fill_zones(
    effect: Option<Effect>,
    speed: Option<u8>,
    brightness: Option<u8>,
    colors: Seq<String>,
    r: Result<LightingConfig, Error>,
)
    requires
        flags_outcome(effect, speed, brightness, colors, r),
        all_colours_parse(colors),
    ensures
        r matches Ok(cfg) && {
            &&& forall|i: int|
                0 <= i < 4 && i < colors.len() ==> cfg.zones[i] == parse_hex_colour(
                    #[trigger] colors[i]@,
                ).unwrap()
            &&& forall|i: int|
                0 < colors.len() <= i < 4 ==> #[trigger] cfg.zones[i] == parse_hex_colour(
                    colors.last()@,
                ).unwrap()
            &&& colors.len() == 0 ==> forall|i: int|
                0 <= i < 4 ==> #[trigger] cfg.zones[i] == (Rgb { r: 255, g: 255, b: 255 })
        },
{
    let cfg = r->Ok_0;
    let parsed = parsed_colours(colors);
    assert forall|i: int| 0 <= i < 4 && i < colors.len() implies cfg.zones[i] == parse_hex_colour(
        #[trigger] colors[i]@,
    ).unwrap() by {
        assert(cfg.zones@[i] == zones_from(parsed)[i]);
    }
    assert forall|i: int| 0 < colors.len() <= i < 4 implies #[trigger] cfg.zones[i]
        == parse_hex_colour(colors.last()@).unwrap() by {
        assert(cfg.zones@[i] == zones_from(parsed)[i]);
        assert(parsed.last() == parsed[colors.len() - 1]);
    }
    assert forall|i: int| colors.len() == 0 && 0 <= i < 4 implies #[trigger] cfg.zones[i] == (Rgb {
        r: 255,
        g: 255,
        b: 255,
    }) by {
        assert(cfg.zones@[i] == zones_from(parsed)[i]);
    }
}

/// Build the configuration the `apply`/`dump-packet` flags describe:
/// static, speed 2, brightness 2 by default, normalised. The first colour
/// argument that does not parse is reported.
pub fn config_from_flags(
    effect: Option<Effect>,
    speed: Option<u8>,
    brightness: Option<u8>,
    colors: &Vec<String>,
) -> (r: Result<LightingConfig, Error>)
    ensures
        flags_outcome(effect, speed, brightness, colors@, r),
{
    let mut parsed: Vec<Rgb> = Vec::new();
    let mut i: usize = 0;
    while i < colors.len()
        invariant
            i <= colors@.len(),
            parsed@.len() == i,
            forall|j: int| 0 <= j < i ==> (#[trigger] parse_hex_colour(colors@[j]@)) is Some,
            forall|j: int| 0 <= j < i ==> parsed@[j] == parse_hex_colour(colors@[j]@).unwrap(),
        decreases colors@.len() - i,
    {
        match Rgb::from_hex(colors[i].as_str()) {
            Some(c) => {
                parsed.push(c);
            },
            None => {
                let mut m = String::new();
                push_str(&mut m, "invalid colour ");
                let q = quoted(colors[i].as_str());
                push_str(&mut m, q.as_str());
                push_str(&mut m, "; expected #rrggbb");
                assert(m@ =~= invalid_colour_message(colors@[i as int]@));
                assert(!all_colours_parse(colors@));
                return Err(Error::Config(m));
            },
        }
        i = i + 1;
    }
    assert(parsed@ =~= parsed_colours(colors@));
    let w = Rgb::white();
    let mut zones = [w, w, w, w];
    let n = parsed.len();
    if n > 0 {
        let last = parsed[n - 1];
        let mut k: usize = 0;
        while k < 4
            invariant
                k <= 4,
                n == parsed@.len(),
                n > 0,
                last == parsed@.last(),
                forall|j: int| 0 <= j < k ==> zones@[j] == zones_from(parsed@)[j],
            decreases 4 - k,
        {
            zones[k] = if k < n {
                parsed[k]
            } else {
                last
            };
            k = k + 1;
        }
    }
    assert(zones@ =~= zones_from(parsed@));
    let cfg = LightingConfig {
        effect: match effect {
            Some(e) => e,
            None => Effect::Static,
        },
        speed: match speed {
            Some(s) => s,
            None => 2,
        },
        brightness: match brightness {
            Some(b) => b,
            None => 2,
        },
        zones,
    };
    Ok(cfg.normalized())
}

/// Where an `apply`/`dump-packet` run takes its configuration from.
#[derive(Debug, Clone, Copy, PartialEq, Eq, Structural)]
pub enum ConfigSource {
    /// The profile named with `--profile`.
    Profile,
    /// The active profile: no configuration flag and nothing to save (the
    /// run at login).
    Active,
    /// The configuration flags.
    Flags,
}

/// No configuration flag was given and nothing is to be saved.
pub open spec fn bare_run(
    effect: Option<Effect>,
    speed: Option<u8>,
    brightness: Option<u8>,
    colors: Seq<String>,
    save: bool,
) -> bool {
    effect is None && speed is None && brightness is None && colors.len() == 0 && !save
}

/// Decide where the configuration comes from: a named profile wins, a bare
/// run re-applies the active profile, anything else is built from flags.
pub fn config_source(
    profile: &Option<String>,
    effect: Option<Effect>,
    speed: Option<u8>,
    brightness: Option<u8>,
    colors: &Vec<String>,
    save: bool,
) -> (s: ConfigSource)
    ensures
        profile is Some ==> s == ConfigSource::Profile,
        profile is None && bare_run(effect, speed, brightness, colors@, save) ==> s
            == ConfigSource::Active,
        profile is None && !bare_run(effect, speed, brightness, colors@, save) ==> s
            == ConfigSource::Flags,
{
    if profile.is_some() {
        ConfigSource::Profile
    } else if effect.is_none() && speed.is_none() && brightness.is_none() && colors.len() == 0
        && !save {
        ConfigSource::Active
    } else {
        ConfigSource::Flags
    }
}

/// The configuration an `apply`/`dump-packet` run means, given the stored
/// profiles: the named profile normalised (an error naming it when it does
/// not exist), the active profile for a bare run, or the flags.
pub fn build_config(
    store: &AppConfig,
    profile: &Option<String>,
    effect: Option<Effect>,
    speed: Option<u8>,
    brightness: Option<u8>,
    colors: &Vec<String>,
    save: bool,
) -> (r: Result<LightingConfig, Error>)
    requires
        store.profiles.wf(),
    ensures
        profile matches Some(n) ==> (if store.profiles@.dom().contains(n@) {
            r == Ok::<LightingConfig, Error>(store.profiles@[n@].normal_form())
        } else {
            r matches Err(Error::Config(m)) && m@ == no_profile_message(n@)
        }),
        profile is None && bare_run(effect, speed, brightness, colors@, save) ==> r == Ok::<
            LightingConfig,
            Error,
        >(store.active_lighting()),
        profile is None && !bare_run(effect, speed, brightness, colors@, save) ==> flags_outcome(
            effect,
            speed,
            brightness,
            colors@,
            r,
        ),
{
    match config_source(profile, effect, speed, brightness, colors, save) {
        ConfigSource::Profile => {
            let name = profile.as_ref().unwrap();
            match store.profiles.get(name.as_str()) {
                Some(c) => Ok(c.normalized()),
                None => Err(no_profile_error(name.as_str())),
            }
        },
        ConfigSource::Active => Ok(store.active_config()),
        ConfigSource::Flags => config_from_flags(effect, speed, brightness, colors),
    }
}

/// The refusal of a destructive profile command run without `--yes`; the
/// verb is what would have been done ("delete", "rename").
pub open spec fn unconfirmed_message(verb: Seq<char>, name: Seq<char>) -> Seq<char> {
    "refusing to "@ + verb + " profile "@ + debug_quoted(name)
        + " without confirmation \u{2014} re-run with `--yes`"@
}

pub fn unconfirmed_error(verb: &str, name: &str) -> (e: Error)
    ensures
        e matches Error::Config(m) && m@ == unconfirmed_message(verb@, name@),
{
    let mut m = String::new();
    push_str(&mut m, "refusing to ");
    push_str(&mut m, verb);
    push_str(&mut m, " profile ");
    let q = quoted(name);
    push_str(&mut m, q.as_str());
    push_str(&mut m, " without confirmation \u{2014} re-run with `--yes`");
    assert(m@ =~= unconfirmed_message(verb@, name@));
    Error::Config(m)
}

/// What a successful deletion reports: the deletion, and where the active
/// selection went when the deleted profile was the active one.
pub open spec fn delete_report_lines(name: Seq<char>, new_active: Option<Seq<char>>) -> Seq<
    Seq<char>,
> {
    let first = "deleted profile "@ + debug_quoted(name);
    match new_active {
        Some(a) => seq![
            first,
            "note: it was the active profile \u{2014} active selection switched to "@
                + debug_quoted(a) + " (the keyboard lighting was not changed)"@,
        ],
        None => seq![first],
    }
}

pub fn delete_report(name: &str, new_active: &Option<String>) -> (lines: Vec<String>)
    ensures
        lines@.map_values(|l: String| l@) == delete_report_lines(
            name@,
            match new_active {
                Some(a) => Some(a@),
                None => None,
            },
        ),
{
    let mut first = String::new();
    push_str(&mut first, "deleted profile ");
    let q = quoted(name);
    push_str(&mut first, q.as_str());
    let mut lines: Vec<String> = Vec::new();
    lines.push(first);
    match new_active {
        Some(a) => {
            let mut note = String::new();
            push_str(&mut note, "note: it was the active profile \u{2014} active selection switched to ");
            let qa = quoted(a.as_str());
            push_str(&mut note, qa.as_str());
            push_str(&mut note, " (the keyboard lighting was not changed)");
            lines.push(note);
        },
        None => {},
    }
    proof {
        let want = delete_report_lines(
            name@,
            match new_active {
                Some(a) => Some(a@),
                None => None,
            },
        );
        assert(lines@.map_values(|l: String| l@) =~= want);
    }
    lines
}

/// The udev rule granting the logged-in user access to every supported
/// controller.
pub const UDEV_RULE: &'static str = "# loq-rgb: rootless access to the Lenovo 4-zone ITE RGB keyboard
# controller (LOQ / Legion / IdeaPad Gaming, 2020-2024).
SUBSYSTEM==\"hidraw\", ATTRS{idVendor}==\"048d\", ATTRS{idProduct}==\"c993\", MODE=\"0666\", TAG+=\"uaccess\"
SUBSYSTEM==\"hidraw\", ATTRS{idVendor}==\"048d\", ATTRS{idProduct}==\"c983\", MODE=\"0666\", TAG+=\"uaccess\"
SUBSYSTEM==\"hidraw\", ATTRS{idVendor}==\"048d\", ATTRS{idProduct}==\"c995\", MODE=\"0666\", TAG+=\"uaccess\"
SUBSYSTEM==\"hidraw\", ATTRS{idVendor}==\"048d\", ATTRS{idProduct}==\"c994\", MODE=\"0666\", TAG+=\"uaccess\"
SUBSYSTEM==\"hidraw\", ATTRS{idVendor}==\"048d\", ATTRS{idProduct}==\"c985\", MODE=\"0666\", TAG+=\"uaccess\"
SUBSYSTEM==\"hidraw\", ATTRS{idVendor}==\"048d\", ATTRS{idProduct}==\"c984\", MODE=\"0666\", TAG+=\"uaccess\"
SUBSYSTEM==\"hidraw\", ATTRS{idVendor}==\"048d\", ATTRS{idProduct}==\"c975\", MODE=\"0666\", TAG+=\"uaccess\"
SUBSYSTEM==\"hidraw\", ATTRS{idVendor}==\"048d\", ATTRS{idProduct}==\"c973\", MODE=\"0666\", TAG+=\"uaccess\"
SUBSYSTEM==\"hidraw\", ATTRS{idVendor}==\"048d\", ATTRS{idProduct}==\"c965\", MODE=\"0666\", TAG+=\"uaccess\"
SUBSYSTEM==\"hidraw\", ATTRS{idVendor}==\"048d\", ATTRS{idProduct}==\"c963\", MODE=\"0666\", TAG+=\"uaccess\"
SUBSYSTEM==\"hidraw\", ATTRS{idVendor}==\"048d\", ATTRS{idProduct}==\"c955\", MODE=\"0666\", TAG+=\"uaccess\"
";

/// Where the udev rule is installed.
pub const UDEV_TARGET: &'static str = "/etc/udev/rules.d/60-loq-rgb.rules";

// ---------------------------------------------------------------------------
// Text output
// ---------------------------------------------------------------------------

/// Packet bytes as two-digit hex, separated by spaces.
pub open spec fn hex_dump(p: Seq<u8>) -> Seq<char>
    decreases p.len(),
{
    if p.len() == 0 {
        Seq::empty()
    } else if p.len() == 1 {
        hex2(p[0])
    } else {
        hex_dump(p.drop_last()) + " "@ + hex2(p.last())
    }
}

/// The `dump-packet` line.
pub fn packet_hex(p: &[u8; PACKET_LEN]) -> (s: String)
    ensures
        s@ == hex_dump(p@),
{
    let mut s = String::new();
    push_hex2(&mut s, p[0]);
    assert(p@.take(1).drop_last() =~= Seq::<u8>::empty());
    assert(s@ =~= hex_dump(p@.take(1)));
    let mut i: usize = 1;
    while i < PACKET_LEN
        invariant
            1 <= i <= PACKET_LEN,
            p@.len() == PACKET_LEN,
            s@ == hex_dump(p@.take(i as int)),
        decreases PACKET_LEN - i,
    {
        push_str(&mut s, " ");
        push_hex2(&mut s, p[i]);
        proof {
            let t = p@.take(i + 1);
            assert(t.drop_last() =~= p@.take(i as int));
            assert(t.last() == p@[i as int]);
            assert(s@ =~= hex_dump(t));
        }
        i = i + 1;
    }
    assert(p@.take(PACKET_LEN as int) =~= p@);
    s
}

/// `zone N: #rrggbb`.
pub open spec fn zone_line(n: nat, c: Rgb) -> Seq<char> {
    "zone "@ + decimal(n) + ": "@ + hex_colour(c)
}

fn zone_line_text(n: u64, c: Rgb) -> (s: String)
    ensures
        s@ == zone_line(n as nat, c),
{
    let mut s = String::new();
    push_str(&mut s, "zone ");
    push_decimal(&mut s, n);
    push_str(&mut s, ": ");
    let h = c.to_hex();
    push_str(&mut s, h.as_str());
    assert(s@ =~= zone_line(n as nat, c));
    s
}

/// The four `zone N: #rrggbb` lines of a config.
pub open spec fn zone_lines(cfg: LightingConfig) -> Seq<Seq<char>> {
    seq![
        zone_line(1, cfg.zones[0]),
        zone_line(2, cfg.zones[1]),
        zone_line(3, cfg.zones[2]),
        zone_line(4, cfg.zones[3]),
    ]
}

pub const NOT_SENT_LINE: &'static str =
    "zone colours: not sent (this effect drives its own visuals)";

pub const PALETTE_MODE_LINE: &'static str =
    "zone colours: palette mode — these colours are the wave's blocks";

pub const SPECTRUM_MODE_LINE: &'static str =
    "zone colours: identical — the colour wave shows the full colour spectrum";

pub const HOST_RENDERED_NOTE: &'static str =
    "note: colour wave is host-rendered and animates while the GUI or `loq-rgb-cli listen-hotkeys` runs.";

/// `effect: <label> | speed: S | brightness: B`.
pub open spec fn headline(cfg: LightingConfig) -> Seq<char> {
    "effect: "@ + effect_label(cfg.effect) + " | speed: "@ + decimal(cfg.speed as nat)
        + " | brightness: "@ + decimal(cfg.brightness as nat)
}

/// The lines that describe a config after it was applied.
pub open spec fn summary_lines(cfg: LightingConfig) -> Seq<Seq<char>> {
    if !cfg.effect.writes_zone_bytes() {
        seq![headline(cfg), NOT_SENT_LINE@]
    } else if cfg.effect.is_host_rendered() {
        if palette_mode(cfg) {
            seq![headline(cfg), PALETTE_MODE_LINE@] + zone_lines(cfg) + seq![HOST_RENDERED_NOTE@]
        } else {
            seq![headline(cfg), SPECTRUM_MODE_LINE@, HOST_RENDERED_NOTE@]
        }
    } else {
        seq![headline(cfg)] + zone_lines(cfg)
    }
}

fn push_zone_lines(lines: &mut Vec<String>, cfg: &LightingConfig)
    ensures
        final(lines)@.map_values(|l: String| l@) == old(lines)@.map_values(|l: String| l@)
            + zone_lines(*cfg),
{
    let ghost before = lines@.map_values(|l: String| l@);
    lines.push(zone_line_text(1, cfg.zones[0]));
    lines.push(zone_line_text(2, cfg.zones[1]));
    lines.push(zone_line_text(3, cfg.zones[2]));
    lines.push(zone_line_text(4, cfg.zones[3]));
    assert(lines@.map_values(|l: String| l@) =~= before + zone_lines(*cfg));
}

/// The lines printed after a config is applied.
pub fn config_lines(cfg: &LightingConfig) -> (lines: Vec<String>)
    ensures
        lines@.map_values(|l: String| l@) == summary_lines(*cfg),
{
    let mut head = String::new();
    push_str(&mut head, "effect: ");
    push_str(&mut head, info(cfg.effect).label);
    push_str(&mut head, " | speed: ");
    push_decimal(&mut head, cfg.speed as u64);
    push_str(&mut head, " | brightness: ");
    push_decimal(&mut head, cfg.brightness as u64);
    assert(head@ =~= headline(*cfg));
    let mut lines: Vec<String> = Vec::new();
    lines.push(head);
    let ghost h = seq![headline(*cfg)];
    assert(lines@.map_values(|l: String| l@) =~= h);
    if !cfg.effect.writes_zone_bytes() {
        lines.push(owned(NOT_SENT_LINE));
        assert(lines@.map_values(|l: String| l@) =~= h.push(NOT_SENT_LINE@));
    } else if cfg.effect.is_host_rendered() {
        if uses_palette(cfg) {
            lines.push(owned(PALETTE_MODE_LINE));
            assert(lines@.map_values(|l: String| l@) =~= h.push(PALETTE_MODE_LINE@));
            push_zone_lines(&mut lines, cfg);
            lines.push(owned(HOST_RENDERED_NOTE));
            assert(lines@.map_values(|l: String| l@) =~= h.push(PALETTE_MODE_LINE@) + zone_lines(*cfg) + seq![HOST_RENDERED_NOTE@]);
        } else {
            lines.push(owned(SPECTRUM_MODE_LINE));
            lines.push(owned(HOST_RENDERED_NOTE));
            assert(lines@.map_values(|l: String| l@) =~= h.push(SPECTRUM_MODE_LINE@).push(HOST_RENDERED_NOTE@));
        }
    } else {
        push_zone_lines(&mut lines, cfg);
    }
    assert(lines@.map_values(|l: String| l@) =~= summary_lines(*cfg));
    lines
}

/// `#a #b #c #d` for effects that use the zone colours, `- - - -` otherwise.
pub open spec fn zone_column(cfg: LightingConfig) -> Seq<char> {
    if cfg.effect.uses_zone_colors() {
        hex_colour(cfg.zones[0]) + " "@ + hex_colour(cfg.zones[1]) + " "@ + hex_colour(cfg.zones[2])
            + " "@ + hex_colour(cfg.zones[3])
    } else {
        "- - - -"@
    }
}

/// The profile list shows the four zone colours for every effect that
/// uses them — static, breathing, the colour waves and the colour flows —
/// and `- - - -` for exactly the others.
pub proof fn lemma_zone_column_shows_used_colours(cfg: LightingConfig)
    ensures
        ({
            let e = cfg.effect;
            let used = e is Static || e is Breath || e is WaveLeft || e is WaveRight
                || e is FlowLeft || e is FlowRight;
            &&& used ==> zone_column(cfg) == hex_colour(cfg.zones[0]) + " "@ + hex_colour(
                cfg.zones[1],
            ) + " "@ + hex_colour(cfg.zones[2]) + " "@ + hex_colour(cfg.zones[3])
            &&& !used ==> zone_column(cfg) == "- - - -"@
            &&& zone_column(cfg) == "- - - -"@ <==> !used
        }),
{
    reveal_strlit("- - - -");
    let e = cfg.effect;
    if e is Static || e is Breath || e is WaveLeft || e is WaveRight || e is FlowLeft
        || e is FlowRight {
        let h = hex_colour(cfg.zones[0]);
        let rest = " "@ + hex_colour(cfg.zones[1]) + " "@ + hex_colour(cfg.zones[2]) + " "@
            + hex_colour(cfg.zones[3]);
        assert(zone_column(cfg) =~= h + rest);
        assert((h + rest)[0] == h[0]);
        assert(h[0] == '#');
        assert("- - - -"@[0] == '-');
    }
}

/// One line of the profile list: a `* ` marker on the active profile.
pub open spec fn profile_line_text(name: Seq<char>, cfg: LightingConfig, active: bool) -> Seq<char> {
    (if active {
        "* "@
    } else {
        "  "@
    }) + name + ": "@ + effect_label(cfg.effect) + " (speed "@ + decimal(cfg.speed as nat)
        + ", brightness "@ + decimal(cfg.brightness as nat) + ", zones "@ + zone_column(cfg) + ")"@
}

/// One line of the `profiles` listing.
pub fn profile_line(name: &str, cfg: &LightingConfig, active: bool) -> (s: String)
    ensures
        s@ == profile_line_text(name@, *cfg, active),
{
    let mut s = String::new();
    if active {
        push_str(&mut s, "* ");
    } else {
        push_str(&mut s, "  ");
    }
    push_str(&mut s, name);
    push_str(&mut s, ": ");
    push_str(&mut s, info(cfg.effect).label);
    push_str(&mut s, " (speed ");
    push_decimal(&mut s, cfg.speed as u64);
    push_str(&mut s, ", brightness ");
    push_decimal(&mut s, cfg.brightness as u64);
    push_str(&mut s, ", zones ");
    let ghost mid = s@;
    if cfg.effect.uses_zone_colors() {
        let a = cfg.zones[0].to_hex();
        let b = cfg.zones[1].to_hex();
        let c = cfg.zones[2].to_hex();
        let d = cfg.zones[3].to_hex();
        push_str(&mut s, a.as_str());
        push_str(&mut s, " ");
        push_str(&mut s, b.as_str());
        push_str(&mut s, " ");
        push_str(&mut s, c.as_str());
        push_str(&mut s, " ");
        push_str(&mut s, d.as_str());
    } else {
        push_str(&mut s, "- - - -");
    }
    assert(s@ =~= mid + zone_column(*cfg));
    push_str(&mut s, ")");
    assert(s@ =~= profile_line_text(name@, *cfg, active));
    s
}

/// The profile listing: one line per profile, in name order.
pub fn profile_lines(cfg: &AppConfig) -> (lines: Vec<String>)
    requires
        cfg.profiles.wf(),
    ensures
        lines@.len() == cfg.profiles.key_list().len(),
        forall|i: int|
            0 <= i < lines@.len() ==> (#[trigger] lines@[i])@ == profile_line_text(
                cfg.profiles.key_list()[i],
                cfg.profiles@[cfg.profiles.key_list()[i]],
                cfg.profiles.key_list()[i] == cfg.active_profile@,
            ),
{
    let names = cfg.profiles.keys();
    let mut lines: Vec<String> = Vec::new();
    let mut i: usize = 0;
    proof {
        cfg.profiles.lemma_keys();
    }
    while i < names.len()
        invariant
            cfg.profiles.wf(),
            names@.map_values(|n: String| n@) == cfg.profiles.key_list(),
            i <= names@.len(),
            lines@.len() == i,
            forall|j: int|
                0 <= j < i ==> (#[trigger] lines@[j])@ == profile_line_text(
                    cfg.profiles.key_list()[j],
                    cfg.profiles@[cfg.profiles.key_list()[j]],
                    cfg.profiles.key_list()[j] == cfg.active_profile@,
                ),
        decreases names@.len() - i,
    {
        let name = names[i].as_str();
        assert(name@ == cfg.profiles.key_list()[i as int]);
        proof {
            cfg.profiles.lemma_keys();
            assert(cfg.profiles.key_list().contains(name@));
        }
        let pcfg = match cfg.profiles.get(name) {
            Some(c) => c,
            None => {
                assert(false);
                LightingConfig::default()
            },
        };
        let active = str_eq(name, cfg.active_profile.as_str());
        lines.push(profile_line(name, &pcfg, active));
        i = i + 1;
    }
    lines
}

/// The autostart entry; `exe` is the absolute path of the CLI binary.
pub open spec fn desktop_entry(exe: Seq<char>) -> Seq<char> {
    DESKTOP_HEAD@ + exe + DESKTOP_TAIL@
}

pub const DESKTOP_HEAD: &'static str =
    "[Desktop Entry]\nType=Application\nName=LOQ RGB\nComment=Applies your keyboard RGB profile at login, keeps the colour wave running and handles Fn+Space profile cycling\nExec=";

pub const DESKTOP_TAIL: &'static str =
    " listen-hotkeys\nTerminal=false\nX-GNOME-Autostart-enabled=true\nX-KDE-autostart-after=panel\n";

/// Autostart entry body, running `exe listen-hotkeys` at login.
pub fn autostart_desktop_file(exe: &str) -> (s: String)
    ensures
        s@ == desktop_entry(exe@),
{
    let mut s = String::new();
    push_str(&mut s, DESKTOP_HEAD);
    push_str(&mut s, exe);
    push_str(&mut s, DESKTOP_TAIL);
    s
}

// ---------------------------------------------------------------------------
// `detect` and `status`
// ---------------------------------------------------------------------------

/// The labels of some effects, separated by commas.
pub open spec fn label_list(es: Seq<Effect>) -> Seq<char>
    decreases es.len(),
{
    if es.len() == 0 {
        Seq::empty()
    } else if es.len() == 1 {
        effect_label(es[0])
    } else {
        label_list(es.drop_last()) + ", "@ + effect_label(es.last())
    }
}

pub const ZONES_LINE: &'static str = "zones: 4 (static + breathing per-zone colours)";

pub const ONE_EFFECT_NOTE: &'static str =
    "note: the firmware applies ONE effect to the whole keyboard \u{2014} per-zone effect mixing is not supported.";

/// What `detect` prints for a found controller.
pub open spec fn detect_text(d: Detected) -> Seq<Seq<char>> {
    seq![d.description(), ZONES_LINE@, "effects: "@ + label_list(ui_order()), ONE_EFFECT_NOTE@]
}

pub fn detect_lines(d: &Detected) -> (lines: Vec<String>)
    ensures
        lines@.map_values(|l: String| l@) == detect_text(*d),
{
    let effects = all_effects();
    let mut labels = String::new();
    let mut i: usize = 0;
    while i < effects.len()
        invariant
            effects@.len() == ui_order().len(),
            forall|k: int| 0 <= k < effects@.len() ==> describes(#[trigger] effects@[k], ui_order()[k]),
            i <= effects@.len(),
            labels@ == label_list(ui_order().take(i as int)),
        decreases effects@.len() - i,
    {
        let ghost before = labels@;
        if i > 0 {
            push_str(&mut labels, ", ");
        }
        push_str(&mut labels, effects[i].label);
        proof {
            let t = ui_order().take(i + 1);
            assert(t.drop_last() =~= ui_order().take(i as int));
            assert(describes(effects@[i as int], ui_order()[i as int]));
            assert(t.last() == ui_order()[i as int]);
            if i == 0 {
                assert(labels@ =~= label_list(t));
            } else {
                assert(labels@ =~= before + ", "@ + effect_label(t.last()));
            }
        }
        i = i + 1;
    }
    assert(ui_order().take(ui_order().len() as int) =~= ui_order());
    let mut line = owned("effects: ");
    push_str(&mut line, labels.as_str());
    let mut lines: Vec<String> = Vec::new();
    lines.push(d.describe());
    lines.push(owned(ZONES_LINE));
    lines.push(line);
    lines.push(owned(ONE_EFFECT_NOTE));
    assert(lines@.map_values(|l: String| l@) =~= detect_text(*d));
    lines
}

/// An effect read back from the controller, as `status` names it.
pub open spec fn live_label(e: LiveEffect) -> Seq<char> {
    match e {
        LiveEffect::Known(x) => effect_label(x),
        LiveEffect::Unknown(code) => "unknown(0x"@ + hex2(code) + ")"@,
    }
}

/// `true` or `false`.
pub open spec fn bool_text(b: bool) -> Seq<char> {
    if b {
        "true"@
    } else {
        "false"@
    }
}

/// What `status` prints for a state read back from the controller.
pub open spec fn status_text(st: DeviceState) -> Seq<Seq<char>> {
    seq![
        "effect:     "@ + live_label(st.effect),
        "speed:      "@ + decimal(st.speed as nat),
        "brightness: "@ + decimal(st.brightness as nat),
        "zone 1:     "@ + hex_colour(st.zones[0]),
        "zone 2:     "@ + hex_colour(st.zones[1]),
        "zone 3:     "@ + hex_colour(st.zones[2]),
        "zone 4:     "@ + hex_colour(st.zones[3]),
        "wave flags: right="@ + bool_text(st.flag_right) + " left="@ + bool_text(st.flag_left),
    ]
}

fn push_bool(s: &mut String, b: bool)
    ensures
        final(s)@ == old(s)@ + bool_text(b),
{
    if b {
        push_str(s, "true");
    } else {
        push_str(s, "false");
    }
}

fn labelled_colour(label: &str, c: Rgb) -> (s: String)
    ensures
        s@ == label@ + hex_colour(c),
{
    let mut s = owned(label);
    let h = c.to_hex();
    push_str(&mut s, h.as_str());
    s
}

pub fn status_lines(st: &DeviceState) -> (lines: Vec<String>)
    ensures
        lines@.map_values(|l: String| l@) == status_text(*st),
{
    let mut eff = owned("effect:     ");
    match st.effect {
        LiveEffect::Known(e) => push_str(&mut eff, info(e).label),
        LiveEffect::Unknown(code) => {
            push_str(&mut eff, "unknown(0x");
            push_hex2(&mut eff, code);
            push_str(&mut eff, ")");
        },
    }
    assert(eff@ =~= "effect:     "@ + live_label(st.effect));
    let mut speed = owned("speed:      ");
    push_decimal(&mut speed, st.speed as u64);
    let mut bright = owned("brightness: ");
    push_decimal(&mut bright, st.brightness as u64);
    let mut flags = owned("wave flags: right=");
    push_bool(&mut flags, st.flag_right);
    push_str(&mut flags, " left=");
    push_bool(&mut flags, st.flag_left);
    assert(flags@ =~= "wave flags: right="@ + bool_text(st.flag_right) + " left="@ + bool_text(
        st.flag_left,
    ));
    let mut lines: Vec<String> = Vec::new();
    lines.push(eff);
    lines.push(speed);
    lines.push(bright);
    lines.push(labelled_colour("zone 1:     ", st.zones[0]));
    lines.push(labelled_colour("zone 2:     ", st.zones[1]));
    lines.push(labelled_colour("zone 3:     ", st.zones[2]));
    lines.push(labelled_colour("zone 4:     ", st.zones[3]));
    lines.push(flags);
    assert(lines@.map_values(|l: String| l@) =~= status_text(*st));
    lines
}

pub const NO_CONTROLLER_ON_BUS: &'static str = "no supported controller found on the USB bus";

/// What `detect` reports: the lines for a found controller, otherwise a
/// not-found error.
pub fn detect_report(d: &Option<Detected>) -> (r: Result<Vec<String>, Error>)
    ensures
        d matches Some(x) ==> (r matches Ok(lines) && lines@.map_values(|l: String| l@) == detect_text(*x)),
        d is None ==> (r matches Err(Error::DeviceNotFound(m)) && m@ == NO_CONTROLLER_ON_BUS@),
{
    match d {
        Some(x) => Ok(detect_lines(x)),
        None => Err(Error::DeviceNotFound(owned(NO_CONTROLLER_ON_BUS))),
    }
}

/// What `diagnose` says of a probe read of the state report that returned
/// `n` bytes: a short answer means state readback is not available.
pub open spec fn readback_probe_text(n: nat) -> Seq<char> {
    if n < PACKET_LEN {
        "    readback: "@ + decimal(n) + "-byte report (state readback NOT available)"@
    } else {
        "    readback: full 33-byte state available"@
    }
}

pub fn readback_probe_line(n: usize) -> (s: String)
    ensures
        s@ == readback_probe_text(n as nat),
{
    if n < PACKET_LEN {
        let mut s = owned("    readback: ");
        push_decimal(&mut s, n as u64);
        push_str(&mut s, "-byte report (state readback NOT available)");
        s
    } else {
        owned("    readback: full 33-byte state available")
    }
}

} // verus!

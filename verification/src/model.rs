//! Core data model: colours, effects, lighting configurations and the
//! device state the controller reports back.

use vstd::prelude::*;

use crate::text::{hex2, push_hex2, push_str};

verus! {

/// Number of independently addressable colour zones on the 4-zone keyboard.
pub const ZONE_COUNT: usize = 4;

/// Valid speeds (firmware range 1..=4).
pub const SPEED_MIN: u8 = 1;

pub const SPEED_MAX: u8 = 4;

/// Valid brightness levels (firmware range 1..=2; 0 is only legal for Off).
pub const BRIGHTNESS_MIN: u8 = 1;

pub const BRIGHTNESS_MAX: u8 = 2;

// ---------------------------------------------------------------------------
// Colour
// ---------------------------------------------------------------------------

/// An 8-bit-per-channel RGB colour, written as `#rrggbb` in files.
#[derive(Clone, Copy, Debug, PartialEq, Eq, Structural, Hash)]
pub struct Rgb {
    pub r: u8,
    pub g: u8,
    pub b: u8,
}

/// Value of a hexadecimal digit (either case), or `None`.
pub open spec fn hex_value(c: char) -> Option<u8> {
    if '0' <= c && c <= '9' {
        Some(((c as u32) - ('0' as u32)) as u8)
    } else if 'a' <= c && c <= 'f' {
        Some(((c as u32) - ('a' as u32) + 10) as u8)
    } else if 'A' <= c && c <= 'F' {
        Some(((c as u32) - ('A' as u32) + 10) as u8)
    } else {
        None
    }
}

/// The text after one optional leading `#`.
pub open spec fn hex_body(s: Seq<char>) -> Seq<char> {
    if s.len() > 0 && s[0] == '#' {
        s.drop_first()
    } else {
        s
    }
}

/// The byte spelled by two hexadecimal digits.
pub open spec fn hex_pair(hi: char, lo: char) -> u8 {
    (hex_value(hi).unwrap() * 16 + hex_value(lo).unwrap()) as u8
}

/// What `Rgb::from_hex` accepts: `#rrggbb` or `rrggbb`, any case.
pub open spec fn parse_hex_colour(s: Seq<char>) -> Option<Rgb> {
    let t = hex_body(s);
    if t.len() == 6 && forall|i: int| 0 <= i < 6 ==> (#[trigger] hex_value(t[i])) is Some {
        Some(Rgb { r: hex_pair(t[0], t[1]), g: hex_pair(t[2], t[3]), b: hex_pair(t[4], t[5]) })
    } else {
        None
    }
}

/// `#rrggbb` in lower case.
pub open spec fn hex_colour(c: Rgb) -> Seq<char> {
    seq!['#'] + hex2(c.r) + hex2(c.g) + hex2(c.b)
}

/// ASCII letters lowered, everything else unchanged.
pub open spec fn ascii_lower(c: char) -> char {
    if 'A' <= c && c <= 'Z' {
        ((c as u32) + 32) as char
    } else {
        c
    }
}

fn hex_value_of(c: char) -> (r: Option<u8>)
    ensures
        r == hex_value(c),
{
    if '0' <= c && c <= '9' {
        Some(((c as u32) - ('0' as u32)) as u8)
    } else if 'a' <= c && c <= 'f' {
        Some(((c as u32) - ('a' as u32) + 10) as u8)
    } else if 'A' <= c && c <= 'F' {
        Some(((c as u32) - ('A' as u32) + 10) as u8)
    } else {
        None
    }
}

impl Rgb {
    pub fn new(r: u8, g: u8, b: u8) -> (c: Self)
        ensures
            c == (Rgb { r, g, b }),
    {
        Rgb { r, g, b }
    }

    pub fn black() -> (c: Self)
        ensures
            c == (Rgb { r: 0, g: 0, b: 0 }),
    {
        Rgb { r: 0, g: 0, b: 0 }
    }

    pub fn white() -> (c: Self)
        ensures
            c == (Rgb { r: 255, g: 255, b: 255 }),
    {
        Rgb { r: 255, g: 255, b: 255 }
    }

    /// A neutral grey with all three channels at `v`.
    pub fn from_gray(v: u8) -> (c: Self)
        ensures
            c == (Rgb { r: v, g: v, b: v }),
    {
        Rgb { r: v, g: v, b: v }
    }

    /// Parse `#rrggbb` or `rrggbb` (case-insensitive). `None` on anything
    /// else.
    pub fn from_hex(s: &str) -> (r: Option<Self>)
        ensures
            r == parse_hex_colour(s@),
    {
        let n = s.unicode_len();
        let start: usize = if n > 0 && s.get_char(0) == '#' {
            1
        } else {
            0
        };
        let ghost t = hex_body(s@);
        assert(t =~= s@.skip(start as int));
        if n - start != 6 {
            return None;
        }
        let mut v: [u8; 6] = [0u8; 6];
        let mut i: usize = 0;
        while i < 6
            invariant
                n == s@.len(),
                n - start == 6,
                t =~= s@.skip(start as int),
                i <= 6,
                forall|k: int| 0 <= k < i ==> (#[trigger] hex_value(t[k])) is Some && v[k]
                    == hex_value(t[k]).unwrap(),
            decreases 6 - i,
        {
            match hex_value_of(s.get_char(start + i)) {
                Some(d) => {
                    v[i] = d;
                },
                None => {
                    assert(hex_value(t[i as int]) is None);
                    return None;
                },
            }
            i = i + 1;
        }
        proof {
            assert forall|k: int| 0 <= k < 6 implies hex_value(t[k]).unwrap() < 16 by {
                let c = t[k];
                assert(hex_value(c) is Some);
            }
        }
        Some(Rgb { r: v[0] * 16 + v[1], g: v[2] * 16 + v[3], b: v[4] * 16 + v[5] })
    }

    /// `#rrggbb` in lower case.
    pub fn to_hex(self) -> (s: String)
        ensures
            s@ == hex_colour(self),
    {
        let mut s = String::new();
        push_str(&mut s, "#");
        proof {
            reveal_strlit("#");
        }
        push_hex2(&mut s, self.r);
        push_hex2(&mut s, self.g);
        push_hex2(&mut s, self.b);
        assert(s@ =~= hex_colour(self));
        s
    }
}

/// Reading back what `to_hex` wrote gives the same colour.
pub proof fn lemma_hex_round_trip(c: Rgb)
    ensures
        parse_hex_colour(hex_colour(c)) == Some(c),
{
    let s = hex_colour(c);
    let t = hex_body(s);
    assert(t =~= hex2(c.r) + hex2(c.g) + hex2(c.b));
    assert(hex_value(t[0]) == Some(c.r / 16));
    assert(hex_value(t[1]) == Some(c.r % 16));
    assert(hex_value(t[2]) == Some(c.g / 16));
    assert(hex_value(t[3]) == Some(c.g % 16));
    assert(hex_value(t[4]) == Some(c.b / 16));
    assert(hex_value(t[5]) == Some(c.b % 16));
    assert forall|i: int| 0 <= i < 6 implies (#[trigger] hex_value(t[i])) is Some by {
        if i == 0 {
        } else if i == 1 {
        } else if i == 2 {
        } else if i == 3 {
        } else if i == 4 {
        } else {
        }
    }
}

/// Writing a parsed colour back gives the input in lower case, with a `#`.
pub proof fn lemma_hex_canonical(s: Seq<char>)
    requires
        parse_hex_colour(s) is Some,
    ensures
        hex_colour(parse_hex_colour(s).unwrap()) == seq!['#'] + hex_body(s).map_values(
            |ch: char| ascii_lower(ch),
        ),
{
    let t = hex_body(s);
    let c = parse_hex_colour(s).unwrap();
    let lowered = t.map_values(|ch: char| ascii_lower(ch));
    assert(hex_value(t[0]) is Some);
    assert(hex_value(t[1]) is Some);
    assert(hex_value(t[2]) is Some);
    assert(hex_value(t[3]) is Some);
    assert(hex_value(t[4]) is Some);
    assert(hex_value(t[5]) is Some);
    lemma_digit_canonical(t[0]);
    lemma_digit_canonical(t[1]);
    lemma_digit_canonical(t[2]);
    lemma_digit_canonical(t[3]);
    lemma_digit_canonical(t[4]);
    lemma_digit_canonical(t[5]);
    lemma_pair(t[0], t[1]);
    lemma_pair(t[2], t[3]);
    lemma_pair(t[4], t[5]);
    assert(hex2(c.r) =~= seq![lowered[0], lowered[1]]);
    assert(hex2(c.g) =~= seq![lowered[2], lowered[3]]);
    assert(hex2(c.b) =~= seq![lowered[4], lowered[5]]);
    assert(hex_colour(c) =~= seq!['#'] + lowered);
}

proof fn lemma_pair(hi: char, lo: char)
    requires
        hex_value(hi) is Some,
        hex_value(lo) is Some,
    ensures
        hex_pair(hi, lo) / 16 == hex_value(hi).unwrap(),
        hex_pair(hi, lo) % 16 == hex_value(lo).unwrap(),
{
    lemma_digit_canonical(hi);
    lemma_digit_canonical(lo);
}

proof fn lemma_digit_canonical(c: char)
    requires
        hex_value(c) is Some,
    ensures
        hex_value(c).unwrap() < 16,
        crate::text::hex_digits()[hex_value(c).unwrap() as int] == ascii_lower(c),
{
    let u = c as u32;
    vstd::utf8::char_u32_cast(c, u);
    let l = ascii_lower(c);
    let d = crate::text::hex_digits();
    if '0' <= c && c <= '9' {
        assert(48 <= u <= 57);
        assert(l == c);
        assert(d[(u - 48) as int] as u32 == u);
        vstd::utf8::char_u32_cast(d[(u - 48) as int], u);
    } else if 'a' <= c && c <= 'f' {
        assert(97 <= u <= 102);
        assert(d[(u - 87) as int] as u32 == u);
        vstd::utf8::char_u32_cast(d[(u - 87) as int], u);
    } else {
        assert(65 <= u <= 70);
        let lu = (u + 32) as u32;
        vstd::utf8::char_u32_cast(l, lu);
        assert(d[(u - 55) as int] as u32 == lu);
        vstd::utf8::char_u32_cast(d[(u - 55) as int], lu);
    }
}

// ---------------------------------------------------------------------------
// Effects
// ---------------------------------------------------------------------------

/// The lighting effects the 4-zone firmware exposes, plus the host-rendered
/// colour flow (drawn by writing static frames).
#[derive(Clone, Copy, Debug, PartialEq, Eq, Structural, Hash)]
pub enum Effect {
    Off,
    Static,
    Breath,
    WaveLeft,
    WaveRight,
    RainbowLeft,
    RainbowRight,
    FlowLeft,
    FlowRight,
    Smooth,
}

impl Default for Effect {
    fn default() -> (e: Self)
        ensures
            e == Effect::Static,
    {
        Effect::Static
    }
}

/// Firmware effect code. Wave and rainbow share the wave engine (0x04);
/// host-rendered flow frames are static frames (0x01).
pub open spec fn effect_code(e: Effect) -> u8 {
    match e {
        Effect::Off => 0x00,
        Effect::Static | Effect::FlowLeft | Effect::FlowRight => 0x01,
        Effect::Breath => 0x03,
        Effect::WaveLeft | Effect::WaveRight | Effect::RainbowLeft | Effect::RainbowRight => 0x04,
        Effect::Smooth => 0x06,
    }
}

impl Effect {
    /// Raw firmware code for this effect (0 when `Off`).
    pub fn code(self) -> (c: u8)
        ensures
            c == effect_code(self),
    {
        match self {
            Effect::Off => 0x00,
            Effect::Static => 0x01,
            Effect::FlowLeft | Effect::FlowRight => 0x01,
            Effect::Breath => 0x03,
            Effect::WaveLeft | Effect::WaveRight | Effect::RainbowLeft | Effect::RainbowRight => {
                0x04
            },
            Effect::Smooth => 0x06,
        }
    }

    /// Does the firmware (or the host flow) read the user's zone colours?
    #[verifier::allow_in_spec]
    pub fn uses_zone_colors(self) -> bool
        returns
            self is Static || self is Breath || self is WaveLeft || self is WaveRight
                || self is FlowLeft || self is FlowRight,
    {
        match self {
            Effect::Static | Effect::Breath | Effect::WaveLeft | Effect::WaveRight
            | Effect::FlowLeft | Effect::FlowRight => true,
            _ => false,
        }
    }

    /// Does the packet carry zone-colour bytes for this effect at all?
    #[verifier::allow_in_spec]
    pub fn writes_zone_bytes(self) -> bool
        returns
            !(self is Off || self is Smooth),
    {
        match self {
            Effect::Off | Effect::Smooth => false,
            _ => true,
        }
    }

    /// Is this an animation whose speed matters?
    #[verifier::allow_in_spec]
    pub fn is_animated(self) -> bool
        returns
            !(self is Off || self is Static),
    {
        match self {
            Effect::Off | Effect::Static => false,
            _ => true,
        }
    }

    /// Is this a host-rendered effect that needs a continuous renderer?
    #[verifier::allow_in_spec]
    pub fn is_host_rendered(self) -> bool
        returns
            self is FlowLeft || self is FlowRight,
    {
        match self {
            Effect::FlowLeft | Effect::FlowRight => true,
            _ => false,
        }
    }

    /// Does this effect need a direction?
    #[verifier::allow_in_spec]
    pub fn needs_direction(self) -> bool
        returns
            self is WaveLeft || self is WaveRight || self is RainbowLeft || self is RainbowRight
                || self is FlowLeft || self is FlowRight,
    {
        match self {
            Effect::WaveLeft | Effect::WaveRight | Effect::RainbowLeft | Effect::RainbowRight
            | Effect::FlowLeft | Effect::FlowRight => true,
            _ => false,
        }
    }

    /// The kebab-case name used in files and on the command line.
    pub fn name(self) -> (s: &'static str)
        ensures
            s@ == effect_name(self),
    {
        proof {
            reveal_strlit("off");
            reveal_strlit("static");
            reveal_strlit("breath");
            reveal_strlit("wave-left");
            reveal_strlit("wave-right");
            reveal_strlit("rainbow-left");
            reveal_strlit("rainbow-right");
            reveal_strlit("flow-left");
            reveal_strlit("flow-right");
            reveal_strlit("smooth");
        }
        match self {
            Effect::Off => "off",
            Effect::Static => "static",
            Effect::Breath => "breath",
            Effect::WaveLeft => "wave-left",
            Effect::WaveRight => "wave-right",
            Effect::RainbowLeft => "rainbow-left",
            Effect::RainbowRight => "rainbow-right",
            Effect::FlowLeft => "flow-left",
            Effect::FlowRight => "flow-right",
            Effect::Smooth => "smooth",
        }
    }
}

/// Kebab-case names of the effects.
pub open spec fn effect_name(e: Effect) -> Seq<char> {
    match e {
        Effect::Off => "off"@,
        Effect::Static => "static"@,
        Effect::Breath => "breath"@,
        Effect::WaveLeft => "wave-left"@,
        Effect::WaveRight => "wave-right"@,
        Effect::RainbowLeft => "rainbow-left"@,
        Effect::RainbowRight => "rainbow-right"@,
        Effect::FlowLeft => "flow-left"@,
        Effect::FlowRight => "flow-right"@,
        Effect::Smooth => "smooth"@,
    }
}

/// The four colours of the full-spectrum palette: hues 0°, 90°, 180° and
/// 270° at full saturation and value.
pub open spec fn rainbow_palette() -> Seq<Rgb> {
    seq![
        Rgb { r: 255, g: 0, b: 0 },
        Rgb { r: 128, g: 255, b: 0 },
        Rgb { r: 0, g: 255, b: 255 },
        Rgb { r: 128, g: 0, b: 255 },
    ]
}

/// A rainbow palette: hues evenly spread around the wheel (red →
/// yellow-green → cyan → violet-blue).
pub fn rainbow_zones() -> (z: [Rgb; ZONE_COUNT])
    ensures
        z@ == rainbow_palette(),
{
    let z = [
        Rgb { r: 255, g: 0, b: 0 },
        Rgb { r: 128, g: 255, b: 0 },
        Rgb { r: 0, g: 255, b: 255 },
        Rgb { r: 128, g: 0, b: 255 },
    ];
    assert(z@ =~= rainbow_palette());
    z
}

// ---------------------------------------------------------------------------
// Config
// ---------------------------------------------------------------------------

/// The complete lighting state the hardware can hold: one global effect,
/// speed, brightness and four zone colours.
#[derive(Clone, Copy, Debug)]
pub struct LightingConfig {
    pub effect: Effect,
    pub speed: u8,
    pub brightness: u8,
    pub zones: [Rgb; ZONE_COUNT],
}

impl PartialEq for LightingConfig {
    fn eq(&self, other: &Self) -> (r: bool) {
        let r = self.effect == other.effect && self.speed == other.speed && self.brightness
            == other.brightness && zones_equal(&self.zones, &other.zones);
        proof {
            if r {
                assert(self.zones =~= other.zones);
            }
        }
        r
    }
}

impl vstd::std_specs::cmp::PartialEqSpecImpl for LightingConfig {
    open spec fn obeys_eq_spec() -> bool {
        true
    }

    open spec fn eq_spec(&self, other: &Self) -> bool {
        *self == *other
    }
}

impl Eq for LightingConfig {

}

/// Are two zone arrays equal colour by colour?
pub fn zones_equal(a: &[Rgb; ZONE_COUNT], b: &[Rgb; ZONE_COUNT]) -> (r: bool)
    ensures
        r == (*a == *b),
{
    let r = a[0] == b[0] && a[1] == b[1] && a[2] == b[2] && a[3] == b[3];
    proof {
        if r {
            assert(*a =~= *b);
        }
    }
    r
}

/// Clamp `v` into `lo..=hi`.
pub open spec fn clamp(v: u8, lo: u8, hi: u8) -> u8 {
    if v < lo {
        lo
    } else if v > hi {
        hi
    } else {
        v
    }
}

impl LightingConfig {
    /// The config with every field in the firmware-valid range: speed
    /// clamped to 1..=4 and brightness to 1..=2, except that `Off` forces
    /// speed 1 and brightness 0. Zone colours are always kept.
    pub open spec fn normal_form(self) -> LightingConfig {
        if self.effect is Off {
            LightingConfig { speed: 1, brightness: 0, ..self }
        } else {
            LightingConfig {
                speed: clamp(self.speed, SPEED_MIN, SPEED_MAX),
                brightness: clamp(self.brightness, BRIGHTNESS_MIN, BRIGHTNESS_MAX),
                ..self
            }
        }
    }

    /// Every field is in the range the firmware accepts.
    pub open spec fn is_valid(self) -> bool {
        if self.effect is Off {
            self.speed == 1 && self.brightness == 0
        } else {
            SPEED_MIN <= self.speed <= SPEED_MAX && BRIGHTNESS_MIN <= self.brightness
                <= BRIGHTNESS_MAX
        }
    }

    /// Clamp every field into the firmware-valid range.
    pub fn normalized(self) -> (n: Self)
        ensures
            n == self.normal_form(),
    {
        let mut out = self;
        out.speed = if self.speed < SPEED_MIN {
            SPEED_MIN
        } else if self.speed > SPEED_MAX {
            SPEED_MAX
        } else {
            self.speed
        };
        match self.effect {
            Effect::Off => {
                out.brightness = 0;
                out.speed = 1;
            },
            _ => {
                out.brightness = if self.brightness < BRIGHTNESS_MIN {
                    BRIGHTNESS_MIN
                } else if self.brightness > BRIGHTNESS_MAX {
                    BRIGHTNESS_MAX
                } else {
                    self.brightness
                };
            },
        }
        out
    }

    pub fn is_off(&self) -> (r: bool)
        ensures
            r == (self.effect is Off),
    {
        match self.effect {
            Effect::Off => true,
            _ => false,
        }
    }
}

impl Default for LightingConfig {
    fn default() -> (c: Self)
        ensures
            c == default_lighting(),
    {
        let w = Rgb::white();
        LightingConfig { effect: Effect::Static, speed: 2, brightness: 2, zones: [w, w, w, w] }
    }
}

/// Static white at speed 2, brightness 2.
pub open spec fn default_lighting() -> LightingConfig {
    LightingConfig {
        effect: Effect::Static,
        speed: 2,
        brightness: 2,
        zones: [white_spec(), white_spec(), white_spec(), white_spec()],
    }
}

/// `#ffffff`.
pub open spec fn white_spec() -> Rgb {
    Rgb { r: 255, g: 255, b: 255 }
}

/// Normalising yields a valid config, and a valid config is its own normal
/// form, so normalising twice changes nothing.
pub proof fn lemma_normal_form(cfg: LightingConfig)
    ensures
        cfg.normal_form().is_valid(),
        cfg.normal_form().normal_form() == cfg.normal_form(),
        cfg.is_valid() ==> cfg.normal_form() == cfg,
        cfg.normal_form().zones == cfg.zones,
        cfg.normal_form().effect == cfg.effect,
{
}

// ---------------------------------------------------------------------------
// Device state readback
// ---------------------------------------------------------------------------

/// The effect the controller reports; unknown codes are kept, not guessed.
#[derive(Clone, Copy, Debug, PartialEq, Eq, Structural)]
pub enum LiveEffect {
    Known(Effect),
    Unknown(u8),
}

/// What the controller reports through the GET feature report.
#[derive(Clone, Copy, Debug)]
pub struct DeviceState {
    pub effect: LiveEffect,
    pub speed: u8,
    pub brightness: u8,
    pub zones: [Rgb; ZONE_COUNT],
    /// Raw wave flag bytes, preserved for diagnostics.
    pub flag_right: bool,
    pub flag_left: bool,
}

impl PartialEq for DeviceState {
    fn eq(&self, other: &Self) -> (r: bool) {
        let r = self.effect == other.effect && self.speed == other.speed && self.brightness
            == other.brightness && zones_equal(&self.zones, &other.zones) && self.flag_right
            == other.flag_right && self.flag_left == other.flag_left;
        proof {
            if r {
                assert(self.zones =~= other.zones);
            }
        }
        r
    }
}

impl vstd::std_specs::cmp::PartialEqSpecImpl for DeviceState {
    open spec fn obeys_eq_spec() -> bool {
        true
    }

    open spec fn eq_spec(&self, other: &Self) -> bool {
        *self == *other
    }
}

impl Eq for DeviceState {

}

} // verus!

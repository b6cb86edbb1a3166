//! The CC/16 feature-report packet of the ITE 4-zone RGB keyboard
//! controller (048d:c993 / "ITE Device(8295)").
//!
//! Layout (33 bytes, report ID `0xCC` included as byte 0):
//!
//! ```text
//! [0]  0xCC          report ID
//! [1]  0x16          magic
//! [2]  effect        (see `Effect::code`)
//! [3]  speed         1..=4
//! [4]  brightness    1..=2 (0 only with effect 0 = off)
//! [5..16]  zone1..4 RGB, 3 bytes each
//! [17] reserved (0)
//! [18] wave flag: sweeps right
//! [19] wave flag: sweeps left
//! [20..32] zero padding
//! ```

use vstd::prelude::*;

use crate::error::Error;
use crate::flow::{rest_frame, rest_frame_zones};
use crate::model::{
    effect_code, rainbow_palette, rainbow_zones, DeviceState, Effect, LightingConfig, LiveEffect,
    Rgb, ZONE_COUNT,
};
use crate::text::{decimal, push_decimal, push_str};

verus! {

pub const REPORT_ID: u8 = 0xCC;

pub const MAGIC: u8 = 0x16;

pub const PACKET_LEN: usize = 33;

pub const IDX_EFFECT: usize = 2;

pub const IDX_SPEED: usize = 3;

pub const IDX_BRIGHTNESS: usize = 4;

/// First of 12 consecutive zone-colour bytes.
pub const IDX_ZONES: usize = 5;

pub const IDX_RESERVED: usize = 17;

/// Wave flag byte: set for the wave that sweeps right.
pub const IDX_WAVE_RIGHT: usize = 18;

/// Wave flag byte: set for the wave that sweeps left.
pub const IDX_WAVE_LEFT: usize = 19;

/// Low brightness is emulated by scaling colour bytes by 3/5 (0.6), since
/// the verified firmware ignores the brightness byte.
pub const DIM_NUMERATOR: u8 = 3;

pub const DIM_DENOMINATOR: u8 = 5;

// ---------------------------------------------------------------------------
// Specification
// ---------------------------------------------------------------------------

/// `c · 3/5` rounded to the nearest integer (never a tie: 3c/5 has a
/// fractional part of 0, .2, .4, .6 or .8).
pub open spec fn scaled(c: u8) -> u8 {
    ((3 * c + 2) / 5) as u8
}

/// A colour at Low brightness.
pub open spec fn dimmed(c: Rgb) -> Rgb {
    Rgb { r: scaled(c.r), g: scaled(c.g), b: scaled(c.b) }
}

/// Every colour of a palette dimmed.
pub open spec fn dim_all(z: Seq<Rgb>) -> Seq<Rgb> {
    z.map_values(|c: Rgb| dimmed(c))
}

/// Channel `k` (0 = red, 1 = green, 2 = blue) of a colour.
pub open spec fn channel(c: Rgb, k: int) -> u8 {
    if k == 0 {
        c.r
    } else if k == 1 {
        c.g
    } else {
        c.b
    }
}

/// The 12 zone-colour bytes: R, G, B of zone 1, then zone 2, …
pub open spec fn zone_byte_seq(z: Seq<Rgb>) -> Seq<u8> {
    Seq::new(12, |i: int| channel(z[i / 3], i % 3))
}

/// User zone colours, dimmed at Low brightness for effects that write them.
pub open spec fn effective_palette(cfg: LightingConfig) -> Seq<Rgb> {
    if cfg.brightness == 1 && cfg.effect.writes_zone_bytes() {
        dim_all(cfg.zones@)
    } else {
        cfg.zones@
    }
}

/// The colours actually written to the LEDs for a config.
pub open spec fn led_palette(cfg: LightingConfig) -> Seq<Rgb> {
    let base = match cfg.effect {
        Effect::RainbowLeft | Effect::RainbowRight => rainbow_palette(),
        _ => rest_frame(cfg),
    };
    match cfg.effect {
        Effect::RainbowLeft | Effect::RainbowRight | Effect::FlowLeft | Effect::FlowRight => {
            if cfg.brightness == 1 {
                dim_all(base)
            } else {
                base
            }
        },
        _ => effective_palette(cfg),
    }
}

/// A colour wave at full or medium brightness writes the user's four
/// colours to the LEDs whenever some zone differs from the first, and the
/// spectrum (red, yellow-green, cyan, violet-blue) only when all four are
/// the same.
pub proof fn lemma_flow_leds_follow_zones(cfg: LightingConfig)
    requires
        cfg.effect is FlowLeft || cfg.effect is FlowRight,
        cfg.brightness != 1,
    ensures
        crate::flow::some_zone_differs(cfg) ==> led_palette(cfg) == cfg.zones@,
        !crate::flow::some_zone_differs(cfg) ==> led_palette(cfg) == seq![
            Rgb { r: 0xff, g: 0x00, b: 0x00 },
            Rgb { r: 0x80, g: 0xff, b: 0x00 },
            Rgb { r: 0x00, g: 0xff, b: 0xff },
            Rgb { r: 0x80, g: 0x00, b: 0xff },
        ],
{
    crate::flow::lemma_palette_exactly_when_zones_differ(cfg);
}

/// Is the right-sweep flag set for this effect?
pub open spec fn sweeps_right(e: Effect) -> bool {
    e is WaveRight || e is RainbowRight
}

/// Is the left-sweep flag set for this effect?
pub open spec fn sweeps_left(e: Effect) -> bool {
    e is WaveLeft || e is RainbowLeft
}

/// The 33 bytes `build_packet` produces for a config.
pub open spec fn packet_bytes(cfg: LightingConfig) -> Seq<u8> {
    let n = cfg.normal_form();
    let zb = zone_byte_seq(led_palette(n));
    Seq::new(
        33,
        |i: int|
            if i == 0 {
                REPORT_ID
            } else if i == 1 {
                MAGIC
            } else if i == 2 {
                effect_code(n.effect)
            } else if i == 3 {
                n.speed
            } else if i == 4 {
                n.brightness
            } else if 5 <= i < 17 {
                if n.effect.writes_zone_bytes() {
                    zb[i - 5]
                } else {
                    0
                }
            } else if i == 18 {
                if sweeps_right(n.effect) {
                    1
                } else {
                    0
                }
            } else if i == 19 {
                if sweeps_left(n.effect) {
                    1
                } else {
                    0
                }
            } else {
                0
            },
    )
}

/// How a code read back from the controller is interpreted.
pub open spec fn live_effect(code: u8, flag_right: bool, flag_left: bool) -> LiveEffect {
    if code == 0x00 {
        LiveEffect::Known(Effect::Off)
    } else if code == 0x01 {
        LiveEffect::Known(Effect::Static)
    } else if code == 0x03 {
        LiveEffect::Known(Effect::Breath)
    } else if code == 0x04 && flag_right {
        LiveEffect::Known(Effect::WaveRight)
    } else if code == 0x04 && flag_left {
        LiveEffect::Known(Effect::WaveLeft)
    } else if code == 0x06 {
        LiveEffect::Known(Effect::Smooth)
    } else {
        LiveEffect::Unknown(code)
    }
}

/// Does a buffer look like a CC/16 state report?
pub open spec fn is_state_report(buf: Seq<u8>) -> bool {
    buf.len() >= 33 && buf[0] == REPORT_ID && buf[1] == MAGIC
}

/// The colour stored at zone `i` of a state report.
pub open spec fn report_zone(buf: Seq<u8>, i: int) -> Rgb {
    Rgb { r: buf[5 + 3 * i], g: buf[6 + 3 * i], b: buf[7 + 3 * i] }
}

/// The device state a valid report describes.
pub open spec fn report_state(buf: Seq<u8>) -> DeviceState {
    DeviceState {
        effect: live_effect(buf[2], buf[18] != 0, buf[19] != 0),
        speed: buf[3],
        brightness: buf[4],
        zones: [report_zone(buf, 0), report_zone(buf, 1), report_zone(buf, 2), report_zone(buf, 3)],
        flag_right: buf[18] != 0,
        flag_left: buf[19] != 0,
    }
}

// ---------------------------------------------------------------------------
// Implementation
// ---------------------------------------------------------------------------

/// The zone colours as the 12 bytes the packet carries.
fn zone_bytes(zones: &[Rgb; ZONE_COUNT]) -> (out: [u8; 12])
    ensures
        out@ == zone_byte_seq(zones@),
{
    let mut out = [0u8; 12];
    let mut i: usize = 0;
    while i < 4
        invariant
            i <= 4,
            forall|k: int| 0 <= k < 3 * i ==> out@[k] == #[trigger] zone_byte_seq(zones@)[k],
        decreases 4 - i,
    {
        let z = zones[i];
        out[3 * i] = z.r;
        out[3 * i + 1] = z.g;
        out[3 * i + 2] = z.b;
        proof {
            assert(zone_byte_seq(zones@)[3 * i as int] == z.r);
            assert(zone_byte_seq(zones@)[3 * i + 1] == z.g);
            assert(zone_byte_seq(zones@)[3 * i + 2] == z.b);
        }
        i = i + 1;
    }
    assert(out@ =~= zone_byte_seq(zones@));
    out
}

/// One colour byte at Low brightness: `round(c · 0.6)`.
fn scale(c: u8) -> (s: u8)
    ensures
        s == scaled(c),
        5 * s <= 3 * c + 2 < 5 * s + 5,
{
    ((3 * (c as u16) + 2) / 5) as u8
}

/// A colour at Low brightness.
fn dim_rgb(c: Rgb) -> (d: Rgb)
    ensures
        d == dimmed(c),
{
    Rgb::new(scale(c.r), scale(c.g), scale(c.b))
}

fn dim_zones(z: [Rgb; ZONE_COUNT]) -> (d: [Rgb; ZONE_COUNT])
    ensures
        d@ == dim_all(z@),
{
    let d = [dim_rgb(z[0]), dim_rgb(z[1]), dim_rgb(z[2]), dim_rgb(z[3])];
    assert(d@ =~= dim_all(z@));
    d
}

/// Automatic rainbow palette for the rainbow wave effects.
pub fn auto_rainbow_palette() -> (z: [Rgb; ZONE_COUNT])
    ensures
        z@ == rainbow_palette(),
{
    rainbow_zones()
}

/// The colour bytes actually written to the LEDs for a config: dimmed user
/// colours for static/breath/palette waves, the (dimmed) rainbow palette for
/// rainbow waves, the (dimmed) resting wave frame for the colour flow, and
/// untouched zone colours for smooth/off.
pub fn led_zones(cfg: &LightingConfig) -> (z: [Rgb; ZONE_COUNT])
    ensures
        z@ == led_palette(*cfg),
{
    let base = match cfg.effect {
        Effect::RainbowLeft | Effect::RainbowRight => auto_rainbow_palette(),
        Effect::FlowLeft | Effect::FlowRight => rest_frame_zones(cfg),
        _ => return effective_zones(cfg),
    };
    if cfg.brightness == 1 {
        dim_zones(base)
    } else {
        base
    }
}

/// User zone colours with Low-brightness dimming applied.
pub fn effective_zones(cfg: &LightingConfig) -> (z: [Rgb; ZONE_COUNT])
    ensures
        z@ == effective_palette(*cfg),
{
    if cfg.brightness == 1 && cfg.effect.writes_zone_bytes() {
        dim_zones(cfg.zones)
    } else {
        cfg.zones
    }
}

/// Serialise a lighting config into the hardware packet.
pub fn build_packet(cfg: &LightingConfig) -> (p: [u8; PACKET_LEN])
    ensures
        p@ == packet_bytes(*cfg),
{
    let n = cfg.normalized();
    let mut p = [0u8; PACKET_LEN];
    p[0] = REPORT_ID;
    p[1] = MAGIC;
    p[IDX_EFFECT] = n.effect.code();
    p[IDX_SPEED] = n.speed;
    p[IDX_BRIGHTNESS] = n.brightness;
    let ghost zb = zone_byte_seq(led_palette(n));
    if n.effect.writes_zone_bytes() {
        let bytes = zone_bytes(&led_zones(&n));
        let mut k: usize = 0;
        while k < 12
            invariant
                k <= 12,
                bytes@ == zb,
                p@.len() == 33,
                p@[0] == REPORT_ID,
                p@[1] == MAGIC,
                p@[2] == effect_code(n.effect),
                p@[3] == n.speed,
                p@[4] == n.brightness,
                forall|i: int| 5 <= i < 5 + k ==> p@[i] == zb[i - 5],
                forall|i: int| 5 + k <= i < 33 ==> p@[i] == 0,
            decreases 12 - k,
        {
            p[IDX_ZONES + k] = bytes[k];
            k = k + 1;
        }
    }
    match n.effect {
        Effect::WaveRight | Effect::RainbowRight => {
            p[IDX_WAVE_RIGHT] = 1;
        },
        Effect::WaveLeft | Effect::RainbowLeft => {
            p[IDX_WAVE_LEFT] = 1;
        },
        _ => {},
    }
    assert(p@ =~= packet_bytes(*cfg));
    p
}

fn effect_from_code(code: u8, flag_right: bool, flag_left: bool) -> (e: LiveEffect)
    ensures
        e == live_effect(code, flag_right, flag_left),
{
    if code == 0x00 {
        LiveEffect::Known(Effect::Off)
    } else if code == 0x01 {
        LiveEffect::Known(Effect::Static)
    } else if code == 0x03 {
        LiveEffect::Known(Effect::Breath)
    } else if code == 0x04 && flag_right {
        LiveEffect::Known(Effect::WaveRight)
    } else if code == 0x04 && flag_left {
        LiveEffect::Known(Effect::WaveLeft)
    } else if code == 0x06 {
        LiveEffect::Known(Effect::Smooth)
    } else {
        LiveEffect::Unknown(code)
    }
}

/// Parse a GET feature-report response (report ID at index 0) back into a
/// device state. Unknown effect codes are preserved, not guessed.
pub fn parse_state(buf: &[u8]) -> (st: Option<DeviceState>)
    ensures
        st is None <==> !is_state_report(buf@),
        st matches Some(s) ==> s == report_state(buf@),
{
    if buf.len() < PACKET_LEN || buf[0] != REPORT_ID || buf[1] != MAGIC {
        return None;
    }
    let mut zones = [Rgb::black(), Rgb::black(), Rgb::black(), Rgb::black()];
    let mut i: usize = 0;
    while i < 4
        invariant
            i <= 4,
            buf@.len() >= 33,
            forall|k: int| 0 <= k < i ==> zones[k] == report_zone(buf@, k),
        decreases 4 - i,
    {
        zones[i] = Rgb::new(buf[IDX_ZONES + i * 3], buf[IDX_ZONES + i * 3 + 1], buf[IDX_ZONES + i * 3 + 2]);
        i = i + 1;
    }
    let flag_right = buf[IDX_WAVE_RIGHT] != 0;
    let flag_left = buf[IDX_WAVE_LEFT] != 0;
    let st = DeviceState {
        effect: effect_from_code(buf[IDX_EFFECT], flag_right, flag_left),
        speed: buf[IDX_SPEED],
        brightness: buf[IDX_BRIGHTNESS],
        zones,
        flag_right,
        flag_left,
    };
    assert(st.zones =~= report_state(buf@).zones);
    Some(st)
}

/// The readback error message for a report of `n` bytes that carries no
/// lighting state.
pub open spec fn short_report_message(n: nat) -> Seq<char> {
    "this controller answers the CC report with "@ + decimal(n) + SHORT_REPORT_TAIL@
}

pub const SHORT_REPORT_TAIL: &'static str =
    " bytes of identity data, not lighting state — state readback is not available on this unit; the app tracks the last applied configuration instead";

pub const UNPARSED_REPORT: &'static str = "feature report did not parse as CC/16 state";

/// Interpret the answer to a GET feature report of which `n` bytes were
/// filled: a short answer is identity data (readback unsupported), a full
/// one must parse as a state report.
pub fn interpret_state_report(buf: &[u8], n: usize) -> (r: Result<DeviceState, Error>)
    ensures
        n < PACKET_LEN ==> (r matches Err(Error::Unsupported(m)) && m@ == short_report_message(
            n as nat,
        )),
        n >= PACKET_LEN && is_state_report(buf@) ==> r == Ok::<DeviceState, Error>(
            report_state(buf@),
        ),
        n >= PACKET_LEN && !is_state_report(buf@) ==> (r matches Err(Error::Protocol(m)) && m@
            == UNPARSED_REPORT@),
{
    if n < PACKET_LEN {
        let mut m = String::new();
        push_str(&mut m, "this controller answers the CC report with ");
        push_decimal(&mut m, n as u64);
        push_str(&mut m, SHORT_REPORT_TAIL);
        assert(m@ =~= short_report_message(n as nat));
        return Err(Error::Unsupported(m));
    }
    match parse_state(buf) {
        Some(st) => Ok(st),
        None => Err(Error::Protocol(String::from_str(UNPARSED_REPORT))),
    }
}

// ---------------------------------------------------------------------------
// Laws
// ---------------------------------------------------------------------------

/// The effect a readback reports after a packet for `e` was sent: rainbow
/// waves are byte-identical to palette waves, and host-rendered flow frames
/// are static frames.
pub open spec fn readback_effect(e: Effect) -> Effect {
    match e {
        Effect::RainbowLeft => Effect::WaveLeft,
        Effect::RainbowRight => Effect::WaveRight,
        Effect::FlowLeft | Effect::FlowRight => Effect::Static,
        _ => e,
    }
}

/// Every packet is a well-formed state report, and reading it back gives
/// the normalised speed and brightness, the effect as the firmware sees it,
/// the LED colours that were sent (black where none are sent) and the
/// direction flags.
pub proof fn lemma_parse_build_round_trip(cfg: LightingConfig)
    ensures
        is_state_report(packet_bytes(cfg)),
        ({
            let n = cfg.normal_form();
            let st = report_state(packet_bytes(cfg));
            &&& st.effect == LiveEffect::Known(readback_effect(cfg.effect))
            &&& st.speed == n.speed
            &&& st.brightness == n.brightness
            &&& st.flag_right == sweeps_right(cfg.effect)
            &&& st.flag_left == sweeps_left(cfg.effect)
            &&& n.effect.writes_zone_bytes() ==> st.zones@ == led_palette(n)
            &&& !n.effect.writes_zone_bytes() ==> st.zones@ == seq![
                Rgb { r: 0, g: 0, b: 0 },
                Rgb { r: 0, g: 0, b: 0 },
                Rgb { r: 0, g: 0, b: 0 },
                Rgb { r: 0, g: 0, b: 0 },
            ]
        }),
{
    let n = cfg.normal_form();
    let p = packet_bytes(cfg);
    let st = report_state(p);
    let lp = led_palette(n);
    assert(lp.len() == 4) by {
        if n.effect is RainbowLeft || n.effect is RainbowRight {
        } else if n.effect is FlowLeft || n.effect is FlowRight {
        } else {
        }
    }
    if n.effect.writes_zone_bytes() {
        assert forall|i: int| 0 <= i < 4 implies #[trigger] report_zone(p, i) == lp[i] by {
            assert(p[5 + 3 * i] == zone_byte_seq(lp)[3 * i]);
            assert(p[6 + 3 * i] == zone_byte_seq(lp)[3 * i + 1]);
            assert(p[7 + 3 * i] == zone_byte_seq(lp)[3 * i + 2]);
        }
        assert(st.zones@ =~= lp);
    } else {
        assert(st.zones@ =~= seq![
            Rgb { r: 0, g: 0, b: 0 },
            Rgb { r: 0, g: 0, b: 0 },
            Rgb { r: 0, g: 0, b: 0 },
            Rgb { r: 0, g: 0, b: 0 },
        ]);
    }
}

/// The effect byte of a packet is the (normalised) effect's firmware code:
/// one global effect, whatever the zones hold.
pub proof fn lemma_single_effect_byte(cfg: LightingConfig)
    ensures
        packet_bytes(cfg).len() == PACKET_LEN,
        packet_bytes(cfg)[IDX_EFFECT as int] == effect_code(cfg.effect),
        packet_bytes(cfg)[IDX_RESERVED as int] == 0,
{
}

/// Two configs that differ only in one zone's colour produce packets that
/// differ at most in that zone's three bytes: changing one zone never
/// touches the others. (The colour wave is the exception: whether its four
/// colours are a palette or the spectrum depends on all of them.)
pub proof fn lemma_zone_isolation(a: LightingConfig, b: LightingConfig, zone: int)
    requires
        0 <= zone < 4,
        a.effect == b.effect,
        a.speed == b.speed,
        a.brightness == b.brightness,
        forall|i: int| 0 <= i < 4 && i != zone ==> a.zones[i] == b.zones[i],
        !(a.effect is FlowLeft || a.effect is FlowRight),
    ensures
        forall|i: int|
            0 <= i < 33 && !(5 + 3 * zone <= i < 8 + 3 * zone) ==> packet_bytes(a)[i]
                == packet_bytes(b)[i],
{
    let na = a.normal_form();
    let nb = b.normal_form();
    let la = led_palette(na);
    let lb = led_palette(nb);
    assert forall|i: int| 0 <= i < 4 && i != zone implies la[i] == lb[i] by {
        assert(na.zones[i] == nb.zones[i]);
    }
    assert forall|i: int|
        0 <= i < 33 && !(5 + 3 * zone <= i < 8 + 3 * zone) implies packet_bytes(a)[i]
        == packet_bytes(b)[i] by {
        if 5 <= i < 17 {
            let k = i - 5;
            assert(k / 3 != zone);
            assert(zone_byte_seq(la)[k] == channel(la[k / 3], k % 3));
            assert(zone_byte_seq(lb)[k] == channel(lb[k / 3], k % 3));
        }
    }
}

} // verus!

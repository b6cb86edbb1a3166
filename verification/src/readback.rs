//! Comparing what the controller reports with what was applied, and the
//! one-line description of a readback shown in the UI.

use vstd::prelude::*;

use crate::effects::{effect_label, info};
use crate::model::{hex_colour, DeviceState, Effect, LightingConfig, LiveEffect, Rgb};
use crate::packet::{
    is_state_report, led_palette, led_zones, lemma_parse_build_round_trip, packet_bytes,
    readback_effect, report_state,
};
use crate::text::{decimal, hex2, push_decimal, push_hex2, push_str};

verus! {

/// Does a reported effect agree with the configured one? A host-rendered
/// wave writes static frames, so a readback during a wave reports Static.
pub open spec fn effect_agrees(live: LiveEffect, configured: Effect) -> bool {
    match live {
        LiveEffect::Known(e) => e == configured || (configured.is_host_rendered() && e
            is Static),
        LiveEffect::Unknown(_) => false,
    }
}

/// Does the reported state agree with a config: effect, speed, brightness,
/// and — for effects that send colour bytes — the exact LED colours sent?
pub open spec fn state_agrees(state: DeviceState, cfg: LightingConfig) -> bool {
    &&& effect_agrees(state.effect, cfg.effect)
    &&& state.speed == cfg.speed
    &&& state.brightness == cfg.brightness
    &&& cfg.effect.writes_zone_bytes() ==> state.zones@ == led_palette(cfg)
}

/// Does the hardware report what `cfg` would have produced?
pub fn state_matches_config(state: &DeviceState, cfg: &LightingConfig) -> (b: bool)
    ensures
        b == state_agrees(*state, *cfg),
{
    let effect_matches = match state.effect {
        LiveEffect::Known(e) => e == cfg.effect || (cfg.effect.is_host_rendered() && e
            == Effect::Static),
        LiveEffect::Unknown(_) => false,
    };
    let colours_match = if cfg.effect.writes_zone_bytes() {
        let sent = led_zones(cfg);
        let same = state.zones[0] == sent[0] && state.zones[1] == sent[1] && state.zones[2]
            == sent[2] && state.zones[3] == sent[3];
        proof {
            if same {
                assert(state.zones@ =~= sent@);
            } else {
                assert(state.zones@ != sent@) by {
                    if state.zones@ == sent@ {
                        assert(state.zones@[0] == sent@[0]);
                        assert(state.zones@[1] == sent@[1]);
                        assert(state.zones@[2] == sent@[2]);
                        assert(state.zones@[3] == sent@[3]);
                    }
                }
            }
        }
        same
    } else {
        true
    };
    effect_matches && state.speed == cfg.speed && state.brightness == cfg.brightness
        && colours_match
}

/// A reported state agrees with a config exactly when it reports the same
/// effect (or Static while a host-rendered colour flow runs), the same
/// speed, the same brightness, and — unless the effect is Off or Smooth —
/// the very LED colours the config writes. A differing speed or brightness
/// therefore never agrees.
pub proof fn lemma_agreement_is_same_settings(state: DeviceState, cfg: LightingConfig)
    ensures
        state_agrees(state, cfg) <==> {
            &&& (state.effect == LiveEffect::Known(cfg.effect) || ((cfg.effect is FlowLeft
                || cfg.effect is FlowRight) && state.effect == LiveEffect::Known(Effect::Static)))
            &&& state.speed == cfg.speed
            &&& state.brightness == cfg.brightness
            &&& !(cfg.effect is Off || cfg.effect is Smooth) ==> state.zones@ == led_palette(cfg)
        },
{
}

/// A controller that holds exactly the packet built for a valid config
/// reads back as agreeing with it — except for the rainbow waves, which are
/// byte-identical to the palette waves and so honestly read back as those.
pub proof fn lemma_sent_packet_reads_back_as_agreeing(cfg: LightingConfig)
    requires
        cfg.is_valid(),
        !(cfg.effect is RainbowLeft || cfg.effect is RainbowRight),
    ensures
        is_state_report(packet_bytes(cfg)),
        state_agrees(report_state(packet_bytes(cfg)), cfg),
{
    lemma_parse_build_round_trip(cfg);
    crate::model::lemma_normal_form(cfg);
}

/// How a reported effect is named: its UI label, or its raw code.
pub open spec fn live_effect_text(live: LiveEffect) -> Seq<char> {
    match live {
        LiveEffect::Known(e) => effect_label(e),
        LiveEffect::Unknown(code) => "unknown effect (0x"@ + hex2(code) + ")"@,
    }
}

/// `<effect>, speed S, brightness B, zones [#z1 #z2 #z3 #z4]`.
pub open spec fn state_text(state: DeviceState) -> Seq<char> {
    live_effect_text(state.effect) + ", speed "@ + decimal(state.speed as nat) + ", brightness "@
        + decimal(state.brightness as nat) + ", zones ["@ + hex_colour(state.zones[0]) + " "@
        + hex_colour(state.zones[1]) + " "@ + hex_colour(state.zones[2]) + " "@ + hex_colour(
        state.zones[3],
    ) + "]"@
}

/// One-line description of a readback for the status bar.
pub fn describe_state(state: &DeviceState) -> (s: String)
    ensures
        s@ == state_text(*state),
{
    let mut s = String::new();
    match state.effect {
        LiveEffect::Known(e) => {
            push_str(&mut s, info(e).label);
        },
        LiveEffect::Unknown(code) => {
            push_str(&mut s, "unknown effect (0x");
            push_hex2(&mut s, code);
            push_str(&mut s, ")");
        },
    }
    push_str(&mut s, ", speed ");
    push_decimal(&mut s, state.speed as u64);
    push_str(&mut s, ", brightness ");
    push_decimal(&mut s, state.brightness as u64);
    push_str(&mut s, ", zones [");
    let z0 = state.zones[0].to_hex();
    push_str(&mut s, z0.as_str());
    push_str(&mut s, " ");
    let z1 = state.zones[1].to_hex();
    push_str(&mut s, z1.as_str());
    push_str(&mut s, " ");
    let z2 = state.zones[2].to_hex();
    push_str(&mut s, z2.as_str());
    push_str(&mut s, " ");
    let z3 = state.zones[3].to_hex();
    push_str(&mut s, z3.as_str());
    push_str(&mut s, "]");
    assert(s@ =~= state_text(*state));
    s
}

} // verus!

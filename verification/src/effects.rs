//! Effect policy: what the UI offers and why a control is unavailable. The
//! controller holds ONE global effect; there is no per-zone effect slot.

use vstd::prelude::*;

use crate::model::Effect;

verus! {

/// Why a control is unavailable — shown verbatim so no control ever
/// appears dead without a reason.
#[derive(Debug, Clone, Copy, PartialEq, Eq, Structural)]
pub enum UnsupportedReason {
    /// Per-zone effect mixing does not exist in the firmware.
    NoPerZoneEffects,
    /// This effect ignores the per-zone colour bytes.
    EffectIgnoresZoneColors,
    /// This effect has no direction.
    EffectHasNoDirection,
    /// Static/off have no animation speed.
    EffectHasNoSpeed,
}

pub const TEXT_NO_PER_ZONE_EFFECTS: &'static str =
    "The keyboard firmware applies ONE effect to the whole keyboard. Per-zone effects (e.g. breathing on zone 1, static on zone 2) are not possible on this hardware.";

pub const TEXT_IGNORES_ZONE_COLORS: &'static str =
    "This effect drives its own colours (a built-in firmware flow, an automatic rainbow palette, or the host-rendered full colour wheel) — the four zone colours you pick are not used.";

pub const TEXT_NO_DIRECTION: &'static str = "Only the wave and flow effects have a direction.";

pub const TEXT_NO_SPEED: &'static str =
    "This effect is not animated, so the speed setting does not apply.";

/// The explanation shown for each reason.
pub open spec fn reason_text(r: UnsupportedReason) -> Seq<char> {
    match r {
        UnsupportedReason::NoPerZoneEffects => TEXT_NO_PER_ZONE_EFFECTS@,
        UnsupportedReason::EffectIgnoresZoneColors => TEXT_IGNORES_ZONE_COLORS@,
        UnsupportedReason::EffectHasNoDirection => TEXT_NO_DIRECTION@,
        UnsupportedReason::EffectHasNoSpeed => TEXT_NO_SPEED@,
    }
}

impl UnsupportedReason {
    pub fn text(self) -> (t: &'static str)
        ensures
            t@ == reason_text(self),
    {
        match self {
            UnsupportedReason::NoPerZoneEffects => TEXT_NO_PER_ZONE_EFFECTS,
            UnsupportedReason::EffectIgnoresZoneColors => TEXT_IGNORES_ZONE_COLORS,
            UnsupportedReason::EffectHasNoDirection => TEXT_NO_DIRECTION,
            UnsupportedReason::EffectHasNoSpeed => TEXT_NO_SPEED,
        }
    }
}

/// An effect with the label and description the UI shows for it.
#[derive(Debug, Clone, Copy)]
pub struct EffectInfo {
    pub effect: Effect,
    pub label: &'static str,
    pub blurb: &'static str,
}

/// UI label of each effect.
pub open spec fn effect_label(e: Effect) -> Seq<char> {
    match e {
        Effect::Off => "Off"@,
        Effect::Static => "Static"@,
        Effect::Breath => "Breathing"@,
        Effect::WaveLeft => "Wave → left"@,
        Effect::WaveRight => "Wave → right"@,
        Effect::RainbowLeft => "Rainbow wave → left"@,
        Effect::RainbowRight => "Rainbow wave → right"@,
        Effect::FlowLeft => "Colour wave ←"@,
        Effect::FlowRight => "Colour wave →"@,
        Effect::Smooth => "Smooth flow"@,
    }
}

pub const BLURB_OFF: &'static str = "Turns the backlight completely off.";

pub const BLURB_STATIC: &'static str = "Four zone colours, held constant.";

pub const BLURB_BREATH: &'static str = "All four zone colours pulse in sync.";

pub const BLURB_WAVE_LEFT: &'static str =
    "Multicolour wave sweeping leftwards. The four zone colours form the wave's palette.";

pub const BLURB_WAVE_RIGHT: &'static str =
    "Multicolour wave sweeping rightwards. The four zone colours form the wave's palette.";

pub const BLURB_RAINBOW_LEFT: &'static str =
    "Full-spectrum wave sweeping leftwards with an automatic rainbow palette.";

pub const BLURB_RAINBOW_RIGHT: &'static str =
    "Full-spectrum wave sweeping rightwards with an automatic rainbow palette.";

pub const BLURB_FLOW_LEFT: &'static str =
    "HOST-RENDERED moving colour wave. Your zone colours are the blocks of the wave (full colour spectrum if all four are identical); they glide leftwards with smooth blends. Runs while the GUI or the listener daemon is active.";

pub const BLURB_FLOW_RIGHT: &'static str =
    "HOST-RENDERED moving colour wave. Your zone colours are the blocks of the wave (full colour spectrum if all four are identical); they glide rightwards with smooth blends. Runs while the GUI or the listener daemon is active.";

pub const BLURB_SMOOTH: &'static str = "Whole keyboard shifts smoothly through colours over time.";

/// UI description of each effect.
pub open spec fn effect_blurb(e: Effect) -> Seq<char> {
    match e {
        Effect::Off => BLURB_OFF@,
        Effect::Static => BLURB_STATIC@,
        Effect::Breath => BLURB_BREATH@,
        Effect::WaveLeft => BLURB_WAVE_LEFT@,
        Effect::WaveRight => BLURB_WAVE_RIGHT@,
        Effect::RainbowLeft => BLURB_RAINBOW_LEFT@,
        Effect::RainbowRight => BLURB_RAINBOW_RIGHT@,
        Effect::FlowLeft => BLURB_FLOW_LEFT@,
        Effect::FlowRight => BLURB_FLOW_RIGHT@,
        Effect::Smooth => BLURB_SMOOTH@,
    }
}

/// The effects in UI order.
pub open spec fn ui_order() -> Seq<Effect> {
    seq![
        Effect::Off,
        Effect::Static,
        Effect::Breath,
        Effect::WaveLeft,
        Effect::WaveRight,
        Effect::RainbowLeft,
        Effect::RainbowRight,
        Effect::FlowLeft,
        Effect::FlowRight,
        Effect::Smooth,
    ]
}

/// Does `i` describe `e` with its label and description?
pub open spec fn describes(i: EffectInfo, e: Effect) -> bool {
    i.effect == e && i.label@ == effect_label(e) && i.blurb@ == effect_blurb(e)
}

/// UI metadata for an effect.
pub fn info(effect: Effect) -> (i: EffectInfo)
    ensures
        describes(i, effect),
{
    proof {
        reveal_strlit("Off");
        reveal_strlit("Static");
        reveal_strlit("Breathing");
        reveal_strlit("Wave → left");
        reveal_strlit("Wave → right");
        reveal_strlit("Rainbow wave → left");
        reveal_strlit("Rainbow wave → right");
        reveal_strlit("Colour wave ←");
        reveal_strlit("Colour wave →");
        reveal_strlit("Smooth flow");
    }
    let (label, blurb) = match effect {
        Effect::Off => ("Off", BLURB_OFF),
        Effect::Static => ("Static", BLURB_STATIC),
        Effect::Breath => ("Breathing", BLURB_BREATH),
        Effect::WaveLeft => ("Wave → left", BLURB_WAVE_LEFT),
        Effect::WaveRight => ("Wave → right", BLURB_WAVE_RIGHT),
        Effect::RainbowLeft => ("Rainbow wave → left", BLURB_RAINBOW_LEFT),
        Effect::RainbowRight => ("Rainbow wave → right", BLURB_RAINBOW_RIGHT),
        Effect::FlowLeft => ("Colour wave ←", BLURB_FLOW_LEFT),
        Effect::FlowRight => ("Colour wave →", BLURB_FLOW_RIGHT),
        Effect::Smooth => ("Smooth flow", BLURB_SMOOTH),
    };
    EffectInfo { effect, label, blurb }
}

/// All effects offered, in UI order, with their labels. The single list
/// the GUI and CLI both enumerate.
pub fn all_effects() -> (list: Vec<EffectInfo>)
    ensures
        list@.len() == ui_order().len(),
        forall|k: int| 0 <= k < list@.len() ==> describes(#[trigger] list@[k], ui_order()[k]),
{
    let mut list: Vec<EffectInfo> = Vec::new();
    list.push(info(Effect::Off));
    list.push(info(Effect::Static));
    list.push(info(Effect::Breath));
    list.push(info(Effect::WaveLeft));
    list.push(info(Effect::WaveRight));
    list.push(info(Effect::RainbowLeft));
    list.push(info(Effect::RainbowRight));
    list.push(info(Effect::FlowLeft));
    list.push(info(Effect::FlowRight));
    list.push(info(Effect::Smooth));
    list
}

/// Every effect appears exactly once in the UI list.
pub proof fn lemma_every_effect_listed_once(e: Effect)
    ensures
        ui_order().contains(e),
        forall|i: int, j: int|
            0 <= i < j < ui_order().len() ==> #[trigger] ui_order()[i] != #[trigger] ui_order()[j],
{
    match e {
        Effect::Off => assert(ui_order()[0] == e),
        Effect::Static => assert(ui_order()[1] == e),
        Effect::Breath => assert(ui_order()[2] == e),
        Effect::WaveLeft => assert(ui_order()[3] == e),
        Effect::WaveRight => assert(ui_order()[4] == e),
        Effect::RainbowLeft => assert(ui_order()[5] == e),
        Effect::RainbowRight => assert(ui_order()[6] == e),
        Effect::FlowLeft => assert(ui_order()[7] == e),
        Effect::FlowRight => assert(ui_order()[8] == e),
        Effect::Smooth => assert(ui_order()[9] == e),
    }
}

/// No two effects share a UI label.
pub proof fn lemma_labels_unique(a: Effect, b: Effect)
    ensures
        a != b ==> effect_label(a) != effect_label(b),
{
    reveal_strlit("Off");
    reveal_strlit("Static");
    reveal_strlit("Breathing");
    reveal_strlit("Wave → left");
    reveal_strlit("Wave → right");
    reveal_strlit("Rainbow wave → left");
    reveal_strlit("Rainbow wave → right");
    reveal_strlit("Colour wave ←");
    reveal_strlit("Colour wave →");
    reveal_strlit("Smooth flow");
    if a != b {
        let la = effect_label(a);
        let lb = effect_label(b);
        if la.len() == lb.len() {
            assert(la[la.len() - 1] != lb[lb.len() - 1] || la[0] != lb[0] || la[7] != lb[7]);
        }
    }
}

/// May the user edit per-zone colours for this effect?
pub fn zone_colors_editable(effect: Effect) -> (b: bool)
    ensures
        b == effect.uses_zone_colors(),
{
    effect.uses_zone_colors()
}

/// If colours are not editable, why not?
pub fn zone_colors_disabled_reason(effect: Effect) -> (r: Option<UnsupportedReason>)
    ensures
        effect.uses_zone_colors() ==> r is None,
        !effect.uses_zone_colors() ==> r == Some(UnsupportedReason::EffectIgnoresZoneColors),
{
    if effect.uses_zone_colors() {
        None
    } else {
        Some(UnsupportedReason::EffectIgnoresZoneColors)
    }
}

} // verus!

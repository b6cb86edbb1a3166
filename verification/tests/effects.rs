use loq_rgb::effects::{
    all_effects, info, zone_colors_disabled_reason, zone_colors_editable, UnsupportedReason,
};
use loq_rgb::model::Effect;

#[test]
fn every_model_effect_is_present_exactly_once() {
    let mut seen: Vec<Effect> = all_effects().iter().map(|e| e.effect).collect();
    seen.sort_by_key(|e| e.code());
    seen.dedup();
    let all = [
        Effect::Off,
        Effect::Static,
        Effect::Breath,
        Effect::WaveLeft,
        Effect::WaveRight,
        Effect::RainbowLeft,
        Effect::RainbowRight,
        Effect::FlowLeft,
        Effect::FlowRight,
        Effect::Smooth,
    ];
    let mut all_sorted = all.to_vec();
    all_sorted.sort_by_key(|e| e.code());
    assert_eq!(seen, all_sorted);
}

#[test]
fn colour_editing_policy_matches_firmware() {
    for e in [
        Effect::Static,
        Effect::Breath,
        Effect::WaveLeft,
        Effect::WaveRight,
        Effect::FlowLeft,
        Effect::FlowRight,
    ] {
        assert!(zone_colors_editable(e), "{e:?}");
        assert_eq!(zone_colors_disabled_reason(e), None);
    }
    for e in [Effect::Off, Effect::RainbowLeft, Effect::RainbowRight, Effect::Smooth] {
        assert!(!zone_colors_editable(e), "{e:?}");
        assert_eq!(
            zone_colors_disabled_reason(e),
            Some(UnsupportedReason::EffectIgnoresZoneColors)
        );
    }
}

#[test]
fn mixing_limitation_is_stated() {
    let r = UnsupportedReason::NoPerZoneEffects;
    assert!(r.text().contains("ONE effect"));
    assert!(r.text().contains("not possible"));
}

#[test]
fn labels_are_unique() {
    let mut labels: Vec<&str> = all_effects().iter().map(|e| e.label).collect();
    let n = labels.len();
    labels.sort_unstable();
    labels.dedup();
    assert_eq!(labels.len(), n);
}

#[test]
fn info_matches_the_list_order() {
    let list = all_effects();
    assert_eq!(list.len(), 10);
    assert_eq!(list[0].effect, Effect::Off);
    assert_eq!(list[9].effect, Effect::Smooth);
    for e in &list {
        assert_eq!(info(e.effect).label, e.label);
        assert!(!e.blurb.is_empty());
    }
    assert_eq!(info(Effect::FlowLeft).label, "Colour wave ←");
    assert_eq!(info(Effect::Breath).label, "Breathing");
}

#[test]
fn every_reason_has_text() {
    for r in [
        UnsupportedReason::NoPerZoneEffects,
        UnsupportedReason::EffectIgnoresZoneColors,
        UnsupportedReason::EffectHasNoDirection,
        UnsupportedReason::EffectHasNoSpeed,
    ] {
        assert!(!r.text().is_empty());
    }
    assert_eq!(
        UnsupportedReason::EffectHasNoDirection.text(),
        "Only the wave and flow effects have a direction."
    );
}

//! The integer side of the host-rendered colour wave: which palette the wave
//! uses, and the frame it shows at its resting phase (phase 0), which is
//! what the packet builder and the readback comparison send and expect.

use vstd::prelude::*;

use crate::model::{rainbow_palette, rainbow_zones, LightingConfig, Rgb, ZONE_COUNT};

verus! {

/// The four zone colours are not all identical, so they act as the wave's
/// palette; identical zones (e.g. untouched white) mean "use the spectrum".
pub open spec fn palette_mode(cfg: LightingConfig) -> bool {
    !(cfg.zones[1] == cfg.zones[0] && cfg.zones[2] == cfg.zones[0] && cfg.zones[3]
        == cfg.zones[0])
}

/// Are the four zone colours distinct enough to act as the wave palette?
pub fn uses_palette(cfg: &LightingConfig) -> (r: bool)
    ensures
        r == palette_mode(*cfg),
{
    !(cfg.zones[1] == cfg.zones[0] && cfg.zones[2] == cfg.zones[0] && cfg.zones[3]
        == cfg.zones[0])
}

/// The wave frame at phase 0: palette mode shows each zone's own colour,
/// spectrum mode shows hues 0°/90°/180°/270°.
pub open spec fn rest_frame(cfg: LightingConfig) -> Seq<Rgb> {
    if palette_mode(cfg) {
        cfg.zones@
    } else {
        rainbow_palette()
    }
}

/// Some zone colour differs from the first zone's.
pub open spec fn some_zone_differs(cfg: LightingConfig) -> bool {
    exists|i: int| 1 <= i < ZONE_COUNT && #[trigger] cfg.zones[i] != cfg.zones[0]
}

/// The wave runs on the user's colours exactly when some zone differs from
/// the first, and then rests on those colours; only four identical zones
/// switch to the spectrum, whose resting frame is red, yellow-green, cyan
/// and violet-blue.
pub proof fn lemma_palette_exactly_when_zones_differ(cfg: LightingConfig)
    ensures
        palette_mode(cfg) <==> some_zone_differs(cfg),
        some_zone_differs(cfg) ==> rest_frame(cfg) == cfg.zones@,
        !some_zone_differs(cfg) ==> rest_frame(cfg) == seq![
            Rgb { r: 0xff, g: 0x00, b: 0x00 },
            Rgb { r: 0x80, g: 0xff, b: 0x00 },
            Rgb { r: 0x00, g: 0xff, b: 0xff },
            Rgb { r: 0x80, g: 0x00, b: 0xff },
        ],
{
    if palette_mode(cfg) {
        if cfg.zones[1] != cfg.zones[0] {
            assert(some_zone_differs(cfg));
        } else if cfg.zones[2] != cfg.zones[0] {
            assert(some_zone_differs(cfg));
        } else {
            assert(cfg.zones[3] != cfg.zones[0]);
            assert(some_zone_differs(cfg));
        }
    }
    assert(rainbow_palette() =~= seq![
        Rgb { r: 0xff, g: 0x00, b: 0x00 },
        Rgb { r: 0x80, g: 0xff, b: 0x00 },
        Rgb { r: 0x00, g: 0xff, b: 0xff },
        Rgb { r: 0x80, g: 0x00, b: 0xff },
    ]);
}

/// Zone colours of the wave frame at phase 0.
pub fn rest_frame_zones(cfg: &LightingConfig) -> (z: [Rgb; ZONE_COUNT])
    ensures
        z@ == rest_frame(*cfg),
{
    if uses_palette(cfg) {
        cfg.zones
    } else {
        rainbow_zones()
    }
}

} // verus!

//! Fn+Space profile cycling: saved profiles in name order, then the
//! reserved "Off" step, then back to the first profile.

use vstd::prelude::*;

use crate::config::{ensure_off_profile, with_off, AppConfig, ConfigStore, OFF_PROFILE};
use crate::error::Error;
use crate::profile_map::{lemma_filter_sorted, strictly_sorted};
use crate::profiles::{without, without_name};
use crate::text::{owned, str_eq};

verus! {

/// Key code produced by Fn+Space on this platform (`KEY_KBDILLUMUP`).
pub const FN_SPACE_CODE: u16 = 240;

/// Name of the input device that reports Fn+Space.
pub const IDEAPAD_BUTTONS_NAME: &'static str = "Ideapad extra buttons";

/// The cycle: every profile except "Off" in name order, then "Off".
pub open spec fn cycle_spec(cfg: AppConfig) -> Seq<Seq<char>> {
    without(cfg.profiles.key_list(), OFF_PROFILE@).push(OFF_PROFILE@)
}

/// Where the cycle continues from: the first position of `active`, or the
/// start when `active` is not in the cycle.
pub open spec fn cycle_position(order: Seq<Seq<char>>, active: Seq<char>) -> int {
    if order.contains(active) {
        choose|i: int|
            0 <= i < order.len() && order[i] == active && forall|j: int|
                0 <= j < i ==> order[j] != active
    } else {
        0
    }
}

/// The step after `active` in the cycle, or `None` when the cycle has fewer
/// than two steps.
pub open spec fn next_in_cycle(cfg: AppConfig, active: Seq<char>) -> Option<Seq<char>> {
    let order = cycle_spec(cfg);
    if order.len() < 2 {
        None
    } else {
        Some(order[(cycle_position(order, active) + 1) % (order.len() as int)])
    }
}

/// Ordered cycle: saved profiles alphabetically, then Off last.
pub fn cycle_order(cfg: &AppConfig) -> (order: Vec<String>)
    ensures
        order@.map_values(|n: String| n@) == cycle_spec(*cfg),
{
    let keys = cfg.profiles.keys();
    let mut names = without_name(&keys, OFF_PROFILE);
    let ghost before = names@.map_values(|n: String| n@);
    names.push(owned(OFF_PROFILE));
    assert(names@.map_values(|n: String| n@) =~= before.push(OFF_PROFILE@));
    names
}

/// The cycle lists every profile other than "Off" once, in strictly
/// ascending name order, and ends with "Off".
pub proof fn lemma_cycle_shape(cfg: AppConfig)
    requires
        cfg.profiles.wf(),
    ensures
        cycle_spec(cfg).last() == OFF_PROFILE@,
        strictly_sorted(cycle_spec(cfg).drop_last()),
        !cycle_spec(cfg).drop_last().contains(OFF_PROFILE@),
        forall|k: Seq<char>|
            cfg.profiles@.dom().contains(k) && k != OFF_PROFILE@ ==> #[trigger] cycle_spec(
                cfg,
            ).drop_last().contains(k),
        forall|i: int|
            0 <= i < cycle_spec(cfg).len() - 1 ==> cfg.profiles@.dom().contains(
                #[trigger] cycle_spec(cfg)[i],
            ),
{
    let keys = cfg.profiles.key_list();
    let pred = |k: Seq<char>| k != OFF_PROFILE@;
    let rest = keys.filter(pred);
    cfg.profiles.lemma_keys();
    assert(cycle_spec(cfg).drop_last() =~= rest);
    lemma_filter_sorted(keys, pred);
    assert(!rest.contains(OFF_PROFILE@)) by {
        if rest.contains(OFF_PROFILE@) {
            let i = choose|i: int| 0 <= i < rest.len() && rest[i] == OFF_PROFILE@;
            keys.lemma_filter_pred(pred, i);
        }
    }
    assert forall|k: Seq<char>| cfg.profiles@.dom().contains(k) && k != OFF_PROFILE@ implies #[trigger] rest.contains(k) by {
        let i = choose|i: int| 0 <= i < keys.len() && keys[i] == k;
        keys.lemma_filter_contains(pred, i);
    }
    assert forall|i: int| 0 <= i < rest.len() implies cfg.profiles@.dom().contains(#[trigger] rest[i]) by {
        assert(rest.contains(rest[i]));
        keys.lemma_filter_contains_rev(pred, rest[i]);
    }
    assert forall|i: int| 0 <= i < cycle_spec(cfg).len() - 1 implies cfg.profiles@.dom().contains(
        #[trigger] cycle_spec(cfg)[i]) by {
        assert(cycle_spec(cfg)[i] == rest[i]);
    }
}

proof fn lemma_cycle_prefix(cfg: AppConfig)
    requires
        cfg.profiles.wf(),
    ensures
        cycle_spec(cfg).last() == OFF_PROFILE@,
        strictly_sorted(cycle_spec(cfg).drop_last()),
        !cycle_spec(cfg).drop_last().contains(OFF_PROFILE@),
{
    let keys = cfg.profiles.key_list();
    let pred = |k: Seq<char>| k != OFF_PROFILE@;
    let rest = keys.filter(pred);
    cfg.profiles.lemma_keys();
    assert(cycle_spec(cfg).drop_last() =~= rest);
    lemma_filter_sorted(keys, pred);
    assert(!rest.contains(OFF_PROFILE@)) by {
        if rest.contains(OFF_PROFILE@) {
            let i = choose|i: int| 0 <= i < rest.len() && rest[i] == OFF_PROFILE@;
            keys.lemma_filter_pred(pred, i);
        }
    }
}

/// Each step of the cycle is followed by the next one, and the last step
/// ("Off") wraps back to the first.
pub proof fn lemma_cycle_steps(cfg: AppConfig, i: int)
    requires
        cfg.profiles.wf(),
        cycle_spec(cfg).len() >= 2,
        0 <= i < cycle_spec(cfg).len(),
    ensures
        i + 1 < cycle_spec(cfg).len() ==> next_in_cycle(cfg, cycle_spec(cfg)[i]) == Some(
            cycle_spec(cfg)[i + 1],
        ),
        i + 1 == cycle_spec(cfg).len() ==> next_in_cycle(cfg, cycle_spec(cfg)[i]) == Some(
            cycle_spec(cfg)[0],
        ),
{
    lemma_cycle_prefix(cfg);
    let o = cycle_spec(cfg);
    let pre = o.drop_last();
    let a = o[i];
    assert(o.contains(a));
    assert forall|j: int| 0 <= j < i implies o[j] != a by {
        if i == o.len() - 1 {
            assert(pre[j] == o[j]);
            if o[j] == a {
                assert(pre.contains(OFF_PROFILE@));
            }
        } else {
            assert(pre[j] == o[j] && pre[i] == a);
            crate::text::lemma_seq_less_irreflexive(a);
            assert(crate::text::seq_less(pre[j], pre[i]));
        }
    }
    assert(0 <= i < o.len() && o[i] == a && forall|j: int| 0 <= j < i ==> o[j] != a);
    let p = cycle_position(o, a);
    assert(0 <= p < o.len() && o[p] == a && forall|j: int| 0 <= j < p ==> o[j] != a);
    if p > i {
        assert(o[i] != a);
    }
    if i + 1 < o.len() {
        vstd::arithmetic::div_mod::lemma_small_mod((i + 1) as nat, o.len());
    }
    assert(p == i);
}

/// The profile that comes after `active` in the cycle (Off is last, then
/// wrap). `None` when there are fewer than two steps.
pub fn next_profile_name(cfg: &AppConfig, active: &str) -> (next: Option<String>)
    ensures
        next matches Some(n) ==> next_in_cycle(*cfg, active@) == Some(n@),
        next is None <==> next_in_cycle(*cfg, active@) is None,
{
    let order = cycle_order(cfg);
    let ghost o = order@.map_values(|n: String| n@);
    let n = order.len();
    if n < 2 {
        return None;
    }
    let mut pos: usize = 0;
    let mut found = false;
    let mut i: usize = 0;
    while i < n && !found
        invariant
            n == order@.len(),
            o == order@.map_values(|n: String| n@),
            i <= n,
            !found ==> pos == 0 && forall|j: int| 0 <= j < i ==> o[j] != active@,
            found ==> pos < n && o[pos as int] == active@ && forall|j: int| 0 <= j < pos ==> o[j] != active@,
        decreases n - i,
    {
        assert(o[i as int] == order@[i as int]@);
        if str_eq(order[i].as_str(), active) {
            pos = i;
            found = true;
        }
        i = i + 1;
    }
    proof {
        if found {
            assert(o.contains(active@));
            let c = cycle_position(o, active@);
            assert(0 <= c < o.len() && o[c] == active@ && forall|j: int| 0 <= j < c ==> o[j] != active@);
            if c < pos {
            } else if c > pos {
                assert(o[pos as int] != active@);
            }
        } else {
            assert(!o.contains(active@));
        }
    }
    let next = (pos + 1) % n;
    assert(o[next as int] == order@[next as int]@);
    Some(order[next].clone())
}

pub const NOTHING_TO_CYCLE_MESSAGE: &'static str =
    "need at least one saved profile to cycle with Fn+Space";

/// Advance the store to the next cycle step and return the new active
/// name. The reserved Off profile is added first if missing. Nothing is
/// applied; the caller writes the store back and applies.
pub fn advance_profile(store: &mut ConfigStore) -> (r: Result<String, Error>)
    requires
        old(store).cfg.profiles.wf(),
    ensures
        final(store).cfg.profiles.wf(),
        final(store).path == old(store).path,
        final(store).cfg.version == old(store).cfg.version,
        final(store).cfg.palette == old(store).cfg.palette,
        final(store).cfg.profiles@ == with_off(old(store).cfg.profiles@),
        ({
            let ensured = AppConfig { profiles: final(store).cfg.profiles, ..old(store).cfg };
            &&& next_in_cycle(ensured, old(store).cfg.active_profile@) is None ==> (r matches Err(
                Error::Config(m),
            ) && m@ == NOTHING_TO_CYCLE_MESSAGE@) && final(store).cfg.active_profile == old(store).cfg.active_profile
            &&& next_in_cycle(ensured, old(store).cfg.active_profile@) matches Some(n) ==> (r matches Ok(name)
                && name@ == n && final(store).cfg.active_profile@ == n)
        }),
        r is Ok ==> final(store).cfg.active_exists(),
        old(store).cfg.is_stable() ==> final(store).cfg.is_stable(),
{
    ensure_off_profile(&mut store.cfg);
    let ghost ensured = store.cfg;
    let next = match next_profile_name(&store.cfg, store.cfg.active_profile.as_str()) {
        Some(n) => n,
        None => {
            return Err(Error::Config(owned(NOTHING_TO_CYCLE_MESSAGE)));
        },
    };
    proof {
        lemma_cycle_shape(ensured);
        let o = cycle_spec(ensured);
        let p = cycle_position(o, ensured.active_profile@);
        let idx = (p + 1) % (o.len() as int);
        if idx < o.len() - 1 {
            assert(ensured.profiles@.dom().contains(o[idx]));
        } else {
            assert(o[idx] == OFF_PROFILE@);
        }
    }
    match store.set_active_profile(next.as_str()) {
        Ok(()) => Ok(next),
        Err(e) => Err(e),
    }
}

} // verus!

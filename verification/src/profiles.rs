//! Profile management beyond simple edits: safe deletion and renaming.
//!
//! - The reserved "Off" profile (the Fn+Space cycle end step) can be neither
//!   deleted nor renamed, and no profile can be renamed onto it.
//! - Deleting the active profile moves the active selection to the first
//!   remaining non-reserved profile in name order, or to "Off" when nothing
//!   else remains; "Off" is ensured first, so the profile set never becomes
//!   empty.
//! - Nothing here touches the hardware; the caller writes the store back.

use vstd::prelude::*;

use crate::config::{
    ensure_off_profile, lemma_off_name_not_blank, lemma_stable_by_keys, no_profile_error,
    no_profile_message, with_off, AppConfig, ConfigStore, EMPTY_NAME_MESSAGE, OFF_PROFILE,
};
use crate::error::Error;
use crate::profile_map::{lemma_filter_sorted, strictly_sorted};
use crate::text::{debug_quoted, lemma_trim_idempotent, owned, push_str, quoted, str_eq, trim,
    trimmed};

verus! {

/// `names` without `excluded`, order kept.
pub open spec fn without(names: Seq<Seq<char>>, excluded: Seq<char>) -> Seq<Seq<char>> {
    names.filter(|k: Seq<char>| k != excluded)
}

/// Drop every occurrence of `excluded`, keeping the order of the rest.
pub fn without_name(names: &Vec<String>, excluded: &str) -> (r: Vec<String>)
    ensures
        r@.map_values(|n: String| n@) == without(names@.map_values(|n: String| n@), excluded@),
{
    let ghost s = names@.map_values(|n: String| n@);
    let ghost pred = |k: Seq<char>| k != excluded@;
    let mut out: Vec<String> = Vec::new();
    let mut i: usize = 0;
    while i < names.len()
        invariant
            s == names@.map_values(|n: String| n@),
            pred == (|k: Seq<char>| k != excluded@),
            i <= names@.len(),
            out@.map_values(|n: String| n@) == s.take(i as int).filter(pred),
        decreases names@.len() - i,
    {
        let ghost before = out@.map_values(|n: String| n@);
        let keep = !str_eq(names[i].as_str(), excluded);
        if keep {
            out.push(names[i].clone());
        }
        proof {
            reveal(Seq::filter);
            let t = s.take(i + 1);
            assert(t.drop_last() =~= s.take(i as int));
            assert(t.last() == names@[i as int]@);
            assert(pred(t.last()) == keep);
            if keep {
                assert(out@.map_values(|n: String| n@) =~= before.push(names@[i as int]@));
            } else {
                assert(out@.map_values(|n: String| n@) =~= before);
            }
        }
        i = i + 1;
    }
    assert(s.take(names@.len() as int) =~= s);
    out
}

/// The profile that becomes active after the active one is deleted: the
/// first remaining name other than "Off", or "Off" when there is none.
pub open spec fn fallback_name(keys: Seq<Seq<char>>) -> Seq<char> {
    let rest = without(keys, OFF_PROFILE@);
    if rest.len() > 0 {
        rest[0]
    } else {
        OFF_PROFILE@
    }
}

/// Pick the new active profile after the current one was deleted.
fn fallback_active(cfg: &AppConfig) -> (name: String)
    ensures
        name@ == fallback_name(cfg.profiles.key_list()),
{
    let keys = cfg.profiles.keys();
    let rest = without_name(&keys, OFF_PROFILE);
    if rest.len() > 0 {
        assert(rest@.map_values(|n: String| n@)[0] == rest@[0]@);
        rest[0].clone()
    } else {
        owned(OFF_PROFILE)
    }
}

/// The fallback is a stored profile when the reserved Off profile exists.
pub proof fn lemma_fallback_exists(cfg: AppConfig)
    requires
        cfg.profiles.wf(),
        cfg.profiles@.dom().contains(OFF_PROFILE@),
    ensures
        cfg.profiles@.dom().contains(fallback_name(cfg.profiles.key_list())),
{
    cfg.profiles.lemma_keys();
    let keys = cfg.profiles.key_list();
    let rest = without(keys, OFF_PROFILE@);
    if rest.len() > 0 {
        assert(rest.contains(rest[0]));
        keys.lemma_filter_contains_rev(|k: Seq<char>| k != OFF_PROFILE@, rest[0]);
    }
}

pub const DELETE_OFF_MESSAGE: &'static str =
    "\"Off\" is the reserved Fn+Space cycle end step and cannot be deleted";

pub const RENAME_OFF_MESSAGE: &'static str =
    "\"Off\" is reserved for the Fn+Space cycle end step and cannot be renamed";

/// Delete `name` from the store.
///
/// Returns `Ok(Some(new_active))` when the deleted profile was the active
/// one (the active selection has moved to `new_active`), `Ok(None)`
/// otherwise.
pub fn delete_profile(store: &mut ConfigStore, name: &str) -> (r: Result<Option<String>, Error>)
    requires
        old(store).cfg.profiles.wf(),
    ensures
        final(store).cfg.profiles.wf(),
        final(store).path == old(store).path,
        final(store).cfg.version == old(store).cfg.version,
        final(store).cfg.palette == old(store).cfg.palette,
        name@ == OFF_PROFILE@ ==> (r matches Err(Error::Config(m)) && m@ == DELETE_OFF_MESSAGE@)
            && final(store).cfg == old(store).cfg,
        name@ != OFF_PROFILE@ && !old(store).cfg.profiles@.dom().contains(name@) ==> (r matches Err(
            Error::Config(m),
        ) && m@ == no_profile_message(name@)) && final(store).cfg == old(store).cfg,
        name@ != OFF_PROFILE@ && old(store).cfg.profiles@.dom().contains(name@) ==> r is Ok
            && final(store).cfg.profiles@ == with_off(old(store).cfg.profiles@).remove(name@),
        name@ != OFF_PROFILE@ && old(store).cfg.profiles@.dom().contains(name@)
            && old(store).cfg.active_profile@ == name@ ==> (r matches Ok(Some(n)) && n@
            == fallback_name(final(store).cfg.profiles.key_list()) && final(store).cfg.active_profile@ == n@),
        name@ != OFF_PROFILE@ && old(store).cfg.profiles@.dom().contains(name@)
            && old(store).cfg.active_profile@ != name@ ==> (r matches Ok(None) && final(store).cfg.active_profile == old(store).cfg.active_profile),
        r is Ok ==> final(store).cfg.profiles@.dom().contains(OFF_PROFILE@),
        r is Ok && old(store).cfg.active_exists() ==> final(store).cfg.active_exists(),
        old(store).cfg.is_stable() ==> final(store).cfg.is_stable(),
{
    proof {
        lemma_stable_by_keys(old(store).cfg);
        lemma_off_name_not_blank();
    }
    if str_eq(name, OFF_PROFILE) {
        return Err(Error::Config(owned(DELETE_OFF_MESSAGE)));
    }
    if !store.cfg.profiles.contains_key(name) {
        return Err(no_profile_error(name));
    }
    let ghost before = store.cfg;
    ensure_off_profile(&mut store.cfg);
    store.cfg.profiles.remove(name);
    if str_eq(store.cfg.active_profile.as_str(), name) {
        let next = fallback_active(&store.cfg);
        store.cfg.active_profile = next.clone();
        proof {
            lemma_fallback_exists(store.cfg);
            lemma_stable_by_keys(store.cfg);
        }
        Ok(Some(next))
    } else {
        proof {
            lemma_stable_by_keys(store.cfg);
        }
        Ok(None)
    }
}

/// A successful deletion leaves the reserved Off profile in place and the
/// active selection pointing at a stored profile.
pub proof fn lemma_delete_keeps_store_valid(before: AppConfig, after: AppConfig, name: Seq<char>)
    requires
        before.profiles.wf(),
        after.profiles.wf(),
        before.active_exists(),
        name != OFF_PROFILE@,
        before.profiles@.dom().contains(name),
        after.profiles@ == with_off(before.profiles@).remove(name),
        before.active_profile@ == name ==> after.active_profile@ == fallback_name(
            after.profiles.key_list(),
        ),
        before.active_profile@ != name ==> after.active_profile == before.active_profile,
    ensures
        after.profiles@.dom().contains(OFF_PROFILE@),
        after.active_exists(),
{
    if before.active_profile@ == name {
        lemma_fallback_exists(after);
    }
}

/// The message for a rename onto an existing name.
pub open spec fn collision_message(name: Seq<char>) -> Seq<char> {
    "a profile named "@ + debug_quoted(name) + " already exists"@
}

/// Rename a saved profile: the configuration moves to the trimmed new name
/// and an active profile stays active under its new name.
pub fn rename_profile(store: &mut ConfigStore, old_name: &str, new_name: &str) -> (r: Result<(), Error>)
    requires
        old(store).cfg.profiles.wf(),
    ensures
        final(store).cfg.profiles.wf(),
        final(store).path == old(store).path,
        final(store).cfg.version == old(store).cfg.version,
        final(store).cfg.palette == old(store).cfg.palette,
        r is Err ==> final(store).cfg == old(store).cfg,
        old(store).cfg.active_exists() ==> final(store).cfg.active_exists(),
        old(store).cfg.is_stable() ==> final(store).cfg.is_stable(),
        ({
            let t = trim(new_name@);
            let before = old(store).cfg;
            let after = final(store).cfg;
            &&& (old_name@ == OFF_PROFILE@ || t == OFF_PROFILE@) ==> (r matches Err(Error::Config(m)) && m@
                == RENAME_OFF_MESSAGE@)
            &&& !(old_name@ == OFF_PROFILE@ || t == OFF_PROFILE@) && t.len() == 0 ==> (r matches Err(
                Error::Config(m),
            ) && m@ == EMPTY_NAME_MESSAGE@)
            &&& !(old_name@ == OFF_PROFILE@ || t == OFF_PROFILE@) && t.len() > 0 && old_name@ == t ==> r is Ok
                && after == before
            &&& !(old_name@ == OFF_PROFILE@ || t == OFF_PROFILE@) && t.len() > 0 && old_name@ != t
                && !before.profiles@.dom().contains(old_name@) ==> (r matches Err(Error::Config(m)) && m@
                == no_profile_message(old_name@))
            &&& !(old_name@ == OFF_PROFILE@ || t == OFF_PROFILE@) && t.len() > 0 && old_name@ != t
                && before.profiles@.dom().contains(old_name@) && before.profiles@.dom().contains(t) ==> (
            r matches Err(Error::Config(m)) && m@ == collision_message(t))
            &&& !(old_name@ == OFF_PROFILE@ || t == OFF_PROFILE@) && t.len() > 0 && old_name@ != t
                && before.profiles@.dom().contains(old_name@) && !before.profiles@.dom().contains(t) ==> r is Ok
                && after.profiles@ == before.profiles@.remove(old_name@).insert(t, before.profiles@[old_name@])
                && (before.active_profile@ == old_name@ ==> after.active_profile@ == t) && (
            before.active_profile@ != old_name@ ==> after.active_profile == before.active_profile)
        }),
{
    let new = trimmed(new_name);
    if str_eq(old_name, OFF_PROFILE) || str_eq(new.as_str(), OFF_PROFILE) {
        return Err(Error::Config(owned(RENAME_OFF_MESSAGE)));
    }
    if new.as_str().unicode_len() == 0 {
        return Err(Error::Config(owned(EMPTY_NAME_MESSAGE)));
    }
    if str_eq(old_name, new.as_str()) {
        return Ok(());
    }
    if !store.cfg.profiles.contains_key(old_name) {
        return Err(no_profile_error(old_name));
    }
    if store.cfg.profiles.contains_key(new.as_str()) {
        let mut m = String::new();
        push_str(&mut m, "a profile named ");
        let q = quoted(new.as_str());
        push_str(&mut m, q.as_str());
        push_str(&mut m, " already exists");
        assert(m@ =~= collision_message(new@));
        return Err(Error::Config(m));
    }
    let config = match store.cfg.profiles.remove(old_name) {
        Some(c) => c,
        None => {
            return Err(no_profile_error(old_name));
        },
    };
    store.cfg.profiles.insert(new.clone(), config);
    if str_eq(store.cfg.active_profile.as_str(), old_name) {
        store.cfg.active_profile = new;
    }
    proof {
        lemma_stable_by_keys(old(store).cfg);
        lemma_stable_by_keys(store.cfg);
        lemma_trim_idempotent(new_name@);
    }
    Ok(())
}

} // verus!

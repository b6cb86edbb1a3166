//! Named lighting profiles, kept sorted by name in code-point order (the
//! order the profile list, the Fn+Space cycle and every "first profile"
//! fallback use).
//!
//! The map is a vector of entries with sortedness as its invariant, not a
//! std `BTreeMap<String, _>`: vstd's contracts for `BTreeMap` hold only for
//! key types with an ordering model (`obeys_cmp`), and it gives `String`
//! none, so nothing could be proved of such a map's contents.

use vstd::prelude::*;

use crate::model::LightingConfig;
use crate::text::{compare_str, lemma_seq_less_irreflexive, lemma_seq_less_total,
    lemma_seq_less_transitive, seq_less, NameOrder};

verus! {

/// Every name sorts strictly before every later name.
pub open spec fn strictly_sorted(s: Seq<Seq<char>>) -> bool {
    forall|i: int, j: int| 0 <= i < j < s.len() ==> seq_less(#[trigger] s[i], #[trigger] s[j])
}

/// Position of `k` in `s` (meaningful when `s` contains `k`).
pub open spec fn position(s: Seq<Seq<char>>, k: Seq<char>) -> int {
    choose|i: int| 0 <= i < s.len() && s[i] == k
}

/// A sorted sequence holds each name once, at one position.
pub proof fn lemma_position(s: Seq<Seq<char>>, i: int)
    requires
        strictly_sorted(s),
        0 <= i < s.len(),
    ensures
        position(s, s[i]) == i,
{
    let j = position(s, s[i]);
    assert(0 <= j < s.len() && s[j] == s[i]);
    if j != i {
        lemma_seq_less_irreflexive(s[i]);
        if j < i {
            assert(seq_less(s[j], s[i]));
        } else {
            assert(seq_less(s[i], s[j]));
        }
    }
}

/// Keeping only some names of a sorted list leaves it sorted.
pub proof fn lemma_filter_sorted(s: Seq<Seq<char>>, pred: spec_fn(Seq<char>) -> bool)
    requires
        strictly_sorted(s),
    ensures
        strictly_sorted(s.filter(pred)),
    decreases s.len(),
{
    reveal(Seq::filter);
    if s.len() > 0 {
        let d = s.drop_last();
        assert(strictly_sorted(d)) by {
            assert forall|i: int, j: int| 0 <= i < j < d.len() implies seq_less(
                #[trigger] d[i],
                #[trigger] d[j],
            ) by {
                assert(d[i] == s[i] && d[j] == s[j]);
            }
        }
        lemma_filter_sorted(d, pred);
        if pred(s.last()) {
            let f = d.filter(pred);
            assert forall|i: int| 0 <= i < f.len() implies seq_less(#[trigger] f[i], s.last()) by {
                assert(f.contains(f[i]));
                d.lemma_filter_contains_rev(pred, f[i]);
                let j = choose|j: int| 0 <= j < d.len() && d[j] == f[i];
                assert(s[j] == f[i]);
            }
            let g = s.filter(pred);
            assert forall|i: int, j: int| 0 <= i < j < g.len() implies seq_less(
                #[trigger] g[i],
                #[trigger] g[j],
            ) by {
                if j == g.len() - 1 {
                    assert(g[i] == f[i]);
                } else {
                    assert(g[i] == f[i] && g[j] == f[j]);
                }
            }
        }
    }
}

#[derive(Debug, Clone, PartialEq)]
pub struct ProfileMap {
    entries: Vec<(String, LightingConfig)>,
}

impl View for ProfileMap {
    type V = Map<Seq<char>, LightingConfig>;

    /// Name → configuration.
    closed spec fn view(&self) -> Map<Seq<char>, LightingConfig> {
        Map::new(
            |k: Seq<char>| self.key_list().contains(k),
            |k: Seq<char>| self.entries@[position(self.key_list(), k)].1,
        )
    }
}

impl ProfileMap {
    /// The names, in the order they are stored.
    pub closed spec fn key_list(self) -> Seq<Seq<char>> {
        self.entries@.map_values(|e: (String, LightingConfig)| e.0@)
    }

    /// The stored order is strictly ascending.
    pub closed spec fn wf(self) -> bool {
        strictly_sorted(self.key_list())
    }


    /// The names in ascending order: exactly the map's keys, each once.
    pub proof fn lemma_keys(self)
        requires
            self.wf(),
        ensures
            strictly_sorted(self.key_list()),
            forall|k: Seq<char>| #[trigger] self.view().dom().contains(k) <==> self.key_list().contains(k),
            self.key_list().no_duplicates(),
    {
        let s = self.key_list();
        assert forall|i: int, j: int| 0 <= i < s.len() && 0 <= j < s.len() && i != j implies s[i]
            != s[j] by {
            lemma_seq_less_irreflexive(s[i]);
            if i < j {
                assert(seq_less(s[i], s[j]));
            } else {
                assert(seq_less(s[j], s[i]));
            }
        }
    }

    proof fn lemma_lookup(self, i: int)
        requires
            self.wf(),
            0 <= i < self.entries@.len(),
        ensures
            self.view().dom().contains(self.entries@[i].0@),
            self.view()[self.entries@[i].0@] == self.entries@[i].1,
            self.key_list()[i] == self.entries@[i].0@,
    {
        let s = self.key_list();
        assert(s[i] == self.entries@[i].0@);
        assert(s.contains(s[i]));
        lemma_position(s, i);
    }

    /// An empty map.
    pub fn new() -> (m: Self)
        ensures
            m.wf(),
            m.view() == Map::<Seq<char>, LightingConfig>::empty(),
            m.key_list() == Seq::<Seq<char>>::empty(),
    {
        let m = ProfileMap { entries: Vec::new() };
        assert(m.key_list() =~= Seq::<Seq<char>>::empty());
        assert(m.view() =~= Map::<Seq<char>, LightingConfig>::empty());
        m
    }

    /// Number of profiles.
    pub fn len(&self) -> (n: usize)
        ensures
            n == self.key_list().len(),
    {
        self.entries.len()
    }

    /// Is the map empty?
    pub fn is_empty(&self) -> (b: bool)
        ensures
            b == (self.key_list().len() == 0),
    {
        self.entries.len() == 0
    }

    /// Where `name` is, or where it would be inserted.
    fn find(&self, name: &str) -> (r: (usize, bool))
        requires
            self.wf(),
        ensures
            r.0 <= self.key_list().len(),
            forall|i: int| 0 <= i < r.0 ==> seq_less(#[trigger] self.key_list()[i], name@),
            r.1 ==> r.0 < self.key_list().len() && self.key_list()[r.0 as int] == name@,
            !r.1 ==> forall|i: int|
                r.0 <= i < self.key_list().len() ==> seq_less(name@, #[trigger] self.key_list()[i]),
            r.1 == self.key_list().contains(name@),
    {
        let ghost s = self.key_list();
        let n = self.entries.len();
        let mut i: usize = 0;
        while i < n
            invariant
                n == s.len(),
                s == self.key_list(),
                strictly_sorted(s),
                i <= n,
                forall|k: int| 0 <= k < i ==> seq_less(#[trigger] s[k], name@),
            decreases n - i,
        {
            let order = compare_str(self.entries[i].0.as_str(), name);
            assert(s[i as int] == self.entries@[i as int].0@);
            match order {
                NameOrder::Before => {},
                NameOrder::Same => {
                    return (i, true);
                },
                NameOrder::After => {
                    proof {
                        assert forall|k: int| i <= k < n implies seq_less(name@, #[trigger] s[k]) by {
                            if k > i {
                                lemma_seq_less_transitive(name@, s[i as int], s[k]);
                            }
                        }
                        assert(!s.contains(name@)) by {
                            if s.contains(name@) {
                                let k = choose|k: int| 0 <= k < n && s[k] == name@;
                                lemma_seq_less_irreflexive(name@);
                                if k < i {
                                    assert(seq_less(s[k], name@));
                                } else {
                                    assert(seq_less(name@, s[k]));
                                }
                            }
                        }
                    }
                    return (i, false);
                },
            }
            i = i + 1;
        }
        proof {
            assert(!s.contains(name@)) by {
                if s.contains(name@) {
                    let k = choose|k: int| 0 <= k < n && s[k] == name@;
                    lemma_seq_less_irreflexive(name@);
                    assert(seq_less(s[k], name@));
                }
            }
        }
        (n, false)
    }

    /// Is there a profile called `name`?
    pub fn contains_key(&self, name: &str) -> (b: bool)
        requires
            self.wf(),
        ensures
            b == self.view().dom().contains(name@),
    {
        self.find(name).1
    }

    /// The configuration stored under `name`.
    pub fn get(&self, name: &str) -> (r: Option<LightingConfig>)
        requires
            self.wf(),
        ensures
            self.view().dom().contains(name@) ==> r == Some(self.view()[name@]),
            !self.view().dom().contains(name@) ==> r is None,
    {
        let (i, found) = self.find(name);
        if found {
            proof {
                self.lemma_lookup(i as int);
            }
            Some(self.entries[i].1)
        } else {
            None
        }
    }

    /// Store `cfg` under `name`, replacing any previous configuration.
    pub fn insert(&mut self, name: String, cfg: LightingConfig)
        requires
            old(self).wf(),
        ensures
            final(self).wf(),
            final(self).view() == old(self).view().insert(name@, cfg),
            final(self).key_list().len() == old(self).key_list().len() + if old(self).view().dom().contains(name@) {
                0int
            } else {
                1int
            },
    {
        let ghost old_self = *self;
        let ghost s = self.key_list();
        let (i, found) = self.find(name.as_str());
        let ghost k = name@;
        if found {
            self.entries.set(i, (name, cfg));
            proof {
                let t = self.key_list();
                assert(t =~= s.update(i as int, k));
                assert(self.wf());
                assert forall|key: Seq<char>| #[trigger] self.view().dom().contains(key) <==> old_self.view().insert(k, cfg).dom().contains(key) by {
                    if key != k && s.contains(key) {
                        let j = choose|j: int| 0 <= j < s.len() && s[j] == key;
                        assert(t[j] == key);
                    }
                    if key != k && t.contains(key) {
                        let j = choose|j: int| 0 <= j < t.len() && t[j] == key;
                        assert(s[j] == key);
                    }
                    if key == k {
                        assert(t[i as int] == k);
                    }
                }
                assert forall|key: Seq<char>| #[trigger] self.view().dom().contains(key) implies self.view()[key] == old_self.view().insert(k, cfg)[key] by {
                    let j = choose|j: int| 0 <= j < t.len() && t[j] == key;
                    self.lemma_lookup(j);
                    if j != i {
                        old_self.lemma_keys();
                        assert(s[j] != s[i as int]);
                        assert(self.entries@[j] == old_self.entries@[j]);
                        old_self.lemma_lookup(j);
                    }
                }
                assert(self.view() =~= old_self.view().insert(k, cfg));
            }
        } else {
            self.entries.insert(i, (name, cfg));
            proof {
                let t = self.key_list();
                assert(t =~= s.insert(i as int, k));
                assert forall|a: int, b: int| 0 <= a < b < t.len() implies seq_less(#[trigger] t[a], #[trigger] t[b]) by {
                    if a < i && b == i {
                    } else if a < i && b > i {
                        assert(t[b] == s[b - 1]);
                    } else if a == i {
                        assert(t[b] == s[b - 1]);
                    } else if a > i {
                        assert(t[a] == s[a - 1]);
                        assert(t[b] == s[b - 1]);
                    }
                }
                assert(self.wf());
                assert forall|key: Seq<char>| #[trigger] self.view().dom().contains(key) <==> old_self.view().insert(k, cfg).dom().contains(key) by {
                    if key != k && s.contains(key) {
                        let j = choose|j: int| 0 <= j < s.len() && s[j] == key;
                        if j < i {
                            assert(t[j] == key);
                        } else {
                            assert(t[j + 1] == key);
                        }
                    }
                    if key != k && t.contains(key) {
                        let j = choose|j: int| 0 <= j < t.len() && t[j] == key;
                        if j < i {
                            assert(s[j] == key);
                        } else {
                            assert(s[j - 1] == key);
                        }
                    }
                    if key == k {
                        assert(t[i as int] == k);
                    }
                }
                assert forall|key: Seq<char>| #[trigger] self.view().dom().contains(key) implies self.view()[key] == old_self.view().insert(k, cfg)[key] by {
                    let j = choose|j: int| 0 <= j < t.len() && t[j] == key;
                    self.lemma_lookup(j);
                    if j < i {
                        old_self.lemma_lookup(j);
                    } else if j > i {
                        old_self.lemma_lookup(j - 1);
                    }
                }
                assert(self.view() =~= old_self.view().insert(k, cfg));
            }
        }
    }

    /// Remove the profile called `name`, returning its configuration.
    pub fn remove(&mut self, name: &str) -> (r: Option<LightingConfig>)
        requires
            old(self).wf(),
        ensures
            final(self).wf(),
            final(self).view() == old(self).view().remove(name@),
            old(self).view().dom().contains(name@) ==> r == Some(old(self).view()[name@]),
            !old(self).view().dom().contains(name@) ==> r is None,
            final(self).key_list().len() == old(self).key_list().len() - if old(self).view().dom().contains(name@) {
                1int
            } else {
                0int
            },
    {
        let ghost old_self = *self;
        let ghost s = self.key_list();
        let ghost k = name@;
        let (i, found) = self.find(name);
        if !found {
            assert(self.view() =~= old_self.view().remove(k));
            return None;
        }
        proof {
            old_self.lemma_lookup(i as int);
        }
        let (_, cfg) = self.entries.remove(i);
        proof {
            let t = self.key_list();
            assert(t =~= s.remove(i as int));
            assert forall|a: int, b: int| 0 <= a < b < t.len() implies seq_less(#[trigger] t[a], #[trigger] t[b]) by {
                if a < i && b >= i {
                    assert(t[b] == s[b + 1]);
                } else if a >= i {
                    assert(t[a] == s[a + 1]);
                    assert(t[b] == s[b + 1]);
                }
            }
            assert(self.wf());
            assert forall|key: Seq<char>| #[trigger] self.view().dom().contains(key) <==> old_self.view().remove(k).dom().contains(key) by {
                if key != k && s.contains(key) {
                    let j = choose|j: int| 0 <= j < s.len() && s[j] == key;
                    assert(j != i);
                    if j < i {
                        assert(t[j] == key);
                    } else {
                        assert(t[j - 1] == key);
                    }
                }
                if t.contains(key) {
                    let j = choose|j: int| 0 <= j < t.len() && t[j] == key;
                    if j < i {
                        assert(s[j] == key);
                        lemma_seq_less_irreflexive(key);
                        assert(seq_less(s[j], s[i as int]));
                    } else {
                        assert(s[j + 1] == key);
                        lemma_seq_less_irreflexive(key);
                        assert(seq_less(s[i as int], s[j + 1]));
                    }
                }
            }
            assert forall|key: Seq<char>| #[trigger] self.view().dom().contains(key) implies self.view()[key] == old_self.view().remove(k)[key] by {
                let j = choose|j: int| 0 <= j < t.len() && t[j] == key;
                self.lemma_lookup(j);
                if j < i {
                    old_self.lemma_lookup(j);
                } else {
                    old_self.lemma_lookup(j + 1);
                }
            }
            assert(self.view() =~= old_self.view().remove(k));
        }
        Some(cfg)
    }

    /// All names, in ascending order.
    pub fn keys(&self) -> (names: Vec<String>)
        ensures
            names@.map_values(|n: String| n@) == self.key_list(),
    {
        let mut names: Vec<String> = Vec::new();
        let mut i: usize = 0;
        while i < self.entries.len()
            invariant
                i <= self.entries@.len(),
                names@.len() == i,
                forall|k: int| 0 <= k < i ==> #[trigger] names@[k]@ == self.key_list()[k],
            decreases self.entries@.len() - i,
        {
            names.push(self.entries[i].0.clone());
            i = i + 1;
        }
        assert(names@.map_values(|n: String| n@) =~= self.key_list());
        names
    }

    /// The name that sorts first, if any.
    pub fn first_key(&self) -> (k: Option<String>)
        ensures
            self.key_list().len() == 0 ==> k is None,
            self.key_list().len() > 0 ==> (k matches Some(name) && name@ == self.key_list()[0]),
    {
        if self.entries.len() == 0 {
            None
        } else {
            Some(self.entries[0].0.clone())
        }
    }

    /// Every configuration replaced by its normalised form: the names stay.
    pub fn normalize_all(&mut self)
        requires
            old(self).wf(),
        ensures
            final(self).wf(),
            final(self).key_list() == old(self).key_list(),
            final(self).view().dom() == old(self).view().dom(),
            forall|k: Seq<char>| #[trigger] final(self).view().dom().contains(k) ==> final(self).view()[k]
                == old(self).view()[k].normal_form(),
    {
        let ghost old_self = *self;
        let n = self.entries.len();
        let mut i: usize = 0;
        while i < n
            invariant
                n == self.entries@.len(),
                n == old_self.entries@.len(),
                i <= n,
                forall|k: int| 0 <= k < n ==> #[trigger] self.entries@[k].0 == old_self.entries@[k].0,
                forall|k: int| 0 <= k < i ==> #[trigger] self.entries@[k].1 == old_self.entries@[k].1.normal_form(),
                forall|k: int| i <= k < n ==> #[trigger] self.entries@[k].1 == old_self.entries@[k].1,
            decreases n - i,
        {
            let name = self.entries[i].0.clone();
            let cfg = self.entries[i].1.normalized();
            self.entries.set(i, (name, cfg));
            i = i + 1;
        }
        proof {
            assert(self.key_list() =~= old_self.key_list());
            assert(self.view().dom() =~= old_self.view().dom());
            assert forall|k: Seq<char>| #[trigger] self.view().dom().contains(k) implies self.view()[k]
                == old_self.view()[k].normal_form() by {
                let j = choose|j: int| 0 <= j < n && self.key_list()[j] == k;
                self.lemma_lookup(j);
                old_self.lemma_lookup(j);
            }
        }
    }
}

} // verus!

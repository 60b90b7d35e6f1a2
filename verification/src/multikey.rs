//! A map whose entries are found under either of two keys.

use std::collections::BTreeMap;
use vstd::prelude::*;
use vstd::std_specs::iter::IteratorSpec;
use vstd::std_specs::btree::{group_btree_axioms, increasing_seq};
use vstd::std_specs::cmp::OrdSpec;
use vstd::laws_cmp::group_laws_cmp;

verus! {

broadcast use {group_btree_axioms, group_laws_cmp};

/// Which file of the host an inode stands for.
#[derive(Clone, Copy, Debug, PartialEq, Eq)]
pub struct InodeAltKey {
    pub ino: u64,
    pub dev: u64,
    pub mnt_id: u64,
}

/// The main key of the entry with the other key `alt`.
pub open spec fn key_of_alt<V>(map: Map<u64, (InodeAltKey, V)>, alt: InodeAltKey) -> Option<u64> {
    if exists|k: u64| #[trigger] map.contains_key(k) && map[k].0 == alt {
        Some(choose|k: u64| #[trigger] map.contains_key(k) && map[k].0 == alt)
    } else {
        None
    }
}

/// Whether no two entries share their other key.
pub open spec fn alts_are_unique<V>(map: Map<u64, (InodeAltKey, V)>) -> bool {
    forall|a: u64, b: u64|
        #![trigger map.contains_key(a), map.contains_key(b)]
        map.contains_key(a) && map.contains_key(b) && map[a].0 == map[b].0 ==> a == b
}

/// The map without the entry under the other key `alt`.
pub open spec fn without_alt<V>(map: Map<u64, (InodeAltKey, V)>, alt: InodeAltKey) -> Map<
    u64,
    (InodeAltKey, V),
> {
    match key_of_alt(map, alt) {
        Some(k) => map.remove(k),
        None => map,
    }
}

/// The map with a new entry, which takes the place of those with either of its keys.
pub open spec fn with_entry<V>(
    map: Map<u64, (InodeAltKey, V)>,
    key: u64,
    alt: InodeAltKey,
    value: V,
) -> Map<u64, (InodeAltKey, V)> {
    without_alt(map, alt).insert(key, (alt, value))
}

/// Whether `keys` lists the numbers in `all`, each once and in ascending order.
pub open spec fn enumerates(keys: Seq<u64>, all: Set<u64>) -> bool {
    &&& keys.to_set() == all
    &&& forall|i: int, j: int| 0 <= i < j < keys.len() ==> keys[i] < keys[j]
}

/// Copies the values of a map, in the order of their keys.
pub fn values_of<T: Copy>(map: &BTreeMap<u64, T>) -> (values: Vec<T>)
    ensures
        exists|keys: Seq<u64>| #[trigger]
            enumerates(keys, map@.dom()) && values@ == keys.map_values(|k: u64| map@[k]),
{
    let mut values: Vec<T> = Vec::new();
    let entries = map.iter();
    let ghost pairs = entries.remaining();
    for entry in it: entries
        invariant
            it.seq() == pairs,
            values@.len() == it.index(),
            forall|i: int| 0 <= i < values@.len() ==> values@[i] == *pairs[i].1,
    {
        values.push(*entry.1);
    }
    proof {
        let keys = pairs.map_values(|kv: (&u64, &T)| *kv.0);
        assert(exists|s: Seq<u64>| #[trigger] increasing_seq(s) && s =~= keys);
        assert(forall|i: int, j: int|
            0 <= i < j < keys.len() ==> keys[i].cmp_spec(&keys[j]) is Less);
        assert forall|i: int, j: int| 0 <= i < j < keys.len() implies keys[i] < keys[j] by {
            assert(keys[i].cmp_spec(&keys[j]) is Less);
        }
        assert forall|k: u64| keys.to_set().contains(k) == map@.dom().contains(k) by {
            if map@.contains_key(k) {
                let i = choose|i: int| 0 <= i < pairs.len() && pairs[i] == (&k, &map@[k]);
                assert(keys[i] == k);
            }
            if keys.contains(k) {
                let i = choose|i: int| 0 <= i < keys.len() && keys[i] == k;
                assert(map@.contains_key(*pairs[i].0));
            }
        }
        assert(keys.to_set() =~= map@.dom());
        assert forall|i: int| 0 <= i < keys.len() implies values@[i] == map@[keys[i]] by {
            assert(map@.contains_key(*pairs[i].0));
        }
        assert(values@ =~= keys.map_values(|k: u64| map@[k]));
        assert(enumerates(keys, map@.dom()));
    }
    values
}

/// A map from `u64` keys, each entry with an `InodeAltKey` of its own as a second key.
pub struct MultikeyBTreeMap<V> {
    main: BTreeMap<u64, (InodeAltKey, V)>,
    alt: BTreeMap<(u64, u64, u64), u64>,
}

impl<V> View for MultikeyBTreeMap<V> {
    type V = Map<u64, (InodeAltKey, V)>;

    closed spec fn view(&self) -> Map<u64, (InodeAltKey, V)> {
        self.main@
    }
}

spec fn parts(alt: InodeAltKey) -> (u64, u64, u64) {
    (alt.ino, alt.dev, alt.mnt_id)
}

impl<V> MultikeyBTreeMap<V> {
    /// The two indexes name the same entries.
    pub closed spec fn wf(&self) -> bool {
        &&& forall|k: u64| #[trigger]
            self.main@.contains_key(k) ==> self.alt@.contains_key(parts(self.main@[k].0))
                && self.alt@[parts(self.main@[k].0)] == k
        &&& forall|p: (u64, u64, u64)| #[trigger]
            self.alt@.contains_key(p) ==> self.main@.contains_key(self.alt@[p]) && parts(
                self.main@[self.alt@[p]].0,
            ) == p
    }

    pub proof fn lemma_alts_are_unique(&self)
        requires
            self.wf(),
        ensures
            alts_are_unique(self@),
    {
        assert forall|a: u64, b: u64|
            #![trigger self@.contains_key(a), self@.contains_key(b)]
            self@.contains_key(a) && self@.contains_key(b) && self@[a].0 == self@[b].0 implies a
            == b by {
            assert(self.main@.contains_key(a) && self.main@.contains_key(b));
        }
    }

    pub fn new() -> (map: MultikeyBTreeMap<V>)
        ensures
            map.wf(),
            map@ == Map::<u64, (InodeAltKey, V)>::empty(),
    {
        MultikeyBTreeMap { main: BTreeMap::new(), alt: BTreeMap::new() }
    }

    pub fn get(&self, key: &u64) -> (value: Option<&V>)
        ensures
            match value {
                Some(value) => self@.contains_key(*key) && self@[*key].1 == *value,
                None => !self@.contains_key(*key),
            },
    {
        match self.main.get(key) {
            Some(entry) => Some(&entry.1),
            None => None,
        }
    }

    pub fn get_alt(&self, alt: &InodeAltKey) -> (key: Option<u64>)
        requires
            self.wf(),
        ensures
            key == key_of_alt(self@, *alt),
    {
        proof {
            self.lemma_alts_are_unique();
            let p = parts(*alt);
            if self.alt@.contains_key(p) {
                let k = self.alt@[p];
                assert(self@.contains_key(k) && self@[k].0 == *alt);
            } else {
                assert forall|k: u64| #[trigger] self@.contains_key(k) implies self@[k].0
                    != *alt by {
                    assert(self.main@.contains_key(k));
                }
            }
        }
        match self.alt.get(&(alt.ino, alt.dev, alt.mnt_id)) {
            Some(key) => Some(*key),
            None => None,
        }
    }

    /// Adds an entry, and hands out those that it takes the place of: first the one under its other
    /// key, then the one under its main key.
    pub fn insert(&mut self, key: u64, alt: InodeAltKey, value: V) -> (displaced: (
        Option<V>,
        Option<V>,
    ))
        requires
            old(self).wf(),
        ensures
            final(self).wf(),
            final(self)@ == with_entry(old(self)@, key, alt, value),
            displaced.0 == (match key_of_alt(old(self)@, alt) {
                Some(k) => Some(old(self)@[k].1),
                None => None,
            }),
            displaced.1 == (if without_alt(old(self)@, alt).contains_key(key) {
                Some(old(self)@[key].1)
            } else {
                None
            }),
    {
        let p: (u64, u64, u64) = (alt.ino, alt.dev, alt.mnt_id);
        let by_alt: Option<V> = match self.get_alt(&alt) {
            Some(k) => {
                self.alt.remove(&p);
                match self.main.remove(&k) {
                    Some(entry) => Some(entry.1),
                    None => None,
                }
            },
            None => None,
        };
        assert(self.main@ == without_alt(old(self)@, alt));
        assert(self.wf()) by {
            old(self).lemma_alts_are_unique();
            assert forall|k: u64| #[trigger] self.main@.contains_key(k) implies self.alt@.contains_key(
                parts(self.main@[k].0),
            ) && self.alt@[parts(self.main@[k].0)] == k by {
                assert(old(self).main@.contains_key(k));
            }
            assert forall|q: (u64, u64, u64)| #[trigger] self.alt@.contains_key(q) implies self.main@.contains_key(
                self.alt@[q],
            ) && parts(self.main@[self.alt@[q]].0) == q by {
                assert(old(self).alt@.contains_key(q));
            }
        }
        assert(!self.alt@.contains_key(p)) by {
            if old(self).alt@.contains_key(p) {
                let k = old(self).alt@[p];
                assert(old(self)@.contains_key(k) && old(self)@[k].0 == alt);
            }
        }
        let ghost cleared = *self;
        let by_key: Option<V> = match self.main.remove(&key) {
            Some(entry) => {
                let o = entry.0;
                self.alt.remove(&(o.ino, o.dev, o.mnt_id));
                Some(entry.1)
            },
            None => None,
        };
        let ghost freed = *self;
        self.main.insert(key, (alt, value));
        self.alt.insert(p, key);
        proof {
            assert(self.main@ =~= with_entry(old(self)@, key, alt, value));
            assert forall|k: u64| #[trigger] self.main@.contains_key(k) implies self.alt@.contains_key(
                parts(self.main@[k].0),
            ) && self.alt@[parts(self.main@[k].0)] == k by {
                if k != key {
                    assert(cleared.main@.contains_key(k));
                    assert(parts(cleared.main@[k].0) != p);
                    if cleared.main@.contains_key(key) {
                        assert(parts(cleared.main@[k].0) != parts(cleared.main@[key].0));
                    }
                }
            }
            assert forall|q: (u64, u64, u64)| #[trigger] self.alt@.contains_key(q) implies self.main@.contains_key(
                self.alt@[q],
            ) && parts(self.main@[self.alt@[q]].0) == q by {
                if q != p {
                    assert(cleared.alt@.contains_key(q));
                }
            }
        }
        (by_alt, by_key)
    }

    /// Changes the value of an entry.
    pub fn set(&mut self, key: u64, value: V)
        requires
            old(self).wf(),
            old(self)@.contains_key(key),
        ensures
            final(self).wf(),
            final(self)@ == old(self)@.insert(key, (old(self)@[key].0, value)),
    {
        let alt: InodeAltKey = match self.main.get(&key) {
            Some(entry) => entry.0,
            None => vstd::pervasive::unreached(),
        };
        self.main.insert(key, (alt, value));
        assert forall|k: u64| #[trigger] self.main@.contains_key(k) implies self.alt@.contains_key(
            parts(self.main@[k].0),
        ) && self.alt@[parts(self.main@[k].0)] == k by {
            assert(old(self).main@.contains_key(k));
        }
    }

    pub fn remove(&mut self, key: &u64) -> (value: Option<V>)
        requires
            old(self).wf(),
        ensures
            final(self).wf(),
            final(self)@ == old(self)@.remove(*key),
            value == (if old(self)@.contains_key(*key) {
                Some(old(self)@[*key].1)
            } else {
                None
            }),
    {
        match self.main.remove(key) {
            Some(entry) => {
                let o = entry.0;
                self.alt.remove(&(o.ino, o.dev, o.mnt_id));
                proof {
                    assert forall|k: u64| #[trigger] self.main@.contains_key(k) implies self.alt@.contains_key(
                        parts(self.main@[k].0),
                    ) && self.alt@[parts(self.main@[k].0)] == k by {
                        assert(old(self).main@.contains_key(k));
                        assert(old(self).main@.contains_key(*key));
                    }
                    assert forall|q: (u64, u64, u64)| #[trigger] self.alt@.contains_key(
                        q,
                    ) implies self.main@.contains_key(self.alt@[q]) && parts(
                        self.main@[self.alt@[q]].0,
                    ) == q by {
                        assert(old(self).alt@.contains_key(q));
                    }
                }
                Some(entry.1)
            },
            None => {
                assert(self.main@ =~= old(self)@.remove(*key));
                None
            },
        }
    }

    /// Copies the entries, in the order of their main keys.
    pub fn entries(&self) -> (entries: Vec<(InodeAltKey, V)>) where V: Copy
        ensures
            exists|keys: Seq<u64>| #[trigger]
                enumerates(keys, self@.dom()) && entries@ == keys.map_values(|k: u64| self@[k]),
    {
        let entries = values_of(&self.main);
        proof {
            let keys = choose|keys: Seq<u64>| #[trigger]
                enumerates(keys, self.main@.dom()) && entries@ == keys.map_values(
                    |k: u64| self.main@[k],
                );
            assert(entries@ =~= keys.map_values(|k: u64| self@[k]));
            assert(enumerates(keys, self@.dom()));
        }
        entries
    }

    pub fn clear(&mut self)
        ensures
            final(self).wf(),
            final(self)@ == Map::<u64, (InodeAltKey, V)>::empty(),
    {
        self.main.clear();
        self.alt.clear();
    }
}

} // verus!

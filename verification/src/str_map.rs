//! A map from text keys to values, kept as a list of pairs with distinct keys.

use vstd::prelude::*;

use crate::text::str_eq;

verus! {

/// The keys of a list of pairs, as character sequences.
pub open spec fn pair_key<V>(p: (String, V)) -> Seq<char> {
    p.0@
}

/// No key occurs twice in the list.
pub open spec fn distinct_keys<V>(s: Seq<(String, V)>) -> bool {
    forall|i: int, j: int|
        0 <= i < j < s.len() ==> #[trigger] pair_key(s[i]) != #[trigger] pair_key(s[j])
}

/// The map that a list of pairs with distinct keys denotes.
pub open spec fn pairs_map<V>(s: Seq<(String, V)>) -> Map<Seq<char>, V> {
    Map::new(
        |k: Seq<char>| exists|i: int| 0 <= i < s.len() && #[trigger] pair_key(s[i]) == k,
        |k: Seq<char>| s[choose|i: int| 0 <= i < s.len() && #[trigger] pair_key(s[i]) == k].1,
    )
}

/// In pairs with distinct keys, each pair's key maps to that pair's value.
pub proof fn lemma_pairs_lookup<V>(s: Seq<(String, V)>, i: int)
    requires
        distinct_keys(s),
        0 <= i < s.len(),
    ensures
        pairs_map(s).contains_key(pair_key(s[i])),
        pairs_map(s)[pair_key(s[i])] == s[i].1,
{
    let k = pair_key(s[i]);
    assert(exists|j: int| 0 <= j < s.len() && #[trigger] pair_key(s[j]) == k);
    let c = choose|j: int| 0 <= j < s.len() && #[trigger] pair_key(s[j]) == k;
    if c < i {
        assert(pair_key(s[c]) != pair_key(s[i]));
    } else if c > i {
        assert(pair_key(s[i]) != pair_key(s[c]));
    }
}

/// Removing the pair at `i` removes its key from the map.
proof fn lemma_pairs_remove<V>(s: Seq<(String, V)>, i: int)
    requires
        distinct_keys(s),
        0 <= i < s.len(),
    ensures
        distinct_keys(s.remove(i)),
        pairs_map(s.remove(i)) == pairs_map(s).remove(pair_key(s[i])),
{
    let t = s.remove(i);
    let key = pair_key(s[i]);
    assert forall|a: int, b: int| 0 <= a < b < t.len() implies #[trigger] pair_key(t[a])
        != #[trigger] pair_key(t[b]) by {
        let a2 = if a < i {
            a
        } else {
            a + 1
        };
        let b2 = if b < i {
            b
        } else {
            b + 1
        };
        assert(t[a] == s[a2] && t[b] == s[b2]);
    }
    assert forall|k: Seq<char>|
        #![trigger pairs_map(t).contains_key(k)]
        pairs_map(t).contains_key(k) == pairs_map(s).remove(key).contains_key(k) && (pairs_map(
            t,
        ).contains_key(k) ==> pairs_map(t)[k] == pairs_map(s).remove(key)[k]) by {
        if pairs_map(t).contains_key(k) {
            let j = choose|j: int| 0 <= j < t.len() && #[trigger] pair_key(t[j]) == k;
            let j2 = if j < i {
                j
            } else {
                j + 1
            };
            assert(t[j] == s[j2]);
            assert(j2 != i);
            lemma_pairs_lookup(s, j2);
            lemma_pairs_lookup(t, j);
        }
        if pairs_map(s).contains_key(k) && k != key {
            let j = choose|j: int| 0 <= j < s.len() && #[trigger] pair_key(s[j]) == k;
            assert(j != i);
            let j2 = if j < i {
                j
            } else {
                j - 1
            };
            assert(t[j2] == s[j]);
            assert(pair_key(t[j2]) == k);
        }
        if k == key && pairs_map(t).contains_key(k) {
            let j = choose|j: int| 0 <= j < t.len() && #[trigger] pair_key(t[j]) == k;
            let j2 = if j < i {
                j
            } else {
                j + 1
            };
            assert(t[j] == s[j2]);
            if j2 < i {
                assert(pair_key(s[j2]) != pair_key(s[i]));
            } else {
                assert(pair_key(s[i]) != pair_key(s[j2]));
            }
        }
    }
    assert(pairs_map(t) =~= pairs_map(s).remove(key));
}

/// The keys that a map of flags maps to `true`.
pub open spec fn flagged_keys(flags: Map<Seq<char>, bool>) -> Set<Seq<char>> {
    Set::new(|k: Seq<char>| flags.contains_key(k) && flags[k])
}

/// A map from text keys to values.
pub struct StrMap<V> {
    entries: Vec<(String, V)>,
}

impl<V> View for StrMap<V> {
    type V = Map<Seq<char>, V>;

    closed spec fn view(&self) -> Map<Seq<char>, V> {
        pairs_map(self.entries@)
    }
}

impl<V> StrMap<V> {
    #[verifier::type_invariant]
    closed spec fn keys_distinct(&self) -> bool {
        distinct_keys(self.entries@)
    }

    /// The pairs of the map in their stored order.
    pub closed spec fn pairs(&self) -> Seq<(String, V)> {
        self.entries@
    }

    /// The empty map.
    pub fn new() -> (res: Self)
        ensures
            res@ == Map::<Seq<char>, V>::empty(),
            res.pairs().len() == 0,
    {
        let res = StrMap { entries: Vec::new() };
        assert(res@ =~= Map::<Seq<char>, V>::empty());
        res
    }

    /// The number of keys (the stored pairs have distinct keys and denote
    /// the map).
    pub fn len(&self) -> (res: usize)
        ensures
            res == self@.len(),
            res == self.pairs().len(),
            distinct_keys(self.pairs()),
            pairs_map(self.pairs()) == self@,
            self@.dom().finite(),
    {
        proof {
            use_type_invariant(self);
            lemma_pairs_len(self.entries@);
        }
        self.entries.len()
    }

    /// The pair stored at position `i`.
    pub fn pair_at(&self, i: usize) -> (res: (&String, &V))
        requires
            i < self.pairs().len(),
        ensures
            *res.0 == self.pairs()[i as int].0,
            *res.1 == self.pairs()[i as int].1,
    {
        (&self.entries[i].0, &self.entries[i].1)
    }

    fn find(&self, key: &str) -> (res: Option<usize>)
        ensures
            match res {
                Some(i) => i < self.entries@.len() && pair_key(self.entries@[i as int]) == key@,
                None => forall|j: int|
                    0 <= j < self.entries@.len() ==> #[trigger] pair_key(self.entries@[j]) != key@,
            },
    {
        let mut i: usize = 0;
        while i < self.entries.len()
            invariant
                i <= self.entries@.len(),
                forall|j: int| 0 <= j < i ==> #[trigger] pair_key(self.entries@[j]) != key@,
            decreases self.entries@.len() - i,
        {
            if str_eq(self.entries[i].0.as_str(), key) {
                return Some(i);
            }
            i = i + 1;
        }
        None
    }

    /// The value of `key`, if the key is present.
    pub fn get(&self, key: &str) -> (res: Option<&V>)
        ensures
            match res {
                Some(v) => self@.contains_key(key@) && *v == self@[key@],
                None => !self@.contains_key(key@),
            },
    {
        proof {
            use_type_invariant(self);
        }
        match self.find(key) {
            Some(i) => {
                proof {
                    lemma_pairs_lookup(self.entries@, i as int);
                }
                Some(&self.entries[i].1)
            },
            None => None,
        }
    }

    /// Sets the value of `key`; gives back the value it replaced.
    pub fn insert(&mut self, key: String, value: V) -> (res: Option<V>)
        ensures
            final(self)@ == old(self)@.insert(key@, value),
            match res {
                Some(v) => old(self)@.contains_key(key@) && v == old(self)@[key@],
                None => !old(self)@.contains_key(key@),
            },
    {
        proof {
            use_type_invariant(&*self);
        }
        let ghost old_entries = self.entries@;
        let ghost kv = key@;
        let found = self.find(key.as_str());
        let mut entries: Vec<(String, V)> = Vec::new();
        std::mem::swap(&mut entries, &mut self.entries);
        let res = match found {
            Some(i) => {
                proof {
                    lemma_pairs_lookup(old_entries, i as int);
                }
                let old_pair = entries.remove(i);
                let ghost removed = entries@;
                entries.insert(i, (key, value));
                proof {
                    assert(entries@ =~= old_entries.update(i as int, (entries@[i as int].0, value)));
                }
                Some(old_pair.1)
            },
            None => {
                entries.push((key, value));
                None
            },
        };
        proof {
            let s = entries@;
            assert(distinct_keys(s)) by {
                assert forall|a: int, b: int| 0 <= a < b < s.len() implies #[trigger] pair_key(s[a])
                    != #[trigger] pair_key(s[b]) by {
                    if found is None {
                        if b == s.len() - 1 {
                            assert(pair_key(old_entries[a]) != kv);
                        } else {
                            assert(pair_key(old_entries[a]) != pair_key(old_entries[b]));
                        }
                    } else {
                        let fi = found->0 as int;
                        if a == fi {
                            assert(pair_key(old_entries[fi]) != pair_key(old_entries[b]));
                        } else if b == fi {
                            assert(pair_key(old_entries[a]) != pair_key(old_entries[fi]));
                        } else {
                            assert(pair_key(old_entries[a]) != pair_key(old_entries[b]));
                        }
                    }
                }
            }
            assert forall|k: Seq<char>|
                #![trigger pairs_map(s).contains_key(k)]
                pairs_map(s).contains_key(k) == pairs_map(old_entries).insert(kv, value).contains_key(k)
                    && (pairs_map(s).contains_key(k) ==> pairs_map(s)[k] == pairs_map(
                    old_entries,
                ).insert(kv, value)[k]) by {
                if k == kv {
                    let idx = if found is Some {
                        found->0 as int
                    } else {
                        s.len() - 1
                    };
                    assert(pair_key(s[idx]) == kv);
                    lemma_pairs_lookup(s, idx);
                } else {
                    if pairs_map(old_entries).contains_key(k) {
                        let j = choose|j: int|
                            0 <= j < old_entries.len() && #[trigger] pair_key(old_entries[j]) == k;
                        lemma_pairs_lookup(old_entries, j);
                        assert(s[j] == old_entries[j]);
                        lemma_pairs_lookup(s, j);
                    }
                    if pairs_map(s).contains_key(k) {
                        let j = choose|j: int| 0 <= j < s.len() && #[trigger] pair_key(s[j]) == k;
                        assert(j < old_entries.len() && s[j] == old_entries[j]);
                        assert(pair_key(old_entries[j]) == k);
                    }
                }
            }
            assert(pairs_map(s) =~= pairs_map(old_entries).insert(kv, value));
        }
        self.entries = entries;
        res
    }

    /// Removes `key`; gives back its value if it was present.
    pub fn remove(&mut self, key: &str) -> (res: Option<V>)
        ensures
            final(self)@ == old(self)@.remove(key@),
            match res {
                Some(v) => old(self)@.contains_key(key@) && v == old(self)@[key@],
                None => !old(self)@.contains_key(key@),
            },
    {
        proof {
            use_type_invariant(&*self);
        }
        let ghost old_entries = self.entries@;
        match self.find(key) {
            Some(i) => {
                proof {
                    lemma_pairs_lookup(old_entries, i as int);
                    lemma_pairs_remove(old_entries, i as int);
                }
                let mut entries: Vec<(String, V)> = Vec::new();
                std::mem::swap(&mut entries, &mut self.entries);
                let pair = entries.remove(i);
                self.entries = entries;
                Some(pair.1)
            },
            None => {
                proof {
                    assert(pairs_map(old_entries).remove(key@) =~= pairs_map(old_entries));
                }
                None
            },
        }
    }

    /// Keeps only the keys that `flags` maps to `true`.
    pub fn retain_flagged(&mut self, flags: &StrMap<bool>)
        ensures
            final(self)@ == old(self)@.restrict(flagged_keys(flags@)),
    {
        proof {
            use_type_invariant(&*self);
        }
        let ghost old_map = pairs_map(self.entries@);
        let ghost mut removed: Set<Seq<char>> = Set::empty();
        let mut entries: Vec<(String, V)> = Vec::new();
        std::mem::swap(&mut entries, &mut self.entries);
        let mut i: usize = 0;
        while i < entries.len()
            invariant
                i <= entries@.len(),
                distinct_keys(entries@),
                pairs_map(entries@) == old_map.remove_keys(removed),
                forall|k: Seq<char>| #[trigger] removed.contains(k) ==> !flagged_keys(flags@).contains(k),
                forall|j: int| 0 <= j < i ==> flagged_keys(flags@).contains(#[trigger] pair_key(entries@[j])),
            decreases entries@.len() - i,
        {
            let keep = match flags.get(entries[i].0.as_str()) {
                Some(b) => *b,
                None => false,
            };
            if keep {
                i = i + 1;
            } else {
                let ghost before = entries@;
                let ghost key = pair_key(before[i as int]);
                proof {
                    lemma_pairs_remove(before, i as int);
                    assert(old_map.remove_keys(removed).remove(key) =~= old_map.remove_keys(removed.insert(key)));
                    removed = removed.insert(key);
                }
                entries.remove(i);
                proof {
                    assert(entries@ =~= before.remove(i as int));
                    assert forall|j: int| 0 <= j < i implies flagged_keys(flags@).contains(
                        #[trigger] pair_key(entries@[j]),
                    ) by {
                        assert(entries@[j] == before[j]);
                    }
                }
            }
        }
        proof {
            let fin = pairs_map(entries@);
            assert forall|k: Seq<char>|
                #![trigger fin.contains_key(k)]
                fin.contains_key(k) == old_map.restrict(flagged_keys(flags@)).contains_key(k) && (
                fin.contains_key(k) ==> fin[k] == old_map.restrict(flagged_keys(flags@))[k]) by {
                if fin.contains_key(k) {
                    let j = choose|j: int| 0 <= j < entries@.len() && #[trigger] pair_key(entries@[j]) == k;
                    assert(flagged_keys(flags@).contains(pair_key(entries@[j])));
                }
            }
            assert(fin =~= old_map.restrict(flagged_keys(flags@)));
        }
        self.entries = entries;
    }

    /// Removes every key.
    pub fn clear(&mut self)
        ensures
            final(self)@ == Map::<Seq<char>, V>::empty(),
    {
        self.entries = Vec::new();
        proof {
            assert(pairs_map(self.entries@) =~= Map::<Seq<char>, V>::empty());
        }
    }
}

proof fn lemma_pairs_len<V>(s: Seq<(String, V)>)
    requires
        distinct_keys(s),
    ensures
        pairs_map(s).len() == s.len(),
        pairs_map(s).dom().finite(),
    decreases s.len(),
{
    if s.len() == 0 {
        assert(pairs_map(s).dom() =~= Set::<Seq<char>>::empty());
    } else {
        let last = s.len() - 1;
        let t = s.remove(last);
        lemma_pairs_remove(s, last);
        lemma_pairs_len(t);
        lemma_pairs_lookup(s, last);
        assert(pairs_map(s).dom() =~= pairs_map(t).dom().insert(pair_key(s[last])));
    }
}

} // verus!

//! The cache of application icons, most recently used first, holding at most
//! `ICON_CACHE_LIMIT` icons keyed by executable path.

use vstd::prelude::*;

use crate::text::{str_eq, to_owned_string};

verus! {

/// How many icons the cache holds at most.
pub const ICON_CACHE_LIMIT: usize = 50;

/// The cache's entries, most recently used first: (path, icon).
pub type CacheView = Seq<(Seq<char>, Seq<char>)>;

/// The texts of a cache entry (path, icon).
pub open spec fn entry_view(e: (String, String)) -> (Seq<char>, Seq<char>) {
    (e.0@, e.1@)
}

/// The texts of the cache entries, most recently used first.
pub open spec fn entries_view(s: Seq<(String, String)>) -> CacheView {
    Seq::new(s.len(), |i: int| entry_view(s[i]))
}

/// No path occurs twice.
pub open spec fn distinct_paths(s: CacheView) -> bool {
    forall|i: int, j: int| 0 <= i < j < s.len() ==> #[trigger] s[i].0 != #[trigger] s[j].0
}

/// The position of a path in the cache, if it is there.
pub open spec fn position_of(s: CacheView, path: Seq<char>) -> Option<int> {
    if exists|i: int| 0 <= i < s.len() && #[trigger] s[i].0 == path {
        Some(choose|i: int| 0 <= i < s.len() && #[trigger] s[i].0 == path)
    } else {
        None
    }
}

/// The cache after a lookup of `path`: a hit moves the entry to the front.
pub open spec fn get_spec(s: CacheView, path: Seq<char>) -> (CacheView, Option<Seq<char>>) {
    match position_of(s, path) {
        Some(i) => (seq![(path, s[i].1)] + s.remove(i), Some(s[i].1)),
        None => (s, None),
    }
}

/// The cache after storing `icon` for `path`: the entry goes to the front,
/// replacing an earlier one for the path; past the limit the least recently
/// used entry is dropped.
pub open spec fn put_spec(s: CacheView, path: Seq<char>, icon: Seq<char>) -> CacheView {
    let rest = match position_of(s, path) {
        Some(i) => s.remove(i),
        None => s,
    };
    let front = seq![(path, icon)] + rest;
    if front.len() > ICON_CACHE_LIMIT {
        front.drop_last()
    } else {
        front
    }
}

proof fn lemma_position(s: CacheView, path: Seq<char>, k: int)
    requires
        distinct_paths(s),
        0 <= k < s.len(),
        s[k].0 == path,
    ensures
        position_of(s, path) == Some(k),
{
    let c = choose|i: int| 0 <= i < s.len() && #[trigger] s[i].0 == path;
    if c != k {
        if c < k {
            assert(s[c].0 != s[k].0);
        } else {
            assert(s[k].0 != s[c].0);
        }
    }
}

proof fn lemma_front_distinct(s: CacheView, path: Seq<char>, icon: Seq<char>, i: Option<int>)
    requires
        distinct_paths(s),
        match i {
            Some(k) => 0 <= k < s.len() && s[k].0 == path,
            None => forall|j: int| 0 <= j < s.len() ==> #[trigger] s[j].0 != path,
        },
    ensures
        ({
            let rest = match i {
                Some(k) => s.remove(k),
                None => s,
            };
            &&& distinct_paths(seq![(path, icon)] + rest)
            &&& distinct_paths((seq![(path, icon)] + rest).drop_last())
        }),
{
    let rest = match i {
        Some(k) => s.remove(k),
        None => s,
    };
    let front = seq![(path, icon)] + rest;
    assert forall|a: int, b: int| 0 <= a < b < front.len() implies #[trigger] front[a].0 != #[trigger] front[b].0 by {
        let b2 = match i {
            Some(k) => if b - 1 < k {
                b - 1
            } else {
                b
            },
            None => b - 1,
        };
        assert(front[b] == s[b2]);
        if a == 0 {
            if let Some(k) = i {
                assert(b2 != k);
                if b2 < k {
                    assert(s[b2].0 != s[k].0);
                } else {
                    assert(s[k].0 != s[b2].0);
                }
            }
        } else {
            let a2 = match i {
                Some(k) => if a - 1 < k {
                    a - 1
                } else {
                    a
                },
                None => a - 1,
            };
            assert(front[a] == s[a2]);
            assert(a2 < b2);
        }
    }
    let d = front.drop_last();
    assert forall|a: int, b: int| 0 <= a < b < d.len() implies #[trigger] d[a].0 != #[trigger] d[b].0 by {
        assert(d[a] == front[a] && d[b] == front[b]);
    }
}

/// The icon cache.
pub struct IconCache {
    entries: Vec<(String, String)>,
}

impl View for IconCache {
    type V = CacheView;

    closed spec fn view(&self) -> CacheView {
        entries_view(self.entries@)
    }
}

impl IconCache {
    #[verifier::type_invariant]
    closed spec fn wf(&self) -> bool {
        &&& distinct_paths(entries_view(self.entries@))
        &&& self.entries@.len() <= ICON_CACHE_LIMIT
    }

    /// An empty cache.
    pub fn new() -> (res: Self)
        ensures
            res@ == Seq::<(Seq<char>, Seq<char>)>::empty(),
    {
        let res = IconCache { entries: Vec::new() };
        assert(res@ =~= Seq::<(Seq<char>, Seq<char>)>::empty());
        res
    }

    /// The cache holds at most `ICON_CACHE_LIMIT` icons, each path once.
    pub fn len(&self) -> (res: usize)
        ensures
            res == self@.len(),
            res <= ICON_CACHE_LIMIT,
            distinct_paths(self@),
    {
        proof {
            use_type_invariant(self);
        }
        self.entries.len()
    }

    fn find(&self, path: &str) -> (res: Option<usize>)
        ensures
            match res {
                Some(i) => i < self@.len() && self@[i as int].0 == path@,
                None => forall|j: int| 0 <= j < self@.len() ==> #[trigger] self@[j].0 != path@,
            },
    {
        let mut i: usize = 0;
        while i < self.entries.len()
            invariant
                i <= self.entries@.len(),
                forall|j: int| 0 <= j < i ==> #[trigger] self@[j].0 != path@,
            decreases self.entries@.len() - i,
        {
            if str_eq(self.entries[i].0.as_str(), path) {
                return Some(i);
            }
            i = i + 1;
        }
        None
    }

    /// The cached icon of `path`, if any; a hit makes it the most recently
    /// used.
    pub fn get(&mut self, path: &str) -> (res: Option<String>)
        ensures
            (final(self)@, match res {
                Some(s) => Some(s@),
                None => None::<Seq<char>>,
            }) == get_spec(old(self)@, path@),
            final(self)@.len() <= ICON_CACHE_LIMIT,
    {
        proof {
            use_type_invariant(&*self);
        }
        let ghost old_view = self@;
        match self.find(path) {
            Some(pos) => {
                proof {
                    lemma_position(old_view, path@, pos as int);
                    lemma_front_distinct(old_view, path@, old_view[pos as int].1, Some(pos as int));
                }
                let mut entries: Vec<(String, String)> = Vec::new();
                std::mem::swap(&mut entries, &mut self.entries);
                let (_, value) = entries.remove(pos);
                let copy = value.clone();
                let ghost removed = entries@;
                entries.insert(0, (to_owned_string(path), value));
                proof {
                    assert(entries_view(removed) =~= old_view.remove(pos as int));
                    assert(entries_view(entries@) =~= seq![(path@, old_view[pos as int].1)]
                        + old_view.remove(pos as int));
                }
                self.entries = entries;
                Some(copy)
            },
            None => None,
        }
    }

    /// Stores the icon of `path` as the most recently used, replacing an
    /// earlier one; past the limit the least recently used icon is dropped.
    pub fn put(&mut self, path: &str, value: String)
        ensures
            final(self)@ == put_spec(old(self)@, path@, value@),
            final(self)@.len() <= ICON_CACHE_LIMIT,
    {
        proof {
            use_type_invariant(&*self);
        }
        let ghost old_view = self@;
        let ghost vv = value@;
        let found = self.find(path);
        proof {
            match found {
                Some(pos) => {
                    lemma_position(old_view, path@, pos as int);
                    lemma_front_distinct(old_view, path@, vv, Some(pos as int));
                },
                None => {
                    if exists|i: int| 0 <= i < old_view.len() && #[trigger] old_view[i].0 == path@ {
                        let k = choose|i: int| 0 <= i < old_view.len() && #[trigger] old_view[i].0 == path@;
                        assert(old_view[k].0 != path@);
                    }
                    lemma_front_distinct(old_view, path@, vv, None);
                },
            }
        }
        let mut entries: Vec<(String, String)> = Vec::new();
        std::mem::swap(&mut entries, &mut self.entries);
        match found {
            Some(pos) => {
                entries.remove(pos);
            },
            None => {},
        }
        let ghost rest = entries@;
        entries.insert(0, (to_owned_string(path), value));
        proof {
            let r = match found {
                Some(pos) => old_view.remove(pos as int),
                None => old_view,
            };
            assert(entries_view(rest) =~= r);
            assert(entries_view(entries@) =~= seq![(path@, vv)] + r);
        }
        if entries.len() > ICON_CACHE_LIMIT {
            let ghost full = entries@;
            entries.pop();
            proof {
                assert(entries_view(entries@) =~= entries_view(full).drop_last());
            }
        }
        self.entries = entries;
    }
}

/// An icon stored for a path is what a lookup of that path then gives, and
/// it is then the most recently used entry.
pub proof fn lemma_get_after_put(s: CacheView, path: Seq<char>, icon: Seq<char>)
    requires
        distinct_paths(s),
        s.len() <= ICON_CACHE_LIMIT,
    ensures
        get_spec(put_spec(s, path, icon), path).1 == Some(icon),
        get_spec(put_spec(s, path, icon), path).0 == put_spec(s, path, icon),
        put_spec(s, path, icon).len() <= ICON_CACHE_LIMIT,
        put_spec(s, path, icon)[0] == (path, icon),
{
    let t = put_spec(s, path, icon);
    let i = position_of(s, path);
    if let Some(k) = i {
        let c = choose|j: int| 0 <= j < s.len() && #[trigger] s[j].0 == path;
        lemma_position(s, path, c);
        lemma_front_distinct(s, path, icon, Some(c));
    } else {
        assert forall|j: int| 0 <= j < s.len() implies #[trigger] s[j].0 != path by {
            if s[j].0 == path {
                assert(exists|i: int| 0 <= i < s.len() && #[trigger] s[i].0 == path);
            }
        }
        lemma_front_distinct(s, path, icon, None);
    }
    assert(t[0] == (path, icon));
    lemma_position(t, path, 0);
    assert(t.remove(0) =~= t.drop_first());
    assert(seq![(path, icon)] + t.drop_first() =~= t);
}

/// The cache never holds more than `ICON_CACHE_LIMIT` icons, nor a path twice,
/// whatever is stored or looked up.
pub proof fn lemma_cache_bounded(s: CacheView, path: Seq<char>, icon: Seq<char>)
    requires
        distinct_paths(s),
        s.len() <= ICON_CACHE_LIMIT,
    ensures
        put_spec(s, path, icon).len() <= ICON_CACHE_LIMIT,
        distinct_paths(put_spec(s, path, icon)),
        get_spec(s, path).0.len() == s.len(),
        distinct_paths(get_spec(s, path).0),
{
    if let Some(k) = position_of(s, path) {
        let c = choose|j: int| 0 <= j < s.len() && #[trigger] s[j].0 == path;
        lemma_position(s, path, c);
        lemma_front_distinct(s, path, icon, Some(c));
        lemma_front_distinct(s, path, s[c].1, Some(c));
    } else {
        assert forall|j: int| 0 <= j < s.len() implies #[trigger] s[j].0 != path by {
            if s[j].0 == path {
                assert(exists|i: int| 0 <= i < s.len() && #[trigger] s[i].0 == path);
            }
        }
        lemma_front_distinct(s, path, icon, None);
    }
}

} // verus!

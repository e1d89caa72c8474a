//! Where the cats are drawn: the user's own cursor and the friends' cursors
//! (for friends with an active doll), ordered by user id, and the grid in which
//! they gather when the scene setup pins them to a side or corner of the
//! screen.

use vstd::prelude::*;

use crate::friends::{
    doll_flags, listed_friend_has_doll, FriendCursorProjection,
};
use crate::models::{FriendshipResponseDto, NekoPosition, UserData};
use crate::str_map::{distinct_keys, flagged_keys, pair_key, pairs_map};
use crate::text::to_owned_string;
use vstd::utf8::encode_utf8;

verus! {

broadcast use vstd::seq_lib::to_multiset_insert, vstd::seq_lib::to_multiset_build, vstd::seq_lib::to_multiset_contains;

/// The cursors behind the cats: the user's own, and the friends'.
pub struct NekoPositionsProjection<P> {
    self_cursor: Option<P>,
    friends: FriendCursorProjection<P>,
}

/// The projection as values.
pub struct NekoProjectionView<P> {
    pub self_cursor: Option<P>,
    pub active_dolls: Map<Seq<char>, bool>,
    pub friend_cursors: Map<Seq<char>, P>,
}

impl<P> View for NekoPositionsProjection<P> {
    type V = NekoProjectionView<P>;

    closed spec fn view(&self) -> NekoProjectionView<P> {
        NekoProjectionView {
            self_cursor: self.self_cursor,
            active_dolls: self.friends@.active_dolls,
            friend_cursors: self.friends@.positions,
        }
    }
}

impl<P: Copy> NekoPositionsProjection<P> {
    /// No cursor known.
    pub fn new() -> (res: Self)
        ensures
            res@.self_cursor is None,
            res@.active_dolls == Map::<Seq<char>, bool>::empty(),
            res@.friend_cursors == Map::<Seq<char>, P>::empty(),
    {
        NekoPositionsProjection { self_cursor: None, friends: FriendCursorProjection::new() }
    }

    /// Rebuilds the friends' active-doll flags from the friend list and drops
    /// the cursors of friends without an active doll; the snapshot is then
    /// sent.
    pub fn sync_from_app_data(&mut self, friends: &Vec<FriendshipResponseDto>)
        ensures
            final(self)@.self_cursor == old(self)@.self_cursor,
            final(self)@.active_dolls == doll_flags(friends@),
            final(self)@.friend_cursors == old(self)@.friend_cursors.restrict(
                flagged_keys(doll_flags(friends@)),
            ),
    {
        self.friends.sync_from_app_data(friends);
    }

    /// Forgets every cursor and flag; the snapshot is then sent.
    pub fn clear(&mut self)
        ensures
            final(self)@.self_cursor is None,
            final(self)@.active_dolls == Map::<Seq<char>, bool>::empty(),
            final(self)@.friend_cursors == Map::<Seq<char>, P>::empty(),
    {
        self.self_cursor = None;
        self.friends.clear();
    }

    /// Records the user's own cursor; the snapshot is then sent.
    pub fn update_self_cursor(&mut self, position: P)
        ensures
            final(self)@.self_cursor == Some(position),
            final(self)@.active_dolls == old(self)@.active_dolls,
            final(self)@.friend_cursors == old(self)@.friend_cursors,
    {
        self.self_cursor = Some(position);
    }

    /// Records a friend's cursor if the friend has an active doll (the known
    /// flag, or else what the friend list says); the snapshot is sent then, or
    /// when a cursor of a friend without one is dropped.
    pub fn update_friend_cursor(
        &mut self,
        user_id: String,
        position: P,
        friends: Option<&Vec<FriendshipResponseDto>>,
    ) -> (emit: bool)
        ensures
            final(self)@.self_cursor == old(self)@.self_cursor,
            ({
                let known = old(self)@.active_dolls.contains_key(user_id@);
                let with_doll = if known {
                    old(self)@.active_dolls[user_id@]
                } else {
                    friends matches Some(f) && listed_friend_has_doll(f@, user_id@)
                };
                &&& final(self)@.active_dolls == old(self)@.active_dolls.insert(user_id@, with_doll)
                &&& with_doll ==> final(self)@.friend_cursors == old(self)@.friend_cursors.insert(
                    user_id@,
                    position,
                ) && emit
                &&& !with_doll ==> final(self)@.friend_cursors == old(self)@.friend_cursors.remove(
                    user_id@,
                ) && emit == old(self)@.friend_cursors.contains_key(user_id@)
            }),
    {
        self.friends.update_position(user_id, position, friends)
    }

    /// Forgets a friend; the snapshot is sent if the friend's flag or cursor
    /// was known.
    pub fn remove_friend(&mut self, user_id: &str) -> (emit: bool)
        ensures
            final(self)@.self_cursor == old(self)@.self_cursor,
            final(self)@.active_dolls == old(self)@.active_dolls.remove(user_id@),
            final(self)@.friend_cursors == old(self)@.friend_cursors.remove(user_id@),
            emit == (old(self)@.active_dolls.contains_key(user_id@)
                || old(self)@.friend_cursors.contains_key(user_id@)),
    {
        self.friends.remove_friend(user_id)
    }

    /// Records whether a friend has an active doll; without one the friend's
    /// cursor is dropped (the snapshot is sent only if there was one).
    pub fn set_friend_active_doll(&mut self, user_id: &str, has_active_doll: bool) -> (emit: bool)
        ensures
            final(self)@.self_cursor == old(self)@.self_cursor,
            final(self)@.active_dolls == old(self)@.active_dolls.insert(user_id@, has_active_doll),
            has_active_doll ==> final(self)@.friend_cursors == old(self)@.friend_cursors && !emit,
            !has_active_doll ==> final(self)@.friend_cursors == old(self)@.friend_cursors.remove(
                user_id@,
            ) && emit == old(self)@.friend_cursors.contains_key(user_id@),
    {
        self.friends.set_active_doll(user_id, has_active_doll)
    }

    /// The entries of the snapshot sent when the scene setup changes.
    pub fn refresh_from_scene_setup(&self, data: &UserData) -> (res: Vec<NekoEntry<P>>)
        ensures
            snapshot_ok(entries_view(res@), self@, *data),
    {
        self.snapshot_entries(data)
    }

    /// The cats to draw: the user's own (with the user's id) when the user has
    /// an active doll and a known cursor, and each friend flagged with an
    /// active doll who has a cursor, ordered by user id (bytewise; the user's
    /// own first among equal ids).
    pub fn snapshot_entries(&self, data: &UserData) -> (res: Vec<NekoEntry<P>>)
        ensures
            snapshot_ok(entries_view(res@), self@, *data),
    {
        let mut entries: Vec<NekoEntry<P>> = Vec::new();
        let self_has_doll = match &data.user {
            Some(u) => u.active_doll_id.is_some(),
            None => false,
        };
        if self_has_doll {
            match (&data.user, &self.self_cursor) {
                (Some(u), Some(c)) => {
                    entries.push(
                        NekoEntry { user_id: to_owned_string(u.id.as_str()), is_self: true, cursor: *c },
                    );
                },
                _ => {},
            }
        }
        proof {
            assert(entries_view(entries@) =~= self_entries(self@, *data));
        }
        let n = self.friends.cursor_count();
        let mut i: usize = 0;
        while i < n
            invariant
                n == self.friends.cursor_pairs().len(),
                i <= n,
                entries_view(entries@) == self_entries(self@, *data) + friend_entries(
                    self.friends.cursor_pairs().take(i as int),
                    self@.active_dolls,
                ),
            decreases n - i,
        {
            let (id, cursor) = self.friends.cursor_at(i);
            let flagged = self.friends.flag_of(id.as_str());
            let ghost prefix = self.friends.cursor_pairs().take(i as int);
            let ghost before = entries@;
            proof {
                assert(self.friends.cursor_pairs().take(i + 1).drop_last() =~= prefix);
                assert(self.friends.cursor_pairs().take(i + 1).last() == self.friends.cursor_pairs()[i as int]);
            }
            if flagged {
                entries.push(NekoEntry { user_id: to_owned_string(id.as_str()), is_self: false, cursor: *cursor });
                proof {
                    assert(entries_view(entries@) =~= entries_view(before).push(
                        (id@, false, *cursor),
                    ));
                }
            }
            i = i + 1;
        }
        proof {
            assert(self.friends.cursor_pairs().take(n as int) =~= self.friends.cursor_pairs());
            lemma_candidates(self@, *data, self.friends.cursor_pairs());
            assert(entries_view(entries@) == candidates(self@, *data, self.friends.cursor_pairs()));
        }
        let sorted = sort_by_user_id(entries);
        proof {
            lemma_snapshot(entries_view(sorted@), self@, *data, self.friends.cursor_pairs());
        }
        sorted
    }
}

/// One cat of the snapshot.
pub struct NekoEntry<P> {
    pub user_id: String,
    pub is_self: bool,
    pub cursor: P,
}

/// An entry as a value: user id, whether it is the user's own, cursor.
pub type EntryView<P> = (Seq<char>, bool, P);

/// The mathematical value of snapshot entries.
pub open spec fn entries_view<P>(s: Seq<NekoEntry<P>>) -> Seq<EntryView<P>> {
    Seq::new(s.len(), |i: int| (s[i].user_id@, s[i].is_self, s[i].cursor))
}

/// The user's own entry, when the user has an active doll and a known cursor.
pub open spec fn self_entries<P>(v: NekoProjectionView<P>, data: UserData) -> Seq<EntryView<P>> {
    match (data.user, v.self_cursor) {
        (Some(u), Some(c)) => if u.active_doll_id is Some {
            seq![(u.id@, true, c)]
        } else {
            Seq::empty()
        },
        _ => Seq::empty(),
    }
}

/// The friends' entries of a list of (friend id, cursor) pairs: those whose
/// flag says they have an active doll, in list order.
pub open spec fn friend_entries<P>(pairs: Seq<(String, P)>, flags: Map<Seq<char>, bool>) -> Seq<
    EntryView<P>,
>
    decreases pairs.len(),
{
    if pairs.len() == 0 {
        Seq::empty()
    } else {
        let prev = friend_entries(pairs.drop_last(), flags);
        let last = pairs.last();
        if flagged_keys(flags).contains(last.0@) {
            prev.push((last.0@, false, last.1))
        } else {
            prev
        }
    }
}

/// Byte order of texts, as `String`'s `Ord` compares them.
pub open spec fn bytes_le(a: Seq<u8>, b: Seq<u8>) -> bool
    decreases a.len(),
{
    if a.len() == 0 {
        true
    } else if b.len() == 0 {
        false
    } else if a[0] < b[0] {
        true
    } else if a[0] > b[0] {
        false
    } else {
        bytes_le(a.drop_first(), b.drop_first())
    }
}

/// Byte order of user ids.
pub open spec fn id_le(a: Seq<char>, b: Seq<char>) -> bool {
    bytes_le(encode_utf8(a), encode_utf8(b))
}

/// What the snapshot holds: entries ordered by user id, the user's own first
/// among equal ids; the user's own entry exactly when the user has an active
/// doll and a known cursor; one entry for each friend flagged with an active
/// doll who has a cursor, with that cursor, and no other.
pub open spec fn snapshot_ok<P>(res: Seq<EntryView<P>>, v: NekoProjectionView<P>, data: UserData) -> bool {
    &&& forall|i: int, j: int| 0 <= i < j < res.len() ==> id_le(#[trigger] res[i].0, #[trigger] res[j].0)
    &&& forall|i: int, j: int|
        0 <= i < j < res.len() && #[trigger] res[i].0 == #[trigger] res[j].0 ==> res[i].1 && !res[j].1
    &&& forall|i: int| 0 <= i < res.len() && (#[trigger] res[i]).1 ==> self_entries(v, data) == seq![res[i]]
    &&& self_entries(v, data).len() > 0 ==> exists|i: int| 0 <= i < res.len() && (#[trigger] res[i]).1
    &&& forall|i: int|
        0 <= i < res.len() && !(#[trigger] res[i]).1 ==> v.friend_cursors.contains_key(res[i].0)
            && flagged_keys(v.active_dolls).contains(res[i].0) && v.friend_cursors[res[i].0] == res[i].2
    &&& forall|k: Seq<char>|
        #[trigger] v.friend_cursors.contains_key(k) && flagged_keys(v.active_dolls).contains(k) ==> exists|
            i: int,
        | 0 <= i < res.len() && !(#[trigger] res[i]).1 && res[i].0 == k
}

proof fn lemma_bytes_le_refl(a: Seq<u8>)
    ensures
        bytes_le(a, a),
    decreases a.len(),
{
    if a.len() > 0 {
        lemma_bytes_le_refl(a.drop_first());
    }
}

proof fn lemma_bytes_le_total(a: Seq<u8>, b: Seq<u8>)
    ensures
        bytes_le(a, b) || bytes_le(b, a),
    decreases a.len(),
{
    if a.len() > 0 && b.len() > 0 && a[0] == b[0] {
        lemma_bytes_le_total(a.drop_first(), b.drop_first());
    }
}

proof fn lemma_bytes_le_trans(a: Seq<u8>, b: Seq<u8>, c: Seq<u8>)
    requires
        bytes_le(a, b),
        bytes_le(b, c),
    ensures
        bytes_le(a, c),
    decreases a.len(),
{
    if a.len() > 0 && b.len() > 0 && c.len() > 0 && a[0] == b[0] && b[0] == c[0] {
        lemma_bytes_le_trans(a.drop_first(), b.drop_first(), c.drop_first());
    }
}

/// Compares two ids bytewise.
fn id_le_exec(a: &str, b: &str) -> (res: bool)
    ensures
        res == id_le(a@, b@),
{
    let x = a.as_bytes();
    let y = b.as_bytes();
    let ghost xs = encode_utf8(a@);
    let ghost ys = encode_utf8(b@);
    let mut j: usize = 0;
    proof {
        assert(xs.subrange(0, xs.len() as int) =~= xs);
        assert(ys.subrange(0, ys.len() as int) =~= ys);
    }
    while j < x.len() && j < y.len()
        invariant
            xs == encode_utf8(a@),
            ys == encode_utf8(b@),
            x@ == xs,
            y@ == ys,
            j <= x@.len(),
            j <= y@.len(),
            bytes_le(xs, ys) == bytes_le(
                xs.subrange(j as int, xs.len() as int),
                ys.subrange(j as int, ys.len() as int),
            ),
        decreases x@.len() - j,
    {
        let ghost sx = xs.subrange(j as int, xs.len() as int);
        let ghost sy = ys.subrange(j as int, ys.len() as int);
        proof {
            assert(sx[0] == x@[j as int] && sy[0] == y@[j as int]);
        }
        if x[j] < y[j] {
            return true;
        }
        if x[j] > y[j] {
            return false;
        }
        proof {
            assert(sx.drop_first() =~= xs.subrange(j + 1, xs.len() as int));
            assert(sy.drop_first() =~= ys.subrange(j + 1, ys.len() as int));
        }
        j = j + 1;
    }
    j == x.len()
}

/// Every entry of `s` other than the first is a friend's, and friends' ids
/// differ.
pub open spec fn self_first_friends_distinct<P>(s: Seq<EntryView<P>>) -> bool {
    &&& forall|i: int| 0 < i < s.len() ==> !(#[trigger] s[i]).1
    &&& forall|i: int, j: int|
        0 <= i < j < s.len() && !(#[trigger] s[i]).1 && !(#[trigger] s[j]).1 ==> s[i].0 != s[j].0
}

/// Sorts entries by user id (stable, so the user's own entry, placed first,
/// stays ahead of a friend's with the same id).
fn sort_by_user_id<P>(input: Vec<NekoEntry<P>>) -> (res: Vec<NekoEntry<P>>)
    requires
        self_first_friends_distinct(entries_view(input@)),
    ensures
        entries_view(res@).to_multiset() == entries_view(input@).to_multiset(),
        forall|i: int, j: int|
            0 <= i < j < res@.len() ==> id_le(
                #[trigger] entries_view(res@)[i].0,
                #[trigger] entries_view(res@)[j].0,
            ),
        forall|i: int, j: int|
            0 <= i < j < res@.len() && #[trigger] entries_view(res@)[i].0 == #[trigger] entries_view(
                res@,
            )[j].0 ==> entries_view(res@)[i].1 && !entries_view(res@)[j].1,
{
    let ghost inv = entries_view(input@);
    let mut rest = input;
    let mut out: Vec<NekoEntry<P>> = Vec::new();
    let ghost mut taken: int = 0;
    let n = rest.len();
    proof {
        assert(inv.take(0) =~= Seq::<EntryView<P>>::empty());
        assert(entries_view(out@) =~= Seq::<EntryView<P>>::empty());
        assert(entries_view(rest@) =~= inv.skip(0));
    }
    while rest.len() > 0
        invariant
            self_first_friends_distinct(inv),
            n == inv.len(),
            0 <= taken <= n,
            rest@.len() == n - taken,
            entries_view(rest@) == inv.skip(taken),
            entries_view(out@).to_multiset() == inv.take(taken).to_multiset(),
            forall|i: int, j: int|
                0 <= i < j < out@.len() ==> id_le(
                    #[trigger] entries_view(out@)[i].0,
                    #[trigger] entries_view(out@)[j].0,
                ),
            forall|i: int, j: int|
                0 <= i < j < out@.len() && #[trigger] entries_view(out@)[i].0
                    == #[trigger] entries_view(out@)[j].0 ==> entries_view(out@)[i].1
                    && !entries_view(out@)[j].1,
        decreases rest@.len(),
    {
        let ghost rest_before = rest@;
        let e = rest.remove(0);
        let ghost ev = (e.user_id@, e.is_self, e.cursor);
        let ghost before = entries_view(out@);
        proof {
            assert(inv.skip(taken)[0] == ev);
            assert(inv[taken] == ev);
            assert(rest@ =~= rest_before.subrange(1, rest_before.len() as int));
            assert forall|k: int| 0 <= k < rest@.len() implies entries_view(rest@)[k] == inv.skip(taken + 1)[k] by {
                assert(rest@[k] == rest_before[k + 1]);
                assert(entries_view(rest_before)[k + 1] == inv.skip(taken)[k + 1]);
            }
            assert(entries_view(rest@) =~= inv.skip(taken + 1));
            assert(inv.take(taken + 1) =~= inv.take(taken).push(ev));
        }
        let mut p: usize = 0;
        while p < out.len()
            invariant_except_break
                ev == (e.user_id@, e.is_self, e.cursor),
                p <= out@.len(),
                entries_view(out@) == before,
                forall|q: int| 0 <= q < p ==> id_le(#[trigger] before[q].0, ev.0),
            ensures
                ev == (e.user_id@, e.is_self, e.cursor),
                p <= out@.len(),
                entries_view(out@) == before,
                forall|q: int| 0 <= q < p ==> id_le(#[trigger] before[q].0, ev.0),
                p < out@.len() ==> !id_le(before[p as int].0, ev.0),
            decreases out@.len() - p,
        {
            proof {
                assert(before[p as int].0 == out@[p as int].user_id@);
            }
            if !id_le_exec(out[p].user_id.as_str(), e.user_id.as_str()) {
                break;
            }
            p = p + 1;
        }
        proof {
            if p < out@.len() {
                assert(!id_le(before[p as int].0, ev.0));
                lemma_bytes_le_total(encode_utf8(before[p as int].0), encode_utf8(ev.0));
            }
        }
        out.insert(p, e);
        proof {
            let after = entries_view(out@);
            assert(after =~= before.insert(p as int, ev));
            // ordering
            assert forall|i: int, j: int| 0 <= i < j < after.len() implies id_le(
                #[trigger] after[i].0,
                #[trigger] after[j].0,
            ) by {
                if j == p {
                    assert(after[i] == before[i]);
                } else if i == p {
                    assert(after[j] == before[j - 1]);
                    if j - 1 > p {
                        assert(id_le(before[p as int].0, before[j - 1].0));
                        lemma_bytes_le_trans(
                            encode_utf8(ev.0),
                            encode_utf8(before[p as int].0),
                            encode_utf8(before[j - 1].0),
                        );
                    }
                } else {
                    let i2 = if i < p {
                        i
                    } else {
                        i - 1
                    };
                    let j2 = if j < p {
                        j
                    } else {
                        j - 1
                    };
                    assert(after[i] == before[i2] && after[j] == before[j2]);
                }
            }
            // equal ids: the user's own entry comes first
            assert forall|i: int, j: int|
                0 <= i < j < after.len() && #[trigger] after[i].0 == #[trigger] after[j].0 implies after[i].1
                && !after[j].1 by {
                if i == p || j == p {
                    let o = if i == p {
                        j
                    } else {
                        i
                    };
                    let o2 = if o < p {
                        o
                    } else {
                        o - 1
                    };
                    assert(after[o] == before[o2]);
                    if o > p {
                        lemma_bytes_le_refl(encode_utf8(ev.0));
                        assert(!id_le(before[p as int].0, ev.0));
                        assert(id_le(before[p as int].0, before[o2].0) || o2 == p);
                        if o2 != p {
                            lemma_bytes_le_trans(
                                encode_utf8(before[p as int].0),
                                encode_utf8(before[o2].0),
                                encode_utf8(ev.0),
                            );
                        }
                        assert(false);
                    }
                    // the other entry was taken earlier: find it in the input
                    assert(before.contains(before[o2]));
                    assert(before.to_multiset().count(before[o2]) > 0);
                    assert(inv.take(taken).contains(before[o2]));
                    let k = choose|k: int| 0 <= k < inv.take(taken).len() && inv.take(taken)[k] == before[o2];
                    assert(inv[k] == before[o2]);
                    if taken == 0 {
                        assert(false);
                    }
                    assert(!inv[taken].1);
                    if !inv[k].1 {
                        assert(inv[k].0 != inv[taken].0);
                    }
                } else {
                    let i2 = if i < p {
                        i
                    } else {
                        i - 1
                    };
                    let j2 = if j < p {
                        j
                    } else {
                        j - 1
                    };
                    assert(after[i] == before[i2] && after[j] == before[j2]);
                }
            }
            taken = taken + 1;
        }
    }
    proof {
        assert(inv.take(n as int) =~= inv);
    }
    out
}

proof fn lemma_friend_entries<P>(pairs: Seq<(String, P)>, flags: Map<Seq<char>, bool>)
    requires
        distinct_keys(pairs),
    ensures
        forall|i: int|
            0 <= i < friend_entries(pairs, flags).len() ==> !(#[trigger] friend_entries(pairs, flags)[i]).1
                && flagged_keys(flags).contains(friend_entries(pairs, flags)[i].0) && exists|j: int|
                0 <= j < pairs.len() && pair_key(#[trigger] pairs[j]) == friend_entries(pairs, flags)[i].0
                    && pairs[j].1 == friend_entries(pairs, flags)[i].2,
        forall|j: int|
            0 <= j < pairs.len() && flagged_keys(flags).contains(pair_key(#[trigger] pairs[j])) ==> exists|
                i: int,
            |
                0 <= i < friend_entries(pairs, flags).len() && (#[trigger] friend_entries(pairs, flags)[i]).0
                    == pair_key(pairs[j]) && friend_entries(pairs, flags)[i].2 == pairs[j].1,
        forall|a: int, b: int|
            0 <= a < b < friend_entries(pairs, flags).len() ==> (#[trigger] friend_entries(pairs, flags)[a]).0
                != (#[trigger] friend_entries(pairs, flags)[b]).0,
    decreases pairs.len(),
{
    if pairs.len() > 0 {
        let init = pairs.drop_last();
        let last = pairs.last();
        let prev = friend_entries(init, flags);
        let cur = friend_entries(pairs, flags);
        assert(distinct_keys(init)) by {
            assert forall|a: int, b: int| 0 <= a < b < init.len() implies #[trigger] pair_key(init[a])
                != #[trigger] pair_key(init[b]) by {
                assert(init[a] == pairs[a] && init[b] == pairs[b]);
            }
        }
        lemma_friend_entries(init, flags);
        assert forall|i: int|
            0 <= i < cur.len() implies !(#[trigger] cur[i]).1 && flagged_keys(flags).contains(cur[i].0)
            && exists|j: int| 0 <= j < pairs.len() && pair_key(#[trigger] pairs[j]) == cur[i].0 && pairs[j].1 == cur[i].2 by {
            if i < prev.len() {
                assert(cur[i] == prev[i]);
                let j = choose|j: int| 0 <= j < init.len() && pair_key(#[trigger] init[j]) == prev[i].0 && init[j].1 == prev[i].2;
                assert(pairs[j] == init[j]);
            } else {
                assert(pairs[pairs.len() - 1] == last);
            }
        }
        assert forall|j: int|
            0 <= j < pairs.len() && flagged_keys(flags).contains(pair_key(#[trigger] pairs[j])) implies exists|i: int|
            0 <= i < cur.len() && (#[trigger] cur[i]).0 == pair_key(pairs[j]) && cur[i].2 == pairs[j].1 by {
            if j < init.len() {
                assert(init[j] == pairs[j]);
                let i = choose|i: int| 0 <= i < prev.len() && (#[trigger] prev[i]).0 == pair_key(init[j]) && prev[i].2 == init[j].1;
                assert(cur[i] == prev[i]);
            } else {
                assert(cur[prev.len() as int] == (last.0@, false, last.1));
            }
        }
        assert forall|a: int, b: int| 0 <= a < b < cur.len() implies (#[trigger] cur[a]).0 != (#[trigger] cur[b]).0 by {
            if b >= prev.len() {
                assert(cur[a] == prev[a]);
                let j = choose|j: int| 0 <= j < init.len() && pair_key(#[trigger] init[j]) == prev[a].0 && init[j].1 == prev[a].2;
                assert(pairs[j] == init[j]);
                assert(pair_key(pairs[j]) != pair_key(pairs[pairs.len() - 1]));
            } else {
                assert(cur[a] == prev[a] && cur[b] == prev[b]);
            }
        }
    }
}

/// The entries before sorting: the user's own, then the friends'.
pub open spec fn candidates<P>(v: NekoProjectionView<P>, data: UserData, pairs: Seq<(String, P)>) -> Seq<
    EntryView<P>,
> {
    self_entries(v, data) + friend_entries(pairs, v.active_dolls)
}

proof fn lemma_candidates<P>(v: NekoProjectionView<P>, data: UserData, pairs: Seq<(String, P)>)
    requires
        distinct_keys(pairs),
        pairs_map(pairs) == v.friend_cursors,
    ensures
        self_first_friends_distinct(candidates(v, data, pairs)),
{
    let se = self_entries(v, data);
    let fe = friend_entries(pairs, v.active_dolls);
    let c = candidates(v, data, pairs);
    lemma_friend_entries(pairs, v.active_dolls);
    assert forall|i: int| 0 < i < c.len() implies !(#[trigger] c[i]).1 by {
        assert(c[i] == fe[i - se.len()]);
    }
    assert forall|i: int, j: int| 0 <= i < j < c.len() && !(#[trigger] c[i]).1 && !(#[trigger] c[j]).1 implies c[i].0
        != c[j].0 by {
        if i >= se.len() {
            assert(c[i] == fe[i - se.len()] && c[j] == fe[j - se.len()]);
        } else {
            assert(c[i] == se[i]);
        }
    }
}

proof fn lemma_snapshot<P>(res: Seq<EntryView<P>>, v: NekoProjectionView<P>, data: UserData, pairs: Seq<(String, P)>)
    requires
        distinct_keys(pairs),
        pairs_map(pairs) == v.friend_cursors,
        res.to_multiset() == candidates(v, data, pairs).to_multiset(),
        forall|i: int, j: int| 0 <= i < j < res.len() ==> id_le(#[trigger] res[i].0, #[trigger] res[j].0),
        forall|i: int, j: int|
            0 <= i < j < res.len() && #[trigger] res[i].0 == #[trigger] res[j].0 ==> res[i].1 && !res[j].1,
    ensures
        snapshot_ok(res, v, data),
{
    let se = self_entries(v, data);
    let fe = friend_entries(pairs, v.active_dolls);
    let c = candidates(v, data, pairs);
    lemma_friend_entries(pairs, v.active_dolls);
    assert forall|i: int| 0 <= i < res.len() implies c.contains(#[trigger] res[i]) by {
        assert(res.contains(res[i]));
        assert(res.to_multiset().count(res[i]) > 0);
    }
    assert forall|e: EntryView<P>| c.contains(e) implies res.contains(e) by {
        assert(c.to_multiset().count(e) > 0);
    }
    assert forall|i: int| 0 <= i < res.len() && (#[trigger] res[i]).1 implies se == seq![res[i]] by {
        assert(c.contains(res[i]));
        let k = choose|k: int| 0 <= k < c.len() && c[k] == res[i];
        if k >= se.len() {
            assert(c[k] == fe[k - se.len()]);
        }
        assert(se =~= seq![res[i]]);
    }
    if se.len() > 0 {
        assert(c[0] == se[0]);
        assert(c.contains(c[0]));
        assert(res.contains(c[0]));
        let i = choose|i: int| 0 <= i < res.len() && res[i] == c[0];
        assert(res[i].1);
    }
    assert forall|i: int|
        0 <= i < res.len() && !(#[trigger] res[i]).1 implies v.friend_cursors.contains_key(res[i].0)
        && flagged_keys(v.active_dolls).contains(res[i].0) && v.friend_cursors[res[i].0] == res[i].2 by {
        assert(c.contains(res[i]));
        let k = choose|k: int| 0 <= k < c.len() && c[k] == res[i];
        if k < se.len() {
            assert(c[k] == se[k]);
        } else {
            assert(c[k] == fe[k - se.len()]);
            let fi = k - se.len();
            let j = choose|j: int| 0 <= j < pairs.len() && pair_key(#[trigger] pairs[j]) == fe[fi].0 && pairs[j].1 == fe[fi].2;
            crate::str_map::lemma_pairs_lookup(pairs, j);
        }
    }
    assert forall|k: Seq<char>|
        #[trigger] v.friend_cursors.contains_key(k) && flagged_keys(v.active_dolls).contains(k) implies exists|i: int|
        0 <= i < res.len() && !(#[trigger] res[i]).1 && res[i].0 == k by {
        let j = choose|j: int| 0 <= j < pairs.len() && #[trigger] pair_key(pairs[j]) == k;
        let fi = choose|fi: int| 0 <= fi < fe.len() && (#[trigger] fe[fi]).0 == pair_key(pairs[j]) && fe[fi].2 == pairs[j].1;
        assert(c[se.len() + fi] == fe[fi]);
        assert(c.contains(fe[fi]));
        assert(res.contains(fe[fi]));
        let i = choose|i: int| 0 <= i < res.len() && res[i] == fe[fi];
        assert(!res[i].1 && res[i].0 == k);
    }
}

/// Where a block of cats sits along one axis of the screen.
#[derive(Debug, Clone, Copy, PartialEq, Eq, Structural)]
pub enum Alignment {
    Start,
    Center,
    End,
}

/// Left, centred or right, by the anchor's column.
pub fn horizontal_alignment(anchor: NekoPosition) -> (res: Alignment)
    ensures
        res == (match anchor {
            NekoPosition::TopLeft | NekoPosition::Left | NekoPosition::BottomLeft => Alignment::Start,
            NekoPosition::Top | NekoPosition::Bottom => Alignment::Center,
            NekoPosition::TopRight | NekoPosition::Right | NekoPosition::BottomRight => Alignment::End,
        }),
{
    match anchor {
        NekoPosition::TopLeft | NekoPosition::Left | NekoPosition::BottomLeft => Alignment::Start,
        NekoPosition::Top | NekoPosition::Bottom => Alignment::Center,
        NekoPosition::TopRight | NekoPosition::Right | NekoPosition::BottomRight => Alignment::End,
    }
}

/// Top, centred or bottom, by the anchor's row.
pub fn vertical_alignment(anchor: NekoPosition) -> (res: Alignment)
    ensures
        res == (match anchor {
            NekoPosition::TopLeft | NekoPosition::Top | NekoPosition::TopRight => Alignment::Start,
            NekoPosition::Left | NekoPosition::Right => Alignment::Center,
            NekoPosition::BottomLeft | NekoPosition::Bottom | NekoPosition::BottomRight => Alignment::End,
        }),
{
    match anchor {
        NekoPosition::TopLeft | NekoPosition::Top | NekoPosition::TopRight => Alignment::Start,
        NekoPosition::Left | NekoPosition::Right => Alignment::Center,
        NekoPosition::BottomLeft | NekoPosition::Bottom | NekoPosition::BottomRight => Alignment::End,
    }
}

/// A cat's place in the gathering grid, and the grid's size.
#[derive(Debug, Clone, Copy, PartialEq, Eq, Structural)]
pub struct GridCell {
    pub col: usize,
    pub row: usize,
    pub columns: usize,
    pub rows: usize,
}

/// The grid's width: the least `c >= 1` with `c * c >= count` (the ceiling of
/// the square root, at least one).
pub open spec fn is_grid_columns(c: int, count: int) -> bool {
    &&& c >= 1
    &&& c * c >= count
    &&& (c == 1 || (c - 1) * (c - 1) < count)
}

/// Where cat `index` of `count` sits: the grid is as wide as the ceiling of
/// the square root of `count` (at least one) and as tall as needed (at least
/// one); cats fill it row by row.
pub fn cluster_cell(index: usize, count: usize) -> (res: GridCell)
    requires
        index < count,
    ensures
        is_grid_columns(res.columns as int, count as int),
        res.rows as int == if count == 0 {
            1
        } else {
            (count as int + res.columns as int - 1) / (res.columns as int)
        },
        res.col as int == (index as int) % (res.columns as int),
        res.row as int == (index as int) / (res.columns as int),
{
    let mut c: usize = 1;
    while c <= (count - 1) / c
        invariant
            1 <= c <= count,
            index < count,
            c == 1 || (c - 1) * (c - 1) < count,
        decreases count - c,
    {
        proof {
            assert(c * c <= count - 1) by (nonlinear_arith)
                requires
                    c <= (count as int - 1) / (c as int),
                    c >= 1,
                    count >= 1,
            ;
            assert(c < count) by (nonlinear_arith)
                requires
                    c * c <= count - 1,
                    c >= 1,
            ;
        }
        c = c + 1;
    }
    proof {
        assert(c * c >= count) by (nonlinear_arith)
            requires
                c > (count as int - 1) / (c as int),
                c >= 1,
                count >= 1,
        ;
    }
    let d = count / c;
    proof {
        assert(count % c > 0 ==> d < count) by (nonlinear_arith)
            requires
                d == count / c,
                c >= 1,
                count >= 1,
        ;
    }
    let rows = if count % c > 0 {
        d + 1
    } else {
        d
    };
    proof {
        assert(rows as int == (count as int + c as int - 1) / (c as int)) by (nonlinear_arith)
            requires
                d == count / c,
                rows == if count % c > 0 {
                    d + 1
                } else {
                    d as int
                },
                c >= 1,
        ;
    }
    GridCell { col: index % c, row: index / c, columns: c, rows }
}

} // verus!

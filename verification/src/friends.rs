//! What the client projects from the friend list: each friend's active doll
//! sprite, and the friends' cursors (kept only for friends who have an active
//! doll). Every operation says whether the projection's snapshot must be sent
//! to the windows again.

use vstd::prelude::*;

use crate::models::{DollDto, DollView, FriendshipResponseDto};
use crate::sprite::{
    colors_sliceable, doll_sprite_ok, doll_sprite_spec, encode_doll_sprite_base64, frames_within_screen, text_result,
};
use crate::sprite_recolor::DecodedGif;
use crate::str_map::{flagged_keys, StrMap};
use crate::text::{str_eq, to_owned_string};

verus! {

/// The friends that have a record and an active doll: their ids and dolls, in
/// list order.
pub open spec fn friend_dolls(friends: Seq<FriendshipResponseDto>) -> Seq<(Seq<char>, DollView)>
    decreases friends.len(),
{
    if friends.len() == 0 {
        Seq::empty()
    } else {
        let rest = friend_dolls(friends.drop_last());
        match friends.last().friend {
            Some(f) => match f.active_doll {
                Some(d) => rest.push((f.id@, d@)),
                None => rest,
            },
            None => rest,
        }
    }
}

/// Every active doll of the friend list has colours that can be cut into hex
/// pairs.
pub open spec fn friend_dolls_sliceable(friends: Seq<FriendshipResponseDto>) -> bool {
    forall|i: int|
        0 <= i < friends.len() ==> (#[trigger] friends[i].friend matches Some(f) ==> (
        f.active_doll matches Some(d) ==> colors_sliceable(d@)))
}

/// The sprites that the encoding outcomes give: each successful sprite is set
/// for its friend, a later one replacing an earlier one; failures set nothing.
pub open spec fn sprites_from(
    entries: Seq<(Seq<char>, DollView)>,
    outcomes: Seq<Result<Seq<char>, Seq<char>>>,
) -> Map<Seq<char>, Seq<char>>
    decreases entries.len(),
{
    if entries.len() == 0 {
        Map::empty()
    } else {
        let prev = sprites_from(entries.drop_last(), outcomes.take(entries.len() - 1));
        match outcomes[entries.len() - 1] {
            Ok(s) => prev.insert(entries.last().0, s),
            Err(_) => prev,
        }
    }
}

/// Each outcome is the sprite of the corresponding doll.
pub open spec fn outcomes_fit(
    entries: Seq<(Seq<char>, DollView)>,
    outcomes: Seq<Result<Seq<char>, Seq<char>>>,
    gif: DecodedGif,
) -> bool {
    &&& outcomes.len() == entries.len()
    &&& forall|i: int| 0 <= i < entries.len() ==> #[trigger] doll_sprite_ok(entries[i].1, gif, outcomes[i])
}

/// The sprite of each listed doll.
pub open spec fn sprite_outcomes(entries: Seq<(Seq<char>, DollView)>, gif: DecodedGif) -> Seq<
    Result<Seq<char>, Seq<char>>,
> {
    Seq::new(entries.len(), |i: int| doll_sprite_spec(entries[i].1, gif))
}

/// The sprites of the friends' active dolls, keyed by friend id: the sprite
/// of each active doll that can be made, a later friend's replacing an earlier
/// one's under the same id.
pub open spec fn friend_sprites(friends: Seq<FriendshipResponseDto>, gif: DecodedGif) -> Map<
    Seq<char>,
    Seq<char>,
> {
    sprites_from(friend_dolls(friends), sprite_outcomes(friend_dolls(friends), gif))
}

/// The texts of a map of strings.
pub open spec fn string_values(m: Map<Seq<char>, String>) -> Map<Seq<char>, Seq<char>> {
    m.map_values(|s: String| s@)
}

/// A snapshot of the friends' active doll sprites, keyed by friend id.
pub struct FriendActiveDollSpritesDto(pub StrMap<String>);

/// The friends' active doll sprites, keyed by friend id.
pub struct ActiveDollSprites {
    sprites: StrMap<String>,
}

impl View for ActiveDollSprites {
    type V = Map<Seq<char>, Seq<char>>;

    closed spec fn view(&self) -> Map<Seq<char>, Seq<char>> {
        string_values(self.sprites@)
    }
}

fn copy_string_map(m: &StrMap<String>) -> (res: StrMap<String>)
    ensures
        res@ == m@,
{
    let n = m.len();
    let mut out: StrMap<String> = StrMap::new();
    let mut i: usize = 0;
    while i < n
        invariant
            n == m.pairs().len(),
            i <= n,
            crate::str_map::distinct_keys(m.pairs()),
            crate::str_map::pairs_map(m.pairs()) == m@,
            out@ == crate::str_map::pairs_map(m.pairs().take(i as int)),
        decreases n - i,
    {
        let (k, v) = m.pair_at(i);
        let ghost prefix = m.pairs().take(i as int);
        let ghost next = m.pairs().take(i + 1);
        out.insert(k.clone(), v.clone());
        proof {
            assert(next =~= prefix.push(m.pairs()[i as int]));
            assert forall|a: int, b: int| 0 <= a < b < next.len() implies #[trigger] crate::str_map::pair_key(next[a])
                != #[trigger] crate::str_map::pair_key(next[b]) by {
                assert(next[a] == m.pairs()[a] && next[b] == m.pairs()[b]);
            }
            assert forall|a: int, b: int| 0 <= a < b < prefix.len() implies #[trigger] crate::str_map::pair_key(prefix[a])
                != #[trigger] crate::str_map::pair_key(prefix[b]) by {
                assert(prefix[a] == m.pairs()[a] && prefix[b] == m.pairs()[b]);
            }
            lemma_pairs_push(prefix, m.pairs()[i as int]);
        }
        i = i + 1;
    }
    proof {
        assert(m.pairs().take(n as int) =~= m.pairs());
    }
    out
}

proof fn lemma_pairs_push<V>(s: Seq<(String, V)>, p: (String, V))
    requires
        crate::str_map::distinct_keys(s),
        crate::str_map::distinct_keys(s.push(p)),
    ensures
        crate::str_map::pairs_map(s.push(p)) == crate::str_map::pairs_map(s).insert(p.0@, p.1),
{
    let t = s.push(p);
    crate::str_map::lemma_pairs_lookup(t, s.len() as int);
    assert forall|k: Seq<char>|
        #![trigger crate::str_map::pairs_map(t).contains_key(k)]
        crate::str_map::pairs_map(t).contains_key(k) == crate::str_map::pairs_map(s).insert(
            p.0@,
            p.1,
        ).contains_key(k) && (crate::str_map::pairs_map(t).contains_key(k) ==> crate::str_map::pairs_map(t)[k]
            == crate::str_map::pairs_map(s).insert(p.0@, p.1)[k]) by {
        if k != p.0@ {
            if crate::str_map::pairs_map(s).contains_key(k) {
                let j = choose|j: int| 0 <= j < s.len() && #[trigger] crate::str_map::pair_key(s[j]) == k;
                crate::str_map::lemma_pairs_lookup(s, j);
                assert(t[j] == s[j]);
                crate::str_map::lemma_pairs_lookup(t, j);
            }
            if crate::str_map::pairs_map(t).contains_key(k) {
                let j = choose|j: int| 0 <= j < t.len() && #[trigger] crate::str_map::pair_key(t[j]) == k;
                assert(j < s.len());
                assert(t[j] == s[j]);
                assert(crate::str_map::pair_key(s[j]) == k);
            }
        }
    }
    assert(crate::str_map::pairs_map(t) =~= crate::str_map::pairs_map(s).insert(p.0@, p.1));
}

/// The sprites of the friends' active dolls. A friend whose sprite cannot be
/// made is left out.
fn build_sprites(friends: &Vec<FriendshipResponseDto>, gif: &DecodedGif) -> (res: StrMap<String>)
    requires
        friend_dolls_sliceable(friends@),
        frames_within_screen(*gif),
    ensures
        string_values(res@) == friend_sprites(friends@, *gif),
{
    let mut out: StrMap<String> = StrMap::new();
    let ghost mut outcomes: Seq<Result<Seq<char>, Seq<char>>> = Seq::empty();
    let mut i: usize = 0;
    proof {
        assert(friends@.take(0) =~= Seq::<FriendshipResponseDto>::empty());
        assert(string_values(out@) =~= Map::<Seq<char>, Seq<char>>::empty());
    }
    while i < friends.len()
        invariant
            i <= friends@.len(),
            friend_dolls_sliceable(friends@),
            frames_within_screen(*gif),
            outcomes_fit(friend_dolls(friends@.take(i as int)), outcomes, *gif),
            string_values(out@) == sprites_from(friend_dolls(friends@.take(i as int)), outcomes),
        decreases friends@.len() - i,
    {
        let ghost prefix = friends@.take(i as int);
        let ghost next = friends@.take(i + 1);
        proof {
            assert(next.drop_last() =~= prefix);
            assert(next.last() == friends@[i as int]);
        }
        let ghost entries = friend_dolls(prefix);
        match &friends[i].friend {
            Some(f) => match &f.active_doll {
                Some(doll) => {
                    proof {
                        assert(friends@[i as int].friend matches Some(ff) ==> (ff.active_doll matches Some(
                            d,
                        ) ==> colors_sliceable(d@)));
                    }
                    let r = encode_doll_sprite_base64(doll, gif);
                    let ghost new_entries = entries.push((f.id@, doll@));
                    let ghost new_outcomes = outcomes.push(text_result(r));
                    proof {
                        assert(friend_dolls(next) == new_entries);
                        assert(new_entries.drop_last() =~= entries);
                        assert(new_outcomes.take(new_entries.len() - 1) =~= outcomes);
                        assert forall|j: int| 0 <= j < new_entries.len() implies #[trigger] doll_sprite_ok(
                            new_entries[j].1,
                            *gif,
                            new_outcomes[j],
                        ) by {
                            if j < entries.len() {
                                assert(new_entries[j] == entries[j]);
                                assert(new_outcomes[j] == outcomes[j]);
                            }
                        }
                    }
                    match r {
                        Ok(s) => {
                            let ghost before = out@;
                            out.insert(to_owned_string(f.id.as_str()), s);
                            proof {
                                assert(string_values(out@) =~= string_values(before).insert(f.id@, s@));
                            }
                        },
                        Err(_) => {},
                    }
                    proof {
                        outcomes = new_outcomes;
                    }
                },
                None => {
                    proof {
                        assert(friend_dolls(next) == entries);
                    }
                },
            },
            None => {
                proof {
                    assert(friend_dolls(next) == entries);
                }
            },
        }
        i = i + 1;
    }
    proof {
        assert(friends@.take(friends@.len() as int) =~= friends@);
        let entries = friend_dolls(friends@);
        assert(friend_dolls(friends@.take(friends@.len() as int)) == entries);
        assert forall|j: int| 0 <= j < entries.len() implies outcomes[j] == sprite_outcomes(
            entries,
            *gif,
        )[j] by {
            assert(doll_sprite_ok(entries[j].1, *gif, outcomes[j]));
        }
        assert(outcomes =~= sprite_outcomes(entries, *gif));
    }
    out
}

impl ActiveDollSprites {
    /// No sprites.
    pub fn new() -> (res: Self)
        ensures
            res@ == Map::<Seq<char>, Seq<char>>::empty(),
    {
        let res = ActiveDollSprites { sprites: StrMap::new() };
        assert(res@ =~= Map::<Seq<char>, Seq<char>>::empty());
        res
    }

    /// Rebuilds the sprites from the friend list; the snapshot is then sent.
    pub fn sync_from_app_data(&mut self, friends: &Vec<FriendshipResponseDto>, gif: &DecodedGif)
        requires
            friend_dolls_sliceable(friends@),
            frames_within_screen(*gif),
        ensures
            final(self)@ == friend_sprites(friends@, *gif),
    {
        self.sprites = build_sprites(friends, gif);
    }

    /// Drops every sprite; the snapshot is then sent.
    pub fn clear(&mut self)
        ensures
            final(self)@ == Map::<Seq<char>, Seq<char>>::empty(),
    {
        self.sprites.clear();
        assert(string_values(self.sprites@) =~= Map::<Seq<char>, Seq<char>>::empty());
    }

    /// Drops a friend's sprite. The snapshot is sent again only if there was
    /// one.
    pub fn remove_friend(&mut self, user_id: &str) -> (emit: bool)
        ensures
            final(self)@ == old(self)@.remove(user_id@),
            emit == old(self)@.contains_key(user_id@),
    {
        let ghost before = self.sprites@;
        let removed = self.sprites.remove(user_id);
        assert(string_values(self.sprites@) =~= string_values(before).remove(user_id@));
        removed.is_some()
    }

    /// Sets a friend's sprite from the friend's new active doll. A doll whose
    /// sprite is made replaces the friend's sprite (the snapshot is sent); with
    /// no doll, or a sprite that cannot be made, the friend's sprite is dropped
    /// (the snapshot is sent only if there was one).
    pub fn set_active_doll(&mut self, user_id: &str, doll: Option<&DollDto>, gif: &DecodedGif) -> (emit: bool)
        requires
            doll matches Some(d) ==> colors_sliceable(d@),
            frames_within_screen(*gif),
        ensures
            match doll {
                None => final(self)@ == old(self)@.remove(user_id@) && emit == old(self)@.contains_key(
                    user_id@,
                ),
                Some(d) => match doll_sprite_spec(d@, *gif) {
                        Ok(s) => final(self)@ == old(self)@.insert(user_id@, s) && emit,
                        Err(_) => final(self)@ == old(self)@.remove(user_id@) && emit == old(
                            self,
                        )@.contains_key(user_id@),
                    },
            },
    {
        let ghost before = self.sprites@;
        match doll {
            Some(d) => {
                let r = encode_doll_sprite_base64(d, gif);
                match r {
                    Ok(s) => {
                        let ghost sv = s@;
                        self.sprites.insert(to_owned_string(user_id), s);
                        proof {
                            assert(string_values(self.sprites@) =~= string_values(before).insert(
                                user_id@,
                                sv,
                            ));
                            assert(doll_sprite_ok(d@, *gif, Ok(sv)));
                        }
                        true
                    },
                    Err(e) => {
                        let ghost ev = e@;
                        let removed = self.sprites.remove(user_id);
                        proof {
                            assert(string_values(self.sprites@) =~= string_values(before).remove(
                                user_id@,
                            ));
                            assert(doll_sprite_ok(d@, *gif, Err(ev)));
                        }
                        removed.is_some()
                    },
                }
            },
            None => {
                let removed = self.sprites.remove(user_id);
                assert(string_values(self.sprites@) =~= string_values(before).remove(user_id@));
                removed.is_some()
            },
        }
    }

    /// A copy of the sprites.
    pub fn get_snapshot(&self) -> (res: FriendActiveDollSpritesDto)
        ensures
            string_values(res.0@) == self@,
    {
        FriendActiveDollSpritesDto(copy_string_map(&self.sprites))
    }
}

/// Whether each friend with a record has an active doll, keyed by friend id
/// (a later friendship with the same id wins).
pub open spec fn doll_flags(friends: Seq<FriendshipResponseDto>) -> Map<Seq<char>, bool>
    decreases friends.len(),
{
    if friends.len() == 0 {
        Map::empty()
    } else {
        let prev = doll_flags(friends.drop_last());
        match friends.last().friend {
            Some(f) => prev.insert(f.id@, f.active_doll is Some),
            None => prev,
        }
    }
}

/// Whether the first friend of the list with the given id has an active doll
/// (false when there is none).
pub open spec fn listed_friend_has_doll(friends: Seq<FriendshipResponseDto>, id: Seq<char>) -> bool
    decreases friends.len(),
{
    if friends.len() == 0 {
        false
    } else {
        match friends[0].friend {
            Some(f) => if f.id@ == id {
                f.active_doll is Some
            } else {
                listed_friend_has_doll(friends.drop_first(), id)
            },
            None => listed_friend_has_doll(friends.drop_first(), id),
        }
    }
}

fn build_doll_flags(friends: &Vec<FriendshipResponseDto>) -> (res: StrMap<bool>)
    ensures
        res@ == doll_flags(friends@),
{
    let mut out: StrMap<bool> = StrMap::new();
    let mut i: usize = 0;
    proof {
        assert(friends@.take(0) =~= Seq::<FriendshipResponseDto>::empty());
    }
    while i < friends.len()
        invariant
            i <= friends@.len(),
            out@ == doll_flags(friends@.take(i as int)),
        decreases friends@.len() - i,
    {
        let ghost next = friends@.take(i + 1);
        proof {
            assert(next.drop_last() =~= friends@.take(i as int));
            assert(next.last() == friends@[i as int]);
        }
        match &friends[i].friend {
            Some(f) => {
                out.insert(to_owned_string(f.id.as_str()), f.active_doll.is_some());
            },
            None => {},
        }
        i = i + 1;
    }
    proof {
        assert(friends@.take(friends@.len() as int) =~= friends@);
    }
    out
}

fn find_listed_friend_doll(friends: &Vec<FriendshipResponseDto>, user_id: &str) -> (res: bool)
    ensures
        res == listed_friend_has_doll(friends@, user_id@),
{
    let mut i: usize = 0;
    proof {
        assert(friends@.subrange(0, friends@.len() as int) =~= friends@);
    }
    while i < friends.len()
        invariant
            i <= friends@.len(),
            listed_friend_has_doll(friends@, user_id@) == listed_friend_has_doll(
                friends@.subrange(i as int, friends@.len() as int),
                user_id@,
            ),
        decreases friends@.len() - i,
    {
        let ghost rest = friends@.subrange(i as int, friends@.len() as int);
        proof {
            assert(rest.drop_first() =~= friends@.subrange(i + 1, friends@.len() as int));
            assert(rest[0] == friends@[i as int]);
        }
        match &friends[i].friend {
            Some(f) => {
                if str_eq(f.id.as_str(), user_id) {
                    return f.active_doll.is_some();
                }
            },
            None => {},
        }
        i = i + 1;
    }
    false
}

/// The friends' cursors, kept only for friends known to have an active doll.
pub struct FriendCursorProjection<P> {
    active_dolls: StrMap<bool>,
    positions: StrMap<P>,
}

/// The projection as values: which friends have an active doll, and the
/// friends' cursors.
pub struct CursorProjectionView<P> {
    pub active_dolls: Map<Seq<char>, bool>,
    pub positions: Map<Seq<char>, P>,
}

impl<P> View for FriendCursorProjection<P> {
    type V = CursorProjectionView<P>;

    closed spec fn view(&self) -> CursorProjectionView<P> {
        CursorProjectionView { active_dolls: self.active_dolls@, positions: self.positions@ }
    }
}

/// A cursor is kept only for a friend whose flag says the friend has an
/// active doll.
pub open spec fn cursors_only_for_dolls<P>(v: CursorProjectionView<P>) -> bool {
    forall|k: Seq<char>|
        #[trigger] v.positions.contains_key(k) ==> v.active_dolls.contains_key(k) && v.active_dolls[k]
}

impl<P> FriendCursorProjection<P> {
    /// Nothing known.
    pub fn new() -> (res: Self)
        ensures
            res@.active_dolls == Map::<Seq<char>, bool>::empty(),
            res@.positions == Map::<Seq<char>, P>::empty(),
    {
        FriendCursorProjection { active_dolls: StrMap::new(), positions: StrMap::new() }
    }

    /// The stored (friend id, cursor) pairs.
    pub closed spec fn cursor_pairs(&self) -> Seq<(String, P)> {
        self.positions.pairs()
    }

    /// How many cursors are stored (the stored pairs have distinct ids and
    /// denote the cursors).
    pub fn cursor_count(&self) -> (res: usize)
        ensures
            res == self.cursor_pairs().len(),
            crate::str_map::distinct_keys(self.cursor_pairs()),
            crate::str_map::pairs_map(self.cursor_pairs()) == self@.positions,
    {
        self.positions.len()
    }

    /// The stored pair at position `i`.
    pub fn cursor_at(&self, i: usize) -> (res: (&String, &P))
        requires
            i < self.cursor_pairs().len(),
        ensures
            *res.0 == self.cursor_pairs()[i as int].0,
            *res.1 == self.cursor_pairs()[i as int].1,
    {
        self.positions.pair_at(i)
    }

    /// Whether a friend is flagged as having an active doll.
    pub fn flag_of(&self, user_id: &str) -> (res: bool)
        ensures
            res == flagged_keys(self@.active_dolls).contains(user_id@),
    {
        match self.active_dolls.get(user_id) {
            Some(b) => *b,
            None => false,
        }
    }

    /// Rebuilds the active-doll flags from the friend list and drops the
    /// cursors of friends without an active doll; the snapshot is then sent.
    pub fn sync_from_app_data(&mut self, friends: &Vec<FriendshipResponseDto>)
        ensures
            cursors_only_for_dolls(final(self)@),
            final(self)@.active_dolls == doll_flags(friends@),
            final(self)@.positions == old(self)@.positions.restrict(flagged_keys(doll_flags(friends@))),
    {
        self.active_dolls = build_doll_flags(friends);
        self.positions.retain_flagged(&self.active_dolls);
    }

    /// Forgets every flag and cursor; the snapshot is then sent.
    pub fn clear(&mut self)
        ensures
            final(self)@.active_dolls == Map::<Seq<char>, bool>::empty(),
            final(self)@.positions == Map::<Seq<char>, P>::empty(),
            cursors_only_for_dolls(final(self)@),
    {
        self.active_dolls.clear();
        self.positions.clear();
    }

    /// Whether a friend has an active doll: the known flag, or else what the
    /// friend list says, which is then remembered.
    fn has_active_doll(&mut self, user_id: &str, friends: Option<&Vec<FriendshipResponseDto>>) -> (res: bool)
        ensures
            final(self)@.positions == old(self)@.positions,
            old(self)@.active_dolls.contains_key(user_id@) ==> res == old(self)@.active_dolls[user_id@]
                && final(self)@.active_dolls == old(self)@.active_dolls,
            !old(self)@.active_dolls.contains_key(user_id@) ==> res == (friends matches Some(f)
                && listed_friend_has_doll(f@, user_id@)) && final(self)@.active_dolls == old(
                self,
            )@.active_dolls.insert(user_id@, res),
    {
        match self.active_dolls.get(user_id) {
            Some(b) => {
                return *b;
            },
            None => {},
        }
        let with_doll = match friends {
            Some(list) => find_listed_friend_doll(list, user_id),
            None => false,
        };
        self.active_dolls.insert(to_owned_string(user_id), with_doll);
        with_doll
    }

    /// Records a friend's cursor if the friend has an active doll (the
    /// snapshot is sent); otherwise drops it (sent only if there was one).
    pub fn update_position(
        &mut self,
        user_id: String,
        position: P,
        friends: Option<&Vec<FriendshipResponseDto>>,
    ) -> (emit: bool)
        ensures
            cursors_only_for_dolls(old(self)@) ==> cursors_only_for_dolls(final(self)@),
            ({
                let known = old(self)@.active_dolls.contains_key(user_id@);
                let with_doll = if known {
                    old(self)@.active_dolls[user_id@]
                } else {
                    friends matches Some(f) && listed_friend_has_doll(f@, user_id@)
                };
                &&& final(self)@.active_dolls == old(self)@.active_dolls.insert(user_id@, with_doll)
                &&& with_doll ==> final(self)@.positions == old(self)@.positions.insert(user_id@, position)
                    && emit
                &&& !with_doll ==> final(self)@.positions == old(self)@.positions.remove(user_id@) && emit
                    == old(self)@.positions.contains_key(user_id@)
            }),
    {
        let ghost old_flags = self.active_dolls@;
        let with_doll = self.has_active_doll(user_id.as_str(), friends);
        proof {
            if old_flags.contains_key(user_id@) {
                assert(old_flags.insert(user_id@, with_doll) =~= old_flags);
            }
        }
        if !with_doll {
            let removed = self.positions.remove(user_id.as_str());
            return removed.is_some();
        }
        self.positions.insert(user_id, position);
        true
    }

    /// Forgets a friend. The snapshot is sent again if the friend's flag or
    /// cursor was known.
    pub fn remove_friend(&mut self, user_id: &str) -> (emit: bool)
        ensures
            cursors_only_for_dolls(old(self)@) ==> cursors_only_for_dolls(final(self)@),
            final(self)@.active_dolls == old(self)@.active_dolls.remove(user_id@),
            final(self)@.positions == old(self)@.positions.remove(user_id@),
            emit == (old(self)@.active_dolls.contains_key(user_id@) || old(self)@.positions.contains_key(
                user_id@,
            )),
    {
        let ghost before = self@;
        let removed_active_doll = self.active_dolls.remove(user_id).is_some();
        let removed_position = self.positions.remove(user_id).is_some();
        proof {
            if cursors_only_for_dolls(before) {
                assert forall|k: Seq<char>| #[trigger] self@.positions.contains_key(k) implies self@.active_dolls.contains_key(k)
                    && self@.active_dolls[k] by {
                    assert(before.positions.contains_key(k));
                }
            }
        }
        removed_active_doll || removed_position
    }

    /// Records whether a friend has an active doll; without one, the friend's
    /// cursor is dropped (the snapshot is sent only if there was one).
    pub fn set_active_doll(&mut self, user_id: &str, has_active_doll: bool) -> (emit: bool)
        ensures
            cursors_only_for_dolls(old(self)@) ==> cursors_only_for_dolls(final(self)@),
            final(self)@.active_dolls == old(self)@.active_dolls.insert(user_id@, has_active_doll),
            has_active_doll ==> final(self)@.positions == old(self)@.positions && !emit,
            !has_active_doll ==> final(self)@.positions == old(self)@.positions.remove(user_id@) && emit
                == old(self)@.positions.contains_key(user_id@),
    {
        let ghost before = self@;
        self.active_dolls.insert(to_owned_string(user_id), has_active_doll);
        let emit = if !has_active_doll {
            let removed = self.positions.remove(user_id);
            removed.is_some()
        } else {
            false
        };
        proof {
            if cursors_only_for_dolls(before) {
                assert forall|k: Seq<char>| #[trigger] self@.positions.contains_key(k) implies self@.active_dolls.contains_key(k)
                    && self@.active_dolls[k] by {
                    assert(before.positions.contains_key(k));
                }
            }
        }
        emit
    }
}

} // verus!

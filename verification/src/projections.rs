//! The friend projections together: the friends' sprites and the cats'
//! cursors, kept in step with the friend list.

use vstd::prelude::*;

use crate::friends::{
    doll_flags, friend_dolls_sliceable, friend_sprites,
    string_values, ActiveDollSprites, FriendActiveDollSpritesDto,
};
use crate::models::{DollDto, FriendshipResponseDto};
use crate::neko_positions::NekoPositionsProjection;
use crate::sprite::{colors_sliceable, doll_sprite_spec, frames_within_screen};
use crate::sprite_recolor::DecodedGif;
use crate::str_map::flagged_keys;

verus! {

/// Which snapshots must be sent again after a change.
#[derive(Debug, Clone, Copy, PartialEq, Eq, Structural)]
pub struct ProjectionUpdates {
    pub sprites: bool,
    pub nekos: bool,
}

/// The friend projections.
pub struct FriendProjections<P> {
    pub sprites: ActiveDollSprites,
    pub nekos: NekoPositionsProjection<P>,
}

impl<P: Copy> FriendProjections<P> {
    /// Nothing projected yet.
    pub fn new() -> (res: Self)
        ensures
            res.sprites@ == Map::<Seq<char>, Seq<char>>::empty(),
            res.nekos@.self_cursor is None,
            res.nekos@.active_dolls == Map::<Seq<char>, bool>::empty(),
            res.nekos@.friend_cursors == Map::<Seq<char>, P>::empty(),
    {
        FriendProjections { sprites: ActiveDollSprites::new(), nekos: NekoPositionsProjection::new() }
    }

    /// Rebuilds both projections from the friend list; both snapshots are
    /// then sent.
    pub fn sync_from_app_data(&mut self, friends: &Vec<FriendshipResponseDto>, gif: &DecodedGif)
        requires
            friend_dolls_sliceable(friends@),
            frames_within_screen(*gif),
        ensures
            final(self).sprites@ == friend_sprites(friends@, *gif),
            final(self).nekos@.self_cursor == old(self).nekos@.self_cursor,
            final(self).nekos@.active_dolls == doll_flags(friends@),
            final(self).nekos@.friend_cursors == old(self).nekos@.friend_cursors.restrict(
                flagged_keys(doll_flags(friends@)),
            ),
    {
        self.sprites.sync_from_app_data(friends, gif);
        self.nekos.sync_from_app_data(friends);
    }

    /// Empties both projections; both snapshots are then sent.
    pub fn clear(&mut self)
        ensures
            final(self).sprites@ == Map::<Seq<char>, Seq<char>>::empty(),
            final(self).nekos@.self_cursor is None,
            final(self).nekos@.active_dolls == Map::<Seq<char>, bool>::empty(),
            final(self).nekos@.friend_cursors == Map::<Seq<char>, P>::empty(),
    {
        self.sprites.clear();
        self.nekos.clear();
    }

    /// Forgets a friend in both projections.
    pub fn remove_friend(&mut self, user_id: &str) -> (res: ProjectionUpdates)
        ensures
            final(self).sprites@ == old(self).sprites@.remove(user_id@),
            final(self).nekos@.self_cursor == old(self).nekos@.self_cursor,
            final(self).nekos@.active_dolls == old(self).nekos@.active_dolls.remove(user_id@),
            final(self).nekos@.friend_cursors == old(self).nekos@.friend_cursors.remove(user_id@),
            res.sprites == old(self).sprites@.contains_key(user_id@),
            res.nekos == (old(self).nekos@.active_dolls.contains_key(user_id@)
                || old(self).nekos@.friend_cursors.contains_key(user_id@)),
    {
        let sprites = self.sprites.remove_friend(user_id);
        let nekos = self.nekos.remove_friend(user_id);
        ProjectionUpdates { sprites, nekos }
    }

    /// A friend chose a new active doll (or none): the friend's sprite and
    /// active-doll flag follow.
    pub fn set_active_doll(&mut self, user_id: &str, doll: Option<&DollDto>, gif: &DecodedGif) -> (res:
        ProjectionUpdates)
        requires
            doll matches Some(d) ==> colors_sliceable(d@),
            frames_within_screen(*gif),
        ensures
            match doll {
                None => final(self).sprites@ == old(self).sprites@.remove(user_id@) && res.sprites == old(
                    self,
                ).sprites@.contains_key(user_id@),
                Some(d) => match doll_sprite_spec(d@, *gif) {
                        Ok(s) => final(self).sprites@ == old(self).sprites@.insert(user_id@, s)
                            && res.sprites,
                        Err(_) => final(self).sprites@ == old(self).sprites@.remove(user_id@)
                            && res.sprites == old(self).sprites@.contains_key(user_id@),
                    },
            },
            final(self).nekos@.self_cursor == old(self).nekos@.self_cursor,
            final(self).nekos@.active_dolls == old(self).nekos@.active_dolls.insert(user_id@, doll is Some),
            doll is Some ==> final(self).nekos@.friend_cursors == old(self).nekos@.friend_cursors
                && !res.nekos,
            doll is None ==> final(self).nekos@.friend_cursors == old(self).nekos@.friend_cursors.remove(
                user_id@,
            ) && res.nekos == old(self).nekos@.friend_cursors.contains_key(user_id@),
    {
        let sprites = self.sprites.set_active_doll(user_id, doll, gif);
        let nekos = self.nekos.set_friend_active_doll(user_id, doll.is_some());
        ProjectionUpdates { sprites, nekos }
    }

    /// Rebuilds only the sprites from the friend list; their snapshot is then
    /// sent.
    pub fn sync_active_doll_sprites_from_app_data(
        &mut self,
        friends: &Vec<FriendshipResponseDto>,
        gif: &DecodedGif,
    )
        requires
            friend_dolls_sliceable(friends@),
            frames_within_screen(*gif),
        ensures
            final(self).sprites@ == friend_sprites(friends@, *gif),
            final(self).nekos@ == old(self).nekos@,
    {
        self.sprites.sync_from_app_data(friends, gif);
    }

    /// A copy of the friends' sprites.
    pub fn get_active_doll_sprites_snapshot(&self) -> (res: FriendActiveDollSpritesDto)
        ensures
            string_values(res.0@) == self.sprites@,
    {
        self.sprites.get_snapshot()
    }
}

} // verus!

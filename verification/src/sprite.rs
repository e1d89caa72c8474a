//! The sprites of dolls: a doll's recoloured animation, and the signed-in
//! user's active doll.

use vstd::prelude::*;

use crate::models::{DollDto, DollView, UserData};
use crate::recolor::hex_slices_on_boundaries;
use crate::sprite_recolor::{
    recolor_b64_spec, recolor_gif_base64, DecodedGif,
};
use crate::text::str_eq;

verus! {

/// Sprites are drawn with the textured palettes.
pub const APPLY_TEXTURE: bool = true;

/// Every frame of the animation has no more pixels than its screen.
pub open spec fn frames_within_screen(gif: DecodedGif) -> bool {
    forall|i: int|
        0 <= i < gif.frames@.len() ==> #[trigger] gif.frames@[i].pixels@.len() <= 4 * ((
        gif.width as int) * (gif.height as int))
}

/// A doll's colours can be cut into their hex pairs.
pub open spec fn colors_sliceable(doll: DollView) -> bool {
    hex_slices_on_boundaries(doll.body) && hex_slices_on_boundaries(doll.outline)
}

/// The sprite of a doll: the body colour's parse error, else the outline
/// colour's, else the refusal of a frame that does not fill the screen, else
/// the base64 of the recoloured animation.
pub open spec fn doll_sprite_spec(doll: DollView, gif: DecodedGif) -> Result<Seq<char>, Seq<char>> {
    recolor_b64_spec(doll.body, doll.outline, APPLY_TEXTURE, gif)
}

/// `res` is the sprite of the doll.
pub open spec fn doll_sprite_ok(doll: DollView, gif: DecodedGif, res: Result<Seq<char>, Seq<char>>) -> bool {
    res == doll_sprite_spec(doll, gif)
}

/// The texts of a string result.
pub open spec fn text_result(r: Result<String, String>) -> Result<Seq<char>, Seq<char>> {
    match r {
        Ok(s) => Ok(s@),
        Err(e) => Err(e@),
    }
}

/// The sprite of a doll: the animation in the doll's body and outline colours,
/// textured, as base64.
pub fn encode_doll_sprite_base64(doll: &DollDto, gif: &DecodedGif) -> (res: Result<String, String>)
    requires
        colors_sliceable(doll@),
        frames_within_screen(*gif),
    ensures
        doll_sprite_ok(doll@, *gif, text_result(res)),
{
    let scheme = &doll.configuration.color_scheme;
    recolor_gif_base64(scheme.body.as_str(), scheme.outline.as_str(), APPLY_TEXTURE, gif)
}

/// The first doll of the list with the given id.
pub open spec fn find_doll(dolls: Seq<DollDto>, id: Seq<char>) -> Option<DollView>
    decreases dolls.len(),
{
    if dolls.len() == 0 {
        None
    } else if dolls[0]@.id == id {
        Some(dolls[0]@)
    } else {
        find_doll(dolls.drop_first(), id)
    }
}

/// The user's active doll: the doll of the user's list whose id is the
/// profile's active doll id; none while the profile, the id or the list is
/// missing, or no doll has that id.
pub open spec fn active_doll_spec(data: UserData) -> Option<DollView> {
    match data.user {
        None => None,
        Some(user) => match user.active_doll_id {
            None => None,
            Some(id) => match data.dolls {
                None => None,
                Some(dolls) => find_doll(dolls@, id@),
            },
        },
    }
}

/// The mathematical value of an optional doll.
pub open spec fn opt_doll_view(d: Option<DollDto>) -> Option<DollView> {
    match d {
        Some(d) => Some(d@),
        None => None,
    }
}

/// The signed-in user's active doll, if there is one.
pub fn get_active_doll(data: &UserData) -> (res: Option<DollDto>)
    ensures
        opt_doll_view(res) == active_doll_spec(*data),
{
    let user = match &data.user {
        Some(u) => u,
        None => {
            return None;
        },
    };
    let active_id = match &user.active_doll_id {
        Some(id) => id,
        None => {
            return None;
        },
    };
    let dolls = match &data.dolls {
        Some(d) => d,
        None => {
            return None;
        },
    };
    let mut i: usize = 0;
    proof {
        assert(dolls@.subrange(0, dolls@.len() as int) =~= dolls@);
    }
    assert(active_doll_spec(*data) == find_doll(dolls@, active_id@));
    while i < dolls.len()
        invariant
            i <= dolls@.len(),
            active_doll_spec(*data) == find_doll(dolls@, active_id@),
            find_doll(dolls@, active_id@) == find_doll(dolls@.subrange(i as int, dolls@.len() as int), active_id@),
        decreases dolls.len() - i,
    {
        let ghost rest = dolls@.subrange(i as int, dolls@.len() as int);
        assert(rest.drop_first() =~= dolls@.subrange(i + 1, dolls@.len() as int));
        assert(rest[0] == dolls@[i as int]);
        if str_eq(dolls[i].id.as_str(), active_id.as_str()) {
            return Some(dolls[i].duplicate());
        }
        i = i + 1;
    }
    proof {
        assert(dolls@.subrange(i as int, dolls@.len() as int).len() == 0);
    }
    None
}

/// The sprite of the user's active doll; `None` when there is no active doll.
pub fn get_active_doll_sprite_base64(data: &UserData, gif: &DecodedGif) -> (res: Result<
    Option<String>,
    String,
>)
    requires
        active_doll_spec(*data) matches Some(d) ==> colors_sliceable(d),
        frames_within_screen(*gif),
    ensures
        match active_doll_spec(*data) {
            None => res matches Ok(None),
            Some(d) => match res {
                Ok(Some(s)) => doll_sprite_ok(d, *gif, Ok(s@)),
                Err(e) => doll_sprite_ok(d, *gif, Err(e@)),
                Ok(None) => false,
            },
        },
{
    match get_active_doll(data) {
        None => Ok(None),
        Some(doll) => match encode_doll_sprite_base64(&doll, gif) {
            Ok(s) => Ok(Some(s)),
            Err(e) => Err(e),
        },
    }
}

} // verus!

//! The account data the client keeps: the signed-in user, the friend list and
//! the user's dolls, as far as the client's own logic reads them.

use vstd::prelude::*;

use crate::text::to_owned_string;

verus! {

/// The two colours a doll is drawn with, as `#rrggbb` texts.
pub struct DollColorScheme {
    pub body: String,
    pub outline: String,
}

/// How a doll looks.
pub struct DollConfiguration {
    pub color_scheme: DollColorScheme,
}

/// A doll of the server's records.
pub struct DollDto {
    pub id: String,
    pub name: String,
    pub configuration: DollConfiguration,
}

/// A doll as a value: its id, name, body colour and outline colour.
pub struct DollView {
    pub id: Seq<char>,
    pub name: Seq<char>,
    pub body: Seq<char>,
    pub outline: Seq<char>,
}

impl View for DollDto {
    type V = DollView;

    open spec fn view(&self) -> DollView {
        DollView {
            id: self.id@,
            name: self.name@,
            body: self.configuration.color_scheme.body@,
            outline: self.configuration.color_scheme.outline@,
        }
    }
}

impl DollDto {
    /// A copy of the doll.
    pub fn duplicate(&self) -> (res: DollDto)
        ensures
            res@ == self@,
    {
        DollDto {
            id: to_owned_string(self.id.as_str()),
            name: to_owned_string(self.name.as_str()),
            configuration: DollConfiguration {
                color_scheme: DollColorScheme {
                    body: to_owned_string(self.configuration.color_scheme.body.as_str()),
                    outline: to_owned_string(self.configuration.color_scheme.outline.as_str()),
                },
            },
        }
    }
}

/// The signed-in user's profile.
pub struct UserProfile {
    pub id: String,
    pub active_doll_id: Option<String>,
}

/// A friend, with the doll the friend has chosen, if any.
pub struct FriendUserDto {
    pub id: String,
    pub active_doll: Option<DollDto>,
}

/// One friendship of the friend list; the friend's record may be missing.
pub struct FriendshipResponseDto {
    pub friend: Option<FriendUserDto>,
}

/// The account data: each part is absent until it has been fetched.
pub struct UserData {
    pub user: Option<UserProfile>,
    pub friends: Option<Vec<FriendshipResponseDto>>,
    pub dolls: Option<Vec<DollDto>>,
}

impl UserData {
    /// Account data with nothing fetched yet.
    pub fn new() -> (res: UserData)
        ensures
            res.user is None,
            res.friends is None,
            res.dolls is None,
    {
        UserData { user: None, friends: None, dolls: None }
    }
}

/// Where on the screen the cats gather when their positions are overridden.
#[derive(Debug, Clone, Copy, PartialEq, Eq, Structural)]
pub enum NekoPosition {
    TopLeft,
    Top,
    TopRight,
    Left,
    Right,
    BottomLeft,
    Bottom,
    BottomRight,
}

/// A friend's id and whether the friend has an active doll, for each
/// friendship whose friend record is present, in list order.
pub open spec fn friend_doll_flags(friends: Seq<FriendshipResponseDto>) -> Seq<(Seq<char>, bool)>
    decreases friends.len(),
{
    if friends.len() == 0 {
        Seq::empty()
    } else {
        let rest = friend_doll_flags(friends.drop_last());
        match friends.last().friend {
            Some(f) => rest.push((f.id@, f.active_doll is Some)),
            None => rest,
        }
    }
}

} // verus!

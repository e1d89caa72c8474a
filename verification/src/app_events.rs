//! The events sent to the application's windows, each under its name. The
//! payloads that come from the server are carried as they are.

use vstd::prelude::*;

verus! {

/// The scene took or gave up the mouse.
pub struct SceneInteractiveChanged(pub bool);

impl SceneInteractiveChanged {
    /// The event's name.
    pub const NAME: &'static str = "scene-interactive";
}

/// The account data was fetched again.
pub struct AppDataRefreshed(pub crate::models::UserData);

impl AppDataRefreshed {
    /// The event's name.
    pub const NAME: &'static str = "app-data-refreshed";
}

/// The app menu's overlay (shown while the doll editor is open) is to be shown or removed.
pub struct SetInteractionOverlay(pub bool);

impl SetInteractionOverlay {
    /// The event's name.
    pub const NAME: &'static str = "set-interaction-overlay";
}

/// The open doll editor is to edit the doll with this id.
pub struct EditDoll(pub String);

impl EditDoll {
    /// The event's name.
    pub const NAME: &'static str = "edit-doll";
}

/// The user's status changed.
pub struct UserStatusChanged<P>(pub P);

impl<P> UserStatusChanged<P> {
    /// The event's name.
    pub const NAME: &'static str = "user-status-changed";
}

/// A new doll is to be made in the open doll editor.
pub struct CreateDoll;

impl CreateDoll {
    /// The event's name.
    pub const NAME: &'static str = "create-doll";
}

/// A friend went offline.
pub struct FriendDisconnected<P>(pub P);

impl<P> FriendDisconnected<P> {
    /// The event's name.
    pub const NAME: &'static str = "friend-disconnected";
}

/// A friend chose another doll.
pub struct FriendActiveDollChanged<P>(pub P);

impl<P> FriendActiveDollChanged<P> {
    /// The event's name.
    pub const NAME: &'static str = "friend-active-doll-changed";
}

/// A friend's status changed.
pub struct FriendUserStatusChanged<P>(pub P);

impl<P> FriendUserStatusChanged<P> {
    /// The event's name.
    pub const NAME: &'static str = "friend-user-status";
}

/// A friend sent an interaction.
pub struct InteractionReceived<P>(pub P);

impl<P> InteractionReceived<P> {
    /// The event's name.
    pub const NAME: &'static str = "interaction-received";
}

/// An interaction could not be delivered.
pub struct InteractionDeliveryFailed<P>(pub P);

impl<P> InteractionDeliveryFailed<P> {
    /// The event's name.
    pub const NAME: &'static str = "interaction-delivery-failed";
}

/// A friend request arrived.
pub struct FriendRequestReceived<P>(pub P);

impl<P> FriendRequestReceived<P> {
    /// The event's name.
    pub const NAME: &'static str = "friend-request-received";
}

/// A friend request was accepted.
pub struct FriendRequestAccepted<P>(pub P);

impl<P> FriendRequestAccepted<P> {
    /// The event's name.
    pub const NAME: &'static str = "friend-request-accepted";
}

/// A friend request was denied.
pub struct FriendRequestDenied<P>(pub P);

impl<P> FriendRequestDenied<P> {
    /// The event's name.
    pub const NAME: &'static str = "friend-request-denied";
}

/// A friendship ended.
pub struct Unfriended<P>(pub P);

impl<P> Unfriended<P> {
    /// The event's name.
    pub const NAME: &'static str = "unfriended";
}

} // verus!

//! The real-time connection to the server: the names of its events, which
//! account data each event makes stale, and what is needed to connect.

use vstd::prelude::*;

use crate::app_data::AppDataRefreshScope;
use crate::models::UserData;
use crate::text::{str_eq, to_owned_string};

verus! {

/// The names of the connection's events.
#[allow(non_camel_case_types)]
pub struct WS_EVENT;

impl WS_EVENT {
    pub const CURSOR_REPORT_POSITION: &'static str = "cursor-report-position";
    pub const FRIEND_REQUEST_RECEIVED: &'static str = "friend-request-received";
    pub const FRIEND_REQUEST_ACCEPTED: &'static str = "friend-request-accepted";
    pub const FRIEND_REQUEST_DENIED: &'static str = "friend-request-denied";
    pub const UNFRIENDED: &'static str = "unfriended";
    pub const FRIEND_CURSOR_POSITION: &'static str = "friend-cursor-position";
    pub const FRIEND_DISCONNECTED: &'static str = "friend-disconnected";
    pub const FRIEND_DOLL_CREATED: &'static str = "friend-doll-created";
    pub const FRIEND_DOLL_UPDATED: &'static str = "friend-doll-updated";
    pub const FRIEND_DOLL_DELETED: &'static str = "friend-doll-deleted";
    pub const FRIEND_ACTIVE_DOLL_CHANGED: &'static str = "friend-active-doll-changed";
    pub const DOLL_CREATED: &'static str = "doll_created";
    pub const DOLL_UPDATED: &'static str = "doll_updated";
    pub const DOLL_DELETED: &'static str = "doll_deleted";
    pub const CLIENT_INITIALIZE: &'static str = "client-initialize";
    pub const INITIALIZED: &'static str = "initialized";
    pub const INTERACTION_RECEIVED: &'static str = "interaction-received";
    pub const INTERACTION_DELIVERY_FAILED: &'static str = "interaction-delivery-failed";
    pub const CLIENT_SEND_INTERACTION: &'static str = "client-send-interaction";
}

/// An event that the server sends.
#[derive(Debug, Clone, Copy, PartialEq, Eq, Structural)]
pub enum ServerEvent {
    FriendRequestReceived,
    FriendRequestAccepted,
    FriendRequestDenied,
    Unfriended,
    FriendCursorPosition,
    FriendDisconnected,
    FriendDollCreated,
    FriendDollUpdated,
    FriendDollDeleted,
    FriendActiveDollChanged,
    DollCreated,
    DollUpdated,
    DollDeleted,
    Initialized,
    InteractionReceived,
    InteractionDeliveryFailed,
}

/// The name under which a server event arrives.
pub open spec fn event_name_spec(e: ServerEvent) -> Seq<char> {
    match e {
        ServerEvent::FriendRequestReceived => "friend-request-received"@,
        ServerEvent::FriendRequestAccepted => "friend-request-accepted"@,
        ServerEvent::FriendRequestDenied => "friend-request-denied"@,
        ServerEvent::Unfriended => "unfriended"@,
        ServerEvent::FriendCursorPosition => "friend-cursor-position"@,
        ServerEvent::FriendDisconnected => "friend-disconnected"@,
        ServerEvent::FriendDollCreated => "friend-doll-created"@,
        ServerEvent::FriendDollUpdated => "friend-doll-updated"@,
        ServerEvent::FriendDollDeleted => "friend-doll-deleted"@,
        ServerEvent::FriendActiveDollChanged => "friend-active-doll-changed"@,
        ServerEvent::DollCreated => "doll_created"@,
        ServerEvent::DollUpdated => "doll_updated"@,
        ServerEvent::DollDeleted => "doll_deleted"@,
        ServerEvent::Initialized => "initialized"@,
        ServerEvent::InteractionReceived => "interaction-received"@,
        ServerEvent::InteractionDeliveryFailed => "interaction-delivery-failed"@,
    }
}

/// The name under which the server sends an event.
pub fn server_event_name(e: ServerEvent) -> (res: &'static str)
    ensures
        res@ == event_name_spec(e),
{
    match e {
        ServerEvent::FriendRequestReceived => WS_EVENT::FRIEND_REQUEST_RECEIVED,
        ServerEvent::FriendRequestAccepted => WS_EVENT::FRIEND_REQUEST_ACCEPTED,
        ServerEvent::FriendRequestDenied => WS_EVENT::FRIEND_REQUEST_DENIED,
        ServerEvent::Unfriended => WS_EVENT::UNFRIENDED,
        ServerEvent::FriendCursorPosition => WS_EVENT::FRIEND_CURSOR_POSITION,
        ServerEvent::FriendDisconnected => WS_EVENT::FRIEND_DISCONNECTED,
        ServerEvent::FriendDollCreated => WS_EVENT::FRIEND_DOLL_CREATED,
        ServerEvent::FriendDollUpdated => WS_EVENT::FRIEND_DOLL_UPDATED,
        ServerEvent::FriendDollDeleted => WS_EVENT::FRIEND_DOLL_DELETED,
        ServerEvent::FriendActiveDollChanged => WS_EVENT::FRIEND_ACTIVE_DOLL_CHANGED,
        ServerEvent::DollCreated => WS_EVENT::DOLL_CREATED,
        ServerEvent::DollUpdated => WS_EVENT::DOLL_UPDATED,
        ServerEvent::DollDeleted => WS_EVENT::DOLL_DELETED,
        ServerEvent::Initialized => WS_EVENT::INITIALIZED,
        ServerEvent::InteractionReceived => WS_EVENT::INTERACTION_RECEIVED,
        ServerEvent::InteractionDeliveryFailed => WS_EVENT::INTERACTION_DELIVERY_FAILED,
    }
}

/// Whether the doll with the given id is the signed-in user's active doll.
pub open spec fn is_active_doll_spec(data: UserData, doll_id: Option<Seq<char>>) -> bool {
    match (doll_id, data.user) {
        (Some(id), Some(u)) => u.active_doll_id matches Some(a) && a@ == id,
        _ => false,
    }
}

/// Whether a doll the server reports on is the user's active doll (false
/// when the event gives no id).
pub fn is_active_doll(data: &UserData, doll_id: Option<&str>) -> (res: bool)
    ensures
        res == is_active_doll_spec(
            *data,
            match doll_id {
                Some(d) => Some(d@),
                None => None,
            },
        ),
{
    match (doll_id, &data.user) {
        (Some(id), Some(u)) => match &u.active_doll_id {
            Some(a) => str_eq(a.as_str(), id),
            None => false,
        },
        _ => false,
    }
}

/// The refreshes an event asks for, in order: the friend list after a
/// request is accepted, an unfriending or a friend's change of doll; the dolls
/// after one is made, changed or deleted, then (when it is the active doll) the
/// profile and the friend list. Events with a payload list ask only when the
/// list is not empty.
pub open spec fn refreshes_after_spec(e: ServerEvent, has_payload: bool, active_doll: bool) -> Seq<
    AppDataRefreshScope,
> {
    match e {
        ServerEvent::FriendRequestAccepted | ServerEvent::Unfriended => seq![
            AppDataRefreshScope::Friends,
        ],
        ServerEvent::FriendActiveDollChanged => if has_payload {
            seq![AppDataRefreshScope::Friends]
        } else {
            Seq::empty()
        },
        ServerEvent::DollCreated => if has_payload {
            seq![AppDataRefreshScope::Dolls]
        } else {
            Seq::empty()
        },
        ServerEvent::DollUpdated | ServerEvent::DollDeleted => if !has_payload {
            Seq::empty()
        } else if active_doll {
            seq![AppDataRefreshScope::Dolls, AppDataRefreshScope::User, AppDataRefreshScope::Friends]
        } else {
            seq![AppDataRefreshScope::Dolls]
        },
        _ => Seq::empty(),
    }
}

/// The refreshes an event asks for.
pub fn refreshes_after(e: ServerEvent, has_payload: bool, active_doll: bool) -> (res: Vec<
    AppDataRefreshScope,
>)
    ensures
        res@ == refreshes_after_spec(e, has_payload, active_doll),
{
    let mut out: Vec<AppDataRefreshScope> = Vec::new();
    match e {
        ServerEvent::FriendRequestAccepted | ServerEvent::Unfriended => {
            out.push(AppDataRefreshScope::Friends);
        },
        ServerEvent::FriendActiveDollChanged => {
            if has_payload {
                out.push(AppDataRefreshScope::Friends);
            }
        },
        ServerEvent::DollCreated => {
            if has_payload {
                out.push(AppDataRefreshScope::Dolls);
            }
        },
        ServerEvent::DollUpdated | ServerEvent::DollDeleted => {
            if has_payload {
                out.push(AppDataRefreshScope::Dolls);
                if active_doll {
                    out.push(AppDataRefreshScope::User);
                    out.push(AppDataRefreshScope::Friends);
                }
            }
        },
        _ => {},
    }
    assert(out@ =~= refreshes_after_spec(e, has_payload, active_doll));
    out
}

/// Whether the event is passed on to the windows (under its own name).
pub fn forwarded_to_windows(e: ServerEvent) -> (res: bool)
    ensures
        res == (match e {
            ServerEvent::FriendRequestReceived | ServerEvent::FriendRequestAccepted
            | ServerEvent::FriendRequestDenied | ServerEvent::Unfriended
            | ServerEvent::FriendCursorPosition | ServerEvent::FriendDisconnected
            | ServerEvent::FriendActiveDollChanged | ServerEvent::InteractionReceived
            | ServerEvent::InteractionDeliveryFailed => true,
            _ => false,
        }),
{
    match e {
        ServerEvent::FriendRequestReceived | ServerEvent::FriendRequestAccepted
        | ServerEvent::FriendRequestDenied | ServerEvent::Unfriended
        | ServerEvent::FriendCursorPosition | ServerEvent::FriendDisconnected
        | ServerEvent::FriendActiveDollChanged | ServerEvent::InteractionReceived
        | ServerEvent::InteractionDeliveryFailed => true,
        _ => false,
    }
}

/// What connecting needs: an access token and the server's address. Without
/// a token, or without an address, there is no connection.
pub fn build_ws_client(access_token: Option<String>, api_base_url: Option<String>) -> (res: Result<
    (String, String),
    String,
>)
    ensures
        access_token is None ==> (res matches Err(m) && m@
            == "No access token available for WebSocket connection"@),
        access_token is Some && api_base_url is None ==> (res matches Err(m) && m@
            == "Missing API base URL"@),
        access_token is Some && api_base_url is Some ==> res == Ok::<(String, String), String>(
            (api_base_url->0, access_token->0),
        ),
{
    let token = match access_token {
        Some(t) => t,
        None => {
            return Err(to_owned_string("No access token available for WebSocket connection"));
        },
    };
    let url = match api_base_url {
        Some(u) => u,
        None => {
            return Err(to_owned_string("Missing API base URL"));
        },
    };
    Ok((url, token))
}

/// The message of a failed connection.
pub fn connect_error_message(detail: &str) -> (res: String)
    ensures
        res@ == "Failed to connect WebSocket: "@ + detail@,
{
    String::from_str("Failed to connect WebSocket: ").concat(detail)
}

/// A cursor is reported only over a connection that the server has
/// acknowledged.
pub fn should_report_cursor(has_client: bool, initialized: bool) -> (res: bool)
    ensures
        res == (has_client && initialized),
{
    has_client && initialized
}

/// The error shown on the health manager when a report cannot be sent.
pub fn emit_failure_message(detail: &str) -> (res: String)
    ensures
        res@ == "WebSocket emit failed: "@ + detail@,
{
    String::from_str("WebSocket emit failed: ").concat(detail)
}


/// A change of the friend list itself (a friend request accepted, or an
/// unfriending) is followed by exactly one refresh, of the friend list,
/// whatever the payload and whatever the active doll.
pub proof fn lemma_friend_list_changes_refresh_friends(has_payload: bool, active_doll: bool)
    ensures
        refreshes_after_spec(ServerEvent::FriendRequestAccepted, has_payload, active_doll).len() == 1,
        refreshes_after_spec(ServerEvent::FriendRequestAccepted, has_payload, active_doll)[0]
            == AppDataRefreshScope::Friends,
        refreshes_after_spec(ServerEvent::Unfriended, has_payload, active_doll).len() == 1,
        refreshes_after_spec(ServerEvent::Unfriended, has_payload, active_doll)[0]
            == AppDataRefreshScope::Friends,
{
}

/// A change to the active doll (updated or deleted, with a payload) refreshes
/// the dolls, the profile and the friend list, dolls first; a change to
/// another doll refreshes the dolls alone.
pub proof fn lemma_doll_changes_refresh(e: ServerEvent, active_doll: bool)
    requires
        e == ServerEvent::DollUpdated || e == ServerEvent::DollDeleted,
    ensures
        refreshes_after_spec(e, true, active_doll)[0] == AppDataRefreshScope::Dolls,
        active_doll ==> refreshes_after_spec(e, true, active_doll).len() == 3
            && refreshes_after_spec(e, true, active_doll).contains(AppDataRefreshScope::User)
            && refreshes_after_spec(e, true, active_doll).contains(AppDataRefreshScope::Friends),
        !active_doll ==> refreshes_after_spec(e, true, active_doll).len() == 1,
{
    if active_doll {
        assert(refreshes_after_spec(e, true, active_doll)[1] == AppDataRefreshScope::User);
        assert(refreshes_after_spec(e, true, active_doll)[2] == AppDataRefreshScope::Friends);
    }
}

} // verus!

//! Opening and closing a user's session, as ordered steps.

use vstd::prelude::*;

use crate::app_data::AppDataRefreshScope;

verus! {

/// One step of opening or closing a session.
#[derive(Debug, Clone, Copy, PartialEq, Eq, Structural)]
pub enum SessionStep {
    /// Refresh the account data of a scope.
    RefreshAppData(AppDataRefreshScope),
    /// Open the real-time connection.
    ConnectRealtime,
    /// Start refreshing the credential in the background.
    StartTokenRefresh,
    /// Start watching the server's health.
    StartHealthMonitor,
    /// Stop watching the server's health.
    StopHealthMonitor,
    /// Stop refreshing the credential.
    StopTokenRefresh,
    /// Forget the account data and the friend projections.
    ClearAppData,
    /// Drop the real-time connection.
    ClearRealtime,
    /// Close every window.
    CloseAllWindows,
    /// Open the scene.
    OpenSceneWindow,
    /// Rebuild the tray menu for a signed-in user or not.
    UpdateTray(bool),
    /// Show the health manager with the failure's message.
    OpenHealthManager,
}

/// The steps that open a session.
pub open spec fn construct_steps() -> Seq<SessionStep> {
    seq![
        SessionStep::RefreshAppData(AppDataRefreshScope::All),
        SessionStep::ConnectRealtime,
        SessionStep::StartTokenRefresh,
        SessionStep::StartHealthMonitor,
        SessionStep::CloseAllWindows,
        SessionStep::OpenSceneWindow,
        SessionStep::UpdateTray(true),
    ]
}

/// The steps that close a session.
pub open spec fn destruct_steps() -> Seq<SessionStep> {
    seq![
        SessionStep::StopHealthMonitor,
        SessionStep::StopTokenRefresh,
        SessionStep::ClearAppData,
        SessionStep::ClearRealtime,
        SessionStep::CloseAllWindows,
        SessionStep::UpdateTray(false),
    ]
}

/// Opening a session: fetch all account data, connect, keep the credential
/// fresh, watch the server; then replace every window by the scene and show
/// the signed-in tray menu.
pub fn construct_user_session() -> (res: Vec<SessionStep>)
    ensures
        res@ == construct_steps(),
{
    let v = vec![
        SessionStep::RefreshAppData(AppDataRefreshScope::All),
        SessionStep::ConnectRealtime,
        SessionStep::StartTokenRefresh,
        SessionStep::StartHealthMonitor,
        SessionStep::CloseAllWindows,
        SessionStep::OpenSceneWindow,
        SessionStep::UpdateTray(true),
    ];
    assert(v@ =~= construct_steps());
    v
}

/// Closing a session: stop the watches, forget the data, disconnect, close
/// every window and show the signed-out tray menu.
pub fn destruct_user_session() -> (res: Vec<SessionStep>)
    ensures
        res@ == destruct_steps(),
{
    let v = vec![
        SessionStep::StopHealthMonitor,
        SessionStep::StopTokenRefresh,
        SessionStep::ClearAppData,
        SessionStep::ClearRealtime,
        SessionStep::CloseAllWindows,
        SessionStep::UpdateTray(false),
    ];
    assert(v@ =~= destruct_steps());
    v
}

/// Losing the server: the session is closed, then the health manager shows
/// what happened.
pub fn handle_disastrous_failure() -> (res: Vec<SessionStep>)
    ensures
        res@ == destruct_steps().push(SessionStep::OpenHealthManager),
{
    let mut v = destruct_user_session();
    v.push(SessionStep::OpenHealthManager);
    v
}

/// A closed session leaves no watch running and no data behind: every step
/// that starts something when opening is undone when closing.
pub proof fn lemma_close_undoes_open()
    ensures
        construct_steps().contains(SessionStep::StartHealthMonitor) ==> destruct_steps().contains(
            SessionStep::StopHealthMonitor,
        ),
        construct_steps().contains(SessionStep::StartTokenRefresh) ==> destruct_steps().contains(
            SessionStep::StopTokenRefresh,
        ),
        construct_steps().contains(SessionStep::ConnectRealtime) ==> destruct_steps().contains(
            SessionStep::ClearRealtime,
        ),
        construct_steps().contains(SessionStep::RefreshAppData(AppDataRefreshScope::All))
            ==> destruct_steps().contains(SessionStep::ClearAppData),
{
    assert(destruct_steps()[0] == SessionStep::StopHealthMonitor);
    assert(destruct_steps()[1] == SessionStep::StopTokenRefresh);
    assert(destruct_steps()[2] == SessionStep::ClearAppData);
    assert(destruct_steps()[3] == SessionStep::ClearRealtime);
}

} // verus!

//! Presence modules: scripts that report what the user is doing, with their
//! metadata and the status they report.

use vstd::prelude::*;

use crate::text::to_owned_string;

verus! {

/// What a presence module reports: a title, a subtitle and a picture (base64),
/// each if any.
pub struct PresenceStatus {
    pub title: Option<String>,
    pub subtitle: Option<String>,
    pub graphics_b64: Option<String>,
}

/// A presence module's description, read from its `metadata.json`.
pub struct ModuleMetadata {
    pub id: String,
    pub name: String,
    pub version: String,
    pub description: Option<String>,
}

/// The user's status as sent to the server.
pub struct UserStatusPayload {
    pub presence_status: PresenceStatus,
    pub state: String,
}

/// The status a module reports, with the user idle.
pub fn idle_status(presence_status: PresenceStatus) -> (res: UserStatusPayload)
    ensures
        res.presence_status == presence_status,
        res.state@ == "idle"@,
{
    UserStatusPayload { presence_status, state: to_owned_string("idle") }
}

/// A module runs when its directory has a readable `metadata.json` and a
/// `main.lua` script.
pub fn module_runs(has_metadata: bool, has_script: bool) -> (res: bool)
    ensures
        res == (has_metadata && has_script),
{
    has_metadata && has_script
}

} // verus!

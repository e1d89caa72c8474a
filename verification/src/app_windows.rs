//! The application's windows, each with its label, page and look: the app
//! menu, the welcome and health-manager screens, the splash, the scene, and
//! the doll editor (opened over the app menu, which it locks while it is
//! open).

use vstd::prelude::*;

use crate::client_config::ClientConfigError;
use crate::models::UserData;
use crate::text::to_owned_string;
use crate::urls::{encode_query_value, form_encode_str};
use crate::window_manager::{EnsureOutcome, WindowConfig, WindowKind};

verus! {

/// Label of the app menu window.
pub const APP_MENU_WINDOW_LABEL: &'static str = "app_menu";

/// Label of the welcome window.
pub const WELCOME_WINDOW_LABEL: &'static str = "welcome";

/// Label of the health manager window.
pub const HEALTH_MANAGER_WINDOW_LABEL: &'static str = "health_manager";

/// Label of the scene window.
pub const SCENE_WINDOW_LABEL: &'static str = "scene";

/// Label of the splash window.
pub const SPLASH_WINDOW_LABEL: &'static str = "splash";

/// Title of the dialog shown when a screen cannot be shown.
pub const WINDOW_ERROR_TITLE: &'static str = "Window Error";

/// The app menu: a resizable 400x550 regular window.
pub fn open_app_menu_window() -> (res: WindowConfig)
    ensures
        res.label@ == APP_MENU_WINDOW_LABEL@,
        res.url_path@ == "/app-menu"@,
        res.title@ == "Friendolls"@,
        res.width == 400 && res.height == 550,
        res.resizable,
        res.visible,
        res.parent_label is None,
        res.kind == WindowKind::RegularUi,
{
    let mut config = WindowConfig::regular_ui(APP_MENU_WINDOW_LABEL, to_owned_string("/app-menu"), "Friendolls");
    config.width = 400;
    config.height = 550;
    config.resizable = true;
    config
}

/// The welcome screen: a regular window, built hidden (it is centred, then
/// shown).
pub fn welcome_window_config() -> (res: WindowConfig)
    ensures
        res.label@ == WELCOME_WINDOW_LABEL@,
        res.url_path@ == "/welcome"@,
        res.title@ == "Welcome to Friendolls"@,
        res.width == 420 && res.height == 420,
        !res.visible,
        res.kind == WindowKind::RegularUi,
{
    let mut config = WindowConfig::regular_ui(
        WELCOME_WINDOW_LABEL,
        to_owned_string("/welcome"),
        "Welcome to Friendolls",
    );
    config.visible = false;
    config
}

/// The error shown on the health manager when none is given.
pub const DEFAULT_HEALTH_ERROR: &'static str = "Something went wrong!";

/// The health manager's page, with the error (or the default one) as its
/// `err` query value.
pub fn health_manager_url(error_message: Option<&str>) -> (res: String)
    ensures
        res@ == "/health-manager?err="@ + form_encode_str(
            match error_message {
                Some(m) => m@,
                None => DEFAULT_HEALTH_ERROR@,
            },
        ),
{
    let message = match error_message {
        Some(m) => m,
        None => DEFAULT_HEALTH_ERROR,
    };
    String::from_str("/health-manager?err=").concat(encode_query_value(message).as_str())
}

/// The health manager: a regular window, built hidden (it is centred, then
/// shown), showing the error.
pub fn health_manager_window_config(error_message: Option<&str>) -> (res: WindowConfig)
    ensures
        res.label@ == HEALTH_MANAGER_WINDOW_LABEL@,
        res.url_path@ == "/health-manager?err="@ + form_encode_str(
            match error_message {
                Some(m) => m@,
                None => DEFAULT_HEALTH_ERROR@,
            },
        ),
        res.title@ == "Health Manager"@,
        !res.visible,
        res.kind == WindowKind::RegularUi,
{
    let mut config = WindowConfig::regular_ui(
        HEALTH_MANAGER_WINDOW_LABEL,
        health_manager_url(error_message),
        "Health Manager",
    );
    config.visible = false;
    config
}

/// The windows that the health manager replaces: the scene, the app menu,
/// the welcome screen and the splash.
pub open spec fn primary_window_labels() -> Seq<Seq<char>> {
    seq![SCENE_WINDOW_LABEL@, APP_MENU_WINDOW_LABEL@, WELCOME_WINDOW_LABEL@, SPLASH_WINDOW_LABEL@]
}

/// How the health manager is shown: the primary windows are closed first,
/// then its window is made sure of.
pub struct HealthManagerPlan {
    /// Labels of the windows to close, in order.
    pub close_labels: Vec<String>,
    /// The health manager's window.
    pub config: WindowConfig,
}

/// Plans the health manager for an error: close the primary windows, then
/// the health manager window showing the error (or the default message).
pub fn open_health_manager_window(error_message: Option<&str>) -> (res: HealthManagerPlan)
    ensures
        res.close_labels@.len() == primary_window_labels().len(),
        forall|i: int|
            0 <= i < res.close_labels@.len() ==> #[trigger] res.close_labels@[i]@
                == primary_window_labels()[i],
        res.config.label@ == HEALTH_MANAGER_WINDOW_LABEL@,
        res.config.url_path@ == "/health-manager?err="@ + form_encode_str(
            match error_message {
                Some(m) => m@,
                None => DEFAULT_HEALTH_ERROR@,
            },
        ),
        res.config.title@ == "Health Manager"@,
        !res.config.visible,
        res.config.kind == WindowKind::RegularUi,
{
    let close_labels = vec![
        to_owned_string(SCENE_WINDOW_LABEL),
        to_owned_string(APP_MENU_WINDOW_LABEL),
        to_owned_string(WELCOME_WINDOW_LABEL),
        to_owned_string(SPLASH_WINDOW_LABEL),
    ];
    HealthManagerPlan { close_labels, config: health_manager_window_config(error_message) }
}

/// What follows making sure of the health manager window.
#[derive(Debug, Clone, Copy, PartialEq, Eq, Structural)]
pub enum HealthManagerFollowUp {
    /// Centre the new window, then show it.
    CenterAndShow,
    /// Show the error dialog: the existing window could not be shown.
    ShowErrorDialog,
    /// Nothing more (an existing window was shown, or the failure is logged).
    Nothing,
}

/// The message of the dialog shown when the health manager cannot be shown.
pub const HEALTH_MANAGER_ERROR_MESSAGE: &'static str =
    "Failed to show the health manager screen. Please restart and try again.";

/// What follows making sure of the health manager window: a new one is
/// centred and shown; an existing one that could not be shown gives the error
/// dialog; otherwise nothing.
pub fn health_manager_follow_up(outcome: EnsureOutcome) -> (res: HealthManagerFollowUp)
    ensures
        res == (match outcome {
            EnsureOutcome::Created => HealthManagerFollowUp::CenterAndShow,
            EnsureOutcome::ShowExistingFailed => HealthManagerFollowUp::ShowErrorDialog,
            _ => HealthManagerFollowUp::Nothing,
        }),
{
    match outcome {
        EnsureOutcome::Created => HealthManagerFollowUp::CenterAndShow,
        EnsureOutcome::ShowExistingFailed => HealthManagerFollowUp::ShowErrorDialog,
        _ => HealthManagerFollowUp::Nothing,
    }
}

/// After the health manager window was asked to close: when it closed, the
/// tray menu is rebuilt for whether a user is signed in (`Some`); when it did
/// not, nothing follows.
pub fn close_health_manager_window(closed: bool, data: &UserData) -> (tray_logged_in: Option<bool>)
    ensures
        closed ==> tray_logged_in == Some(data.user is Some),
        !closed ==> tray_logged_in is None,
{
    if closed {
        Some(data.user.is_some())
    } else {
        None
    }
}

/// The splash: an 800x400 accessory window, built hidden.
pub fn splash_window_config() -> (res: WindowConfig)
    ensures
        res.label@ == SPLASH_WINDOW_LABEL@,
        res.url_path@ == "/splash.html"@,
        res.title@ == "Friendolls Splash"@,
        res.width == 800 && res.height == 400,
        !res.visible,
        res.kind == WindowKind::Accessory,
{
    let mut config = WindowConfig::accessory(
        SPLASH_WINDOW_LABEL,
        to_owned_string("/splash.html"),
        "Friendolls Splash",
    );
    config.width = 800;
    config.height = 400;
    config.visible = false;
    config
}

/// The scene: a 600x500 accessory window on every workspace (it is then
/// stretched over the primary monitor and lets clicks through).
pub fn scene_window_config() -> (res: WindowConfig)
    ensures
        res.label@ == SCENE_WINDOW_LABEL@,
        res.url_path@ == "/scene"@,
        res.title@ == "Friendolls Scene"@,
        res.width == 600 && res.height == 500,
        res.visible_on_all_workspaces,
        res.visible,
        res.kind == WindowKind::Accessory,
{
    let mut config = WindowConfig::accessory(SCENE_WINDOW_LABEL, to_owned_string("/scene"), "Friendolls Scene");
    config.width = 600;
    config.height = 500;
    config.visible_on_all_workspaces = true;
    config
}

/// The doll editor's window label: one per doll, one for a new doll.
pub open spec fn doll_editor_label_spec(doll_id: Option<Seq<char>>) -> Seq<char> {
    match doll_id {
        Some(id) => "doll_editor_"@ + id,
        None => "doll_editor_create"@,
    }
}

/// The doll editor's page: with the doll's id as the `id` query value, or
/// without one for a new doll.
pub open spec fn doll_editor_url_spec(doll_id: Option<Seq<char>>) -> Seq<char> {
    match doll_id {
        Some(id) => "/doll-editor?id="@ + form_encode_str(id),
        None => "/doll-editor"@,
    }
}

/// The text of an optional string slice.
pub open spec fn opt_text(o: Option<&str>) -> Option<Seq<char>> {
    match o {
        Some(s) => Some(s@),
        None => None,
    }
}

/// How the doll editor is opened.
pub struct DollEditorPlan {
    /// The editor's window.
    pub config: WindowConfig,
    /// Whether the app menu is locked while the editor is open (input
    /// disabled on Windows; an overlay and a focus trap on macOS): when the
    /// editor is new and the app menu is open.
    pub lock_parent: bool,
}

/// Plans the doll editor for a doll (or a new one): its label and page, a
/// 300x400 always-on-top regular window, put under the app menu when the
/// editor is new and the app menu is open.
pub fn open_doll_editor_window(
    doll_id: Option<&str>,
    editor_exists: bool,
    app_menu_exists: bool,
) -> (res: DollEditorPlan)
    ensures
        res.config.label@ == doll_editor_label_spec(opt_text(doll_id)),
        res.config.url_path@ == doll_editor_url_spec(opt_text(doll_id)),
        res.config.title@ == "Doll Editor"@,
        res.config.width == 300 && res.config.height == 400,
        res.config.always_on_top,
        !res.config.require_parent,
        res.config.kind == WindowKind::RegularUi,
        res.lock_parent == (!editor_exists && app_menu_exists),
        res.lock_parent ==> (res.config.parent_label matches Some(p) && p@ == APP_MENU_WINDOW_LABEL@),
        !res.lock_parent ==> res.config.parent_label is None,
{
    let label: String = match doll_id {
        Some(id) => String::from_str("doll_editor_").concat(id),
        None => to_owned_string("doll_editor_create"),
    };
    let url: String = match doll_id {
        Some(id) => String::from_str("/doll-editor?id=").concat(encode_query_value(id).as_str()),
        None => to_owned_string("/doll-editor"),
    };
    let lock_parent = !editor_exists && app_menu_exists;
    let mut config = WindowConfig::regular_ui(label.as_str(), url, "Doll Editor");
    config.width = 300;
    config.height = 400;
    config.always_on_top = true;
    config.parent_label = if lock_parent {
        Some(to_owned_string(APP_MENU_WINDOW_LABEL))
    } else {
        None
    };
    config.require_parent = false;
    DollEditorPlan { config, lock_parent }
}

/// What follows making sure of the doll editor.
#[derive(Debug, Clone, Copy, PartialEq, Eq, Structural)]
pub enum DollEditorFollowUp {
    /// Watch the new editor: when it is destroyed, unlock and focus the app
    /// menu.
    WatchForClose,
    /// Tell the existing editor which doll to edit (or that a new doll is
    /// being made).
    NotifyExisting,
    /// Unlock the app menu again: the editor could not be built.
    UnlockParent,
    /// Nothing (the failure is logged).
    Nothing,
}

/// What follows making sure of the doll editor: a new editor is watched; an
/// existing one is told what to edit; a failed build unlocks the app menu if
/// it had been locked.
pub fn doll_editor_follow_up(outcome: EnsureOutcome, lock_parent: bool) -> (res: DollEditorFollowUp)
    ensures
        res == (match outcome {
            EnsureOutcome::Created => DollEditorFollowUp::WatchForClose,
            EnsureOutcome::Existing => DollEditorFollowUp::NotifyExisting,
            EnsureOutcome::SetParentFailed | EnsureOutcome::BuildFailed => if lock_parent {
                DollEditorFollowUp::UnlockParent
            } else {
                DollEditorFollowUp::Nothing
            },
            _ => DollEditorFollowUp::Nothing,
        }),
{
    match outcome {
        EnsureOutcome::Created => DollEditorFollowUp::WatchForClose,
        EnsureOutcome::Existing => DollEditorFollowUp::NotifyExisting,
        EnsureOutcome::SetParentFailed | EnsureOutcome::BuildFailed => if lock_parent {
            DollEditorFollowUp::UnlockParent
        } else {
            DollEditorFollowUp::Nothing
        },
        _ => DollEditorFollowUp::Nothing,
    }
}

/// Label of the advanced configuration window.
pub const CLIENT_CONFIG_WINDOW_LABEL: &'static str = "client_config";

/// Label of the configuration manager window.
pub const CLIENT_CONFIG_MANAGER_WINDOW_LABEL: &'static str = "client_config_manager";

/// The advanced configuration window: a 300x420 regular window, built
/// hidden (it is shown and focused once built).
pub fn config_window_config() -> (res: WindowConfig)
    ensures
        res.label@ == CLIENT_CONFIG_WINDOW_LABEL@,
        res.url_path@ == "/client-config"@,
        res.title@ == "Advanced Configuration"@,
        res.width == 300 && res.height == 420,
        !res.visible,
        res.kind == WindowKind::RegularUi,
{
    let mut config = WindowConfig::regular_ui(
        CLIENT_CONFIG_WINDOW_LABEL,
        to_owned_string("/client-config"),
        "Advanced Configuration",
    );
    config.width = 300;
    config.height = 420;
    config.visible = false;
    config
}

/// How opening the configuration window ended: a new window that could not
/// be shown, an existing one that could not be shown, a missing parent, or a
/// failed build each give their error (with `detail`, the outside error's
/// message).
pub fn config_window_result(outcome: EnsureOutcome, shown: bool, detail: String) -> (res: Result<
    (),
    ClientConfigError,
>)
    ensures
        match outcome {
            EnsureOutcome::Created => if shown {
                res is Ok
            } else {
                res matches Err(ClientConfigError::ShowWindow(m)) && m@ == detail@
            },
            EnsureOutcome::Existing => res is Ok,
            EnsureOutcome::ShowExistingFailed => res matches Err(ClientConfigError::ShowWindow(m)) && m@
                == detail@,
            EnsureOutcome::MissingParent => res matches Err(ClientConfigError::MissingParent(m)) && m@
                == detail@,
            EnsureOutcome::SetParentFailed | EnsureOutcome::BuildFailed => res matches Err(
                ClientConfigError::Window(m),
            ) && m@ == detail@,
        },
{
    match outcome {
        EnsureOutcome::Created => if shown {
            Ok(())
        } else {
            Err(ClientConfigError::ShowWindow(detail))
        },
        EnsureOutcome::Existing => Ok(()),
        EnsureOutcome::ShowExistingFailed => Err(ClientConfigError::ShowWindow(detail)),
        EnsureOutcome::MissingParent => Err(ClientConfigError::MissingParent(detail)),
        EnsureOutcome::SetParentFailed | EnsureOutcome::BuildFailed => Err(ClientConfigError::Window(detail)),
    }
}

/// The configuration manager window (built directly, without the window
/// registry): a 300x420 regular window, fixed in size and built hidden.
pub fn open_config_manager_window() -> (res: WindowConfig)
    ensures
        res.label@ == CLIENT_CONFIG_MANAGER_WINDOW_LABEL@,
        res.url_path@ == "/client-config-manager"@,
        res.title@ == "Advanced Configuration"@,
        res.width == 300 && res.height == 420,
        !res.resizable && !res.maximizable,
        !res.visible,
{
    let mut config = WindowConfig::regular_ui(
        CLIENT_CONFIG_MANAGER_WINDOW_LABEL,
        to_owned_string("/client-config-manager"),
        "Advanced Configuration",
    );
    config.width = 300;
    config.height = 420;
    config.visible = false;
    config
}

} // verus!

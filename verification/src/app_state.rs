//! The application's own state shared with the windows: how the scene is set
//! up (where the cats gather, if they are pinned).

use vstd::prelude::*;

use crate::models::NekoPosition;

verus! {

/// How the scene is set up.
#[derive(Debug, Clone, Copy, PartialEq, Eq, Structural)]
pub struct SceneSetup {
    /// Where the cats gather; `None` lets each follow its cursor.
    pub nekos_position: Option<NekoPosition>,
}

/// The application's state.
#[derive(Debug, Clone, Copy, PartialEq, Eq, Structural)]
pub struct AppState {
    pub scene_setup: SceneSetup,
}

/// The state, as kept by the application.
pub struct AppStateStore {
    state: AppState,
}

impl View for AppStateStore {
    type V = AppState;

    closed spec fn view(&self) -> AppState {
        self.state
    }
}

impl AppStateStore {
    /// The initial state: the cats are not pinned.
    pub fn new() -> (res: Self)
        ensures
            res@.scene_setup.nekos_position is None,
    {
        AppStateStore { state: AppState { scene_setup: SceneSetup { nekos_position: None } } }
    }

    /// A copy of the state.
    pub fn get_snapshot(&self) -> (res: AppState)
        ensures
            res == self@,
    {
        self.state
    }

    /// Pins the cats to a side or corner, or lets them follow their cursors;
    /// the new state is then sent to the windows.
    pub fn set_scene_setup_nekos_position(&mut self, nekos_position: Option<NekoPosition>)
        ensures
            final(self)@.scene_setup.nekos_position == nekos_position,
    {
        self.state.scene_setup.nekos_position = nekos_position;
    }
}

} // verus!

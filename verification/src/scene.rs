//! Whether the scene takes the mouse: it does while the interactivity hotkey
//! is held or while a pet's menu is open; otherwise clicks go through it to
//! the windows below.

use vstd::prelude::*;

use crate::str_map::StrMap;

verus! {

/// The scene's interactivity: whether it takes the mouse, which pet menus
/// are open, and what the last poll of the keyboard found.
pub struct SceneInteractivity {
    interactive: bool,
    open_menus: StrMap<()>,
    last_polled: bool,
}

/// The interactivity as values.
pub struct SceneView {
    pub interactive: bool,
    pub open_menus: Set<Seq<char>>,
    pub last_polled: bool,
}

impl View for SceneInteractivity {
    type V = SceneView;

    closed spec fn view(&self) -> SceneView {
        SceneView {
            interactive: self.interactive,
            open_menus: self.open_menus@.dom(),
            last_polled: self.last_polled,
        }
    }
}

/// What the scene window does after a change of interactivity: ignore
/// cursor events or not, and whether a left click is simulated; it is also
/// told the new state.
#[derive(Debug, Clone, Copy, PartialEq, Eq, Structural)]
pub struct SceneWindowUpdate {
    pub ignore_cursor_events: bool,
    pub click: bool,
}

impl SceneInteractivity {
    /// Not interactive, no menu open.
    pub fn new() -> (res: Self)
        ensures
            !res@.interactive,
            res@.open_menus == Set::<Seq<char>>::empty(),
            !res@.last_polled,
    {
        let res = SceneInteractivity { interactive: false, open_menus: StrMap::new(), last_polled: false };
        assert(res@.open_menus =~= Set::<Seq<char>>::empty());
        res
    }

    /// Whether the scene takes the mouse.
    pub fn get_scene_interactive(&self) -> (res: bool)
        ensures
            res == self@.interactive,
    {
        self.interactive
    }

    /// Makes the scene take the mouse or not; leaving interactivity closes
    /// every pet menu. When the scene window exists, it then ignores cursor
    /// events exactly when it is not interactive, a left click is made when one
    /// was asked for and the cursor's position is known, and the window is told
    /// the new state; without the window nothing follows (`None`).
    pub fn update_scene_interactive(
        &mut self,
        interactive: bool,
        should_click: bool,
        window_exists: bool,
        cursor_known: bool,
    ) -> (res: Option<SceneWindowUpdate>)
        ensures
            final(self)@.interactive == interactive,
            final(self)@.last_polled == old(self)@.last_polled,
            interactive ==> final(self)@.open_menus == old(self)@.open_menus,
            !interactive ==> final(self)@.open_menus == Set::<Seq<char>>::empty(),
            !window_exists ==> res is None,
            window_exists ==> res == Some(
                SceneWindowUpdate {
                    ignore_cursor_events: !interactive,
                    click: should_click && cursor_known,
                },
            ),
    {
        self.set_interactive(interactive);
        if window_exists {
            Some(SceneWindowUpdate { ignore_cursor_events: !interactive, click: should_click && cursor_known })
        } else {
            None
        }
    }

    /// Sets the interactivity; leaving it closes every pet menu.
    fn set_interactive(&mut self, interactive: bool)
        ensures
            final(self)@.interactive == interactive,
            final(self)@.last_polled == old(self)@.last_polled,
            interactive ==> final(self)@.open_menus == old(self)@.open_menus,
            !interactive ==> final(self)@.open_menus == Set::<Seq<char>>::empty(),
    {
        self.interactive = interactive;
        if !interactive {
            self.open_menus.clear();
            assert(self.open_menus@.dom() =~= Set::<Seq<char>>::empty());
        }
    }

    /// Records a pet menu opening or closing; `true` when a menu is still open
    /// afterwards, and the scene is then to be made interactive.
    pub fn set_pet_menu_state(&mut self, id: String, open: bool) -> (should_update: bool)
        ensures
            final(self)@.interactive == old(self)@.interactive,
            final(self)@.last_polled == old(self)@.last_polled,
            open ==> final(self)@.open_menus == old(self)@.open_menus.insert(id@),
            !open ==> final(self)@.open_menus == old(self)@.open_menus.remove(id@),
            should_update == !final(self)@.open_menus.is_empty(),
    {
        let ghost before = self.open_menus@;
        if open {
            self.open_menus.insert(id, ());
            assert(self.open_menus@.dom() =~= before.dom().insert(id@));
        } else {
            self.open_menus.remove(id.as_str());
            assert(self.open_menus@.dom() =~= before.dom().remove(id@));
        }
        let n = self.open_menus.len();
        proof {
            if n == 0 {
                assert(self.open_menus@.dom().len() == 0);
                assert(self.open_menus@.dom() =~= Set::<Seq<char>>::empty());
            } else {
                assert(self.open_menus@.dom().len() > 0);
                if self.open_menus@.dom().is_empty() {
                    assert(self.open_menus@.dom() =~= Set::<Seq<char>>::empty());
                }
            }
        }
        n > 0
    }

    /// One poll of the keyboard: the scene is to be interactive while the
    /// hotkey is held or a menu is open. When that differs from the last poll
    /// and from the current state, the scene is updated; the new state is
    /// returned then (`None` otherwise).
    pub fn poll(&mut self, hotkey_held: bool) -> (update: Option<bool>)
        ensures
            ({
                let wanted = hotkey_held || !old(self)@.open_menus.is_empty();
                &&& wanted == old(self)@.last_polled ==> update is None && final(self)@
                    == old(self)@
                &&& wanted != old(self)@.last_polled ==> {
                    &&& final(self)@.last_polled == wanted
                    &&& final(self)@.interactive == wanted
                    &&& update == if old(self)@.interactive != wanted {
                        Some(wanted)
                    } else {
                        None::<bool>
                    }
                    &&& !wanted && old(self)@.interactive ==> final(self)@.open_menus
                        == Set::<Seq<char>>::empty()
                    &&& (wanted || !old(self)@.interactive) ==> final(self)@.open_menus == old(
                        self,
                    )@.open_menus
                }
            }),
    {
        let n = self.open_menus.len();
        proof {
            if n == 0 {
                assert(self.open_menus@.dom() =~= Set::<Seq<char>>::empty());
            } else if self.open_menus@.dom().is_empty() {
                assert(self.open_menus@.dom() =~= Set::<Seq<char>>::empty());
            }
        }
        let wanted = hotkey_held || n > 0;
        if wanted == self.last_polled {
            return None;
        }
        let previous = self.interactive;
        self.interactive = wanted;
        self.last_polled = wanted;
        if previous != wanted {
            self.set_interactive(wanted);
            Some(wanted)
        } else {
            None
        }
    }
}

} // verus!

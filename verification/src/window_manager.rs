//! The application's windows: how each kind is configured, the steps that
//! make sure a window exists (showing an existing one, or building it under
//! its parent), and the registry of window kinds that decides whether the
//! application shows in the macOS Dock (only while a regular window is
//! visible).

use vstd::prelude::*;

use crate::str_map::{distinct_keys, pair_key, pairs_map, StrMap};
use crate::text::to_owned_string;

verus! {

/// A regular window (with a Dock presence on macOS) or an accessory one
/// (scene, splash).
#[derive(Debug, Clone, Copy, PartialEq, Eq, Structural)]
pub enum WindowKind {
    RegularUi,
    Accessory,
}

/// How a window is built. Sizes are logical pixels.
pub struct WindowConfig {
    pub label: String,
    pub url_path: String,
    pub title: String,
    pub width: u32,
    pub height: u32,
    pub resizable: bool,
    pub maximizable: bool,
    pub decorations: bool,
    pub transparent: bool,
    pub shadow: bool,
    pub visible: bool,
    pub skip_taskbar: bool,
    pub always_on_top: bool,
    pub visible_on_all_workspaces: bool,
    pub parent_label: Option<String>,
    pub require_parent: bool,
    pub kind: WindowKind,
}

impl WindowConfig {
    /// A regular, decorated 420x420 window, fixed in size.
    pub fn regular_ui(label: &str, url_path: String, title: &str) -> (res: Self)
        ensures
            res.label@ == label@,
            res.url_path == url_path,
            res.title@ == title@,
            res.width == 420 && res.height == 420,
            !res.resizable && !res.maximizable,
            res.decorations && !res.transparent && res.shadow,
            res.visible && !res.skip_taskbar && !res.always_on_top,
            !res.visible_on_all_workspaces,
            res.parent_label is None && !res.require_parent,
            res.kind == WindowKind::RegularUi,
    {
        WindowConfig {
            label: to_owned_string(label),
            url_path,
            title: to_owned_string(title),
            width: 420,
            height: 420,
            resizable: false,
            maximizable: false,
            decorations: true,
            transparent: false,
            shadow: true,
            visible: true,
            skip_taskbar: false,
            always_on_top: false,
            visible_on_all_workspaces: false,
            parent_label: None,
            require_parent: false,
            kind: WindowKind::RegularUi,
        }
    }

    /// An accessory 600x500 window: undecorated, transparent, without
    /// shadow, out of the taskbar and always on top.
    pub fn accessory(label: &str, url_path: String, title: &str) -> (res: Self)
        ensures
            res.label@ == label@,
            res.url_path == url_path,
            res.title@ == title@,
            res.width == 600 && res.height == 500,
            !res.resizable && !res.maximizable,
            !res.decorations && res.transparent && !res.shadow,
            res.visible && res.skip_taskbar && res.always_on_top,
            !res.visible_on_all_workspaces,
            res.parent_label is None && !res.require_parent,
            res.kind == WindowKind::Accessory,
    {
        WindowConfig {
            label: to_owned_string(label),
            url_path,
            title: to_owned_string(title),
            width: 600,
            height: 500,
            resizable: false,
            maximizable: false,
            decorations: false,
            transparent: true,
            shadow: false,
            visible: true,
            skip_taskbar: true,
            always_on_top: true,
            visible_on_all_workspaces: false,
            parent_label: None,
            require_parent: false,
            kind: WindowKind::Accessory,
        }
    }
}

/// Where making sure of a window stands.
#[derive(Debug, Clone, Copy, PartialEq, Eq, Structural)]
pub enum EnsureStage {
    /// Nothing done yet: the window is looked up by label.
    Start,
    /// An existing window is being shown.
    ShowingExisting,
    /// An existing window is being focused.
    FocusingExisting,
    /// The parent window is being looked up.
    FindingParent,
    /// The new window is being put under its parent.
    SettingParent,
    /// The new window is being built.
    Building,
    /// Building failed; the window is looked up again (another caller may
    /// have built it meanwhile).
    LookingAfterFailure,
}

/// What the last step reported.
#[derive(Debug, Clone, Copy, PartialEq, Eq, Structural)]
pub enum EnsureEvent {
    /// Whether a window with the label exists.
    Found(bool),
    /// Whether the last operation succeeded.
    Succeeded(bool),
}

/// How making sure of a window ended.
#[derive(Debug, Clone, Copy, PartialEq, Eq, Structural)]
pub enum EnsureOutcome {
    Existing,
    Created,
    ShowExistingFailed,
    MissingParent,
    SetParentFailed,
    BuildFailed,
}

/// What to do next.
#[derive(Debug, Clone, Copy, PartialEq, Eq, Structural)]
pub enum EnsureAction {
    /// Show the existing window.
    ShowExisting,
    /// Focus the existing window (a failure is only logged).
    FocusExisting,
    /// Look the parent window up.
    FindParent,
    /// Put the new window under the parent.
    SetParent,
    /// Build the window.
    Build,
    /// Look the window up again.
    LookUpAgain,
    /// Record the window's kind and resynchronize the Dock presence, then
    /// report the outcome (for a created window, also watch for its
    /// destruction).
    Register(EnsureOutcome),
    /// Stop with the outcome (nothing is registered).
    Fail(EnsureOutcome),
}

/// The next stage and action of making sure of a window.
pub open spec fn ensure_step_spec(
    stage: EnsureStage,
    event: EnsureEvent,
    has_parent_label: bool,
    require_parent: bool,
    show_existing: bool,
    focus_existing: bool,
) -> (EnsureStage, EnsureAction) {
    let existing = if show_existing {
        (EnsureStage::ShowingExisting, EnsureAction::ShowExisting)
    } else if focus_existing {
        (EnsureStage::FocusingExisting, EnsureAction::FocusExisting)
    } else {
        (stage, EnsureAction::Register(EnsureOutcome::Existing))
    };
    let build = (EnsureStage::Building, EnsureAction::Build);
    match (stage, event) {
        (EnsureStage::Start, EnsureEvent::Found(true)) => existing,
        (EnsureStage::Start, EnsureEvent::Found(false)) => if has_parent_label {
            (EnsureStage::FindingParent, EnsureAction::FindParent)
        } else {
            build
        },
        (EnsureStage::ShowingExisting, EnsureEvent::Succeeded(true)) => if focus_existing {
            (EnsureStage::FocusingExisting, EnsureAction::FocusExisting)
        } else {
            (stage, EnsureAction::Register(EnsureOutcome::Existing))
        },
        (EnsureStage::ShowingExisting, EnsureEvent::Succeeded(false)) => (
            stage,
            EnsureAction::Fail(EnsureOutcome::ShowExistingFailed),
        ),
        (EnsureStage::FocusingExisting, _) => (stage, EnsureAction::Register(EnsureOutcome::Existing)),
        (EnsureStage::FindingParent, EnsureEvent::Found(true)) => (
            EnsureStage::SettingParent,
            EnsureAction::SetParent,
        ),
        (EnsureStage::FindingParent, EnsureEvent::Found(false)) => if require_parent {
            (stage, EnsureAction::Fail(EnsureOutcome::MissingParent))
        } else {
            build
        },
        (EnsureStage::SettingParent, EnsureEvent::Succeeded(true)) => build,
        (EnsureStage::SettingParent, EnsureEvent::Succeeded(false)) => (
            stage,
            EnsureAction::Fail(EnsureOutcome::SetParentFailed),
        ),
        (EnsureStage::Building, EnsureEvent::Succeeded(true)) => (
            stage,
            EnsureAction::Register(EnsureOutcome::Created),
        ),
        (EnsureStage::Building, EnsureEvent::Succeeded(false)) => (
            EnsureStage::LookingAfterFailure,
            EnsureAction::LookUpAgain,
        ),
        (EnsureStage::LookingAfterFailure, EnsureEvent::Found(true)) => existing,
        (EnsureStage::LookingAfterFailure, EnsureEvent::Found(false)) => (
            stage,
            EnsureAction::Fail(EnsureOutcome::BuildFailed),
        ),
        // An event that the stage does not expect changes nothing.
        _ => (stage, EnsureAction::Fail(EnsureOutcome::BuildFailed)),
    }
}

/// One step of making sure that the window of a configuration exists:
/// an existing window is shown and focused as asked; otherwise the window is
/// built, under its parent when the parent exists (when it does not and is
/// required, nothing is built); a build that fails because the window appeared
/// meanwhile ends as for an existing window.
pub fn ensure_window_step(
    stage: EnsureStage,
    event: EnsureEvent,
    config: &WindowConfig,
    show_existing: bool,
    focus_existing: bool,
) -> (res: (EnsureStage, EnsureAction))
    ensures
        res == ensure_step_spec(
            stage,
            event,
            config.parent_label is Some,
            config.require_parent,
            show_existing,
            focus_existing,
        ),
{
    let has_parent_label = config.parent_label.is_some();
    let existing = if show_existing {
        (EnsureStage::ShowingExisting, EnsureAction::ShowExisting)
    } else if focus_existing {
        (EnsureStage::FocusingExisting, EnsureAction::FocusExisting)
    } else {
        (stage, EnsureAction::Register(EnsureOutcome::Existing))
    };
    let build = (EnsureStage::Building, EnsureAction::Build);
    match (stage, event) {
        (EnsureStage::Start, EnsureEvent::Found(true)) => existing,
        (EnsureStage::Start, EnsureEvent::Found(false)) => if has_parent_label {
            (EnsureStage::FindingParent, EnsureAction::FindParent)
        } else {
            build
        },
        (EnsureStage::ShowingExisting, EnsureEvent::Succeeded(true)) => if focus_existing {
            (EnsureStage::FocusingExisting, EnsureAction::FocusExisting)
        } else {
            (stage, EnsureAction::Register(EnsureOutcome::Existing))
        },
        (EnsureStage::ShowingExisting, EnsureEvent::Succeeded(false)) => (
            stage,
            EnsureAction::Fail(EnsureOutcome::ShowExistingFailed),
        ),
        (EnsureStage::FocusingExisting, _) => (stage, EnsureAction::Register(EnsureOutcome::Existing)),
        (EnsureStage::FindingParent, EnsureEvent::Found(true)) => (
            EnsureStage::SettingParent,
            EnsureAction::SetParent,
        ),
        (EnsureStage::FindingParent, EnsureEvent::Found(false)) => if config.require_parent {
            (stage, EnsureAction::Fail(EnsureOutcome::MissingParent))
        } else {
            build
        },
        (EnsureStage::SettingParent, EnsureEvent::Succeeded(true)) => build,
        (EnsureStage::SettingParent, EnsureEvent::Succeeded(false)) => (
            stage,
            EnsureAction::Fail(EnsureOutcome::SetParentFailed),
        ),
        (EnsureStage::Building, EnsureEvent::Succeeded(true)) => (
            stage,
            EnsureAction::Register(EnsureOutcome::Created),
        ),
        (EnsureStage::Building, EnsureEvent::Succeeded(false)) => (
            EnsureStage::LookingAfterFailure,
            EnsureAction::LookUpAgain,
        ),
        (EnsureStage::LookingAfterFailure, EnsureEvent::Found(true)) => existing,
        (EnsureStage::LookingAfterFailure, EnsureEvent::Found(false)) => (
            stage,
            EnsureAction::Fail(EnsureOutcome::BuildFailed),
        ),
        _ => (stage, EnsureAction::Fail(EnsureOutcome::BuildFailed)),
    }
}

/// A window that already exists is never built again: from the lookup that
/// finds it, only showing, focusing and registering follow.
pub proof fn lemma_existing_never_built(
    has_parent_label: bool,
    require_parent: bool,
    show_existing: bool,
    focus_existing: bool,
)
    ensures
        ({
            let first = ensure_step_spec(
                EnsureStage::Start,
                EnsureEvent::Found(true),
                has_parent_label,
                require_parent,
                show_existing,
                focus_existing,
            );
            &&& first.1 != EnsureAction::Build
            &&& first.1 != EnsureAction::FindParent
            &&& forall|e: EnsureEvent|
                #![trigger ensure_step_spec(first.0, e, has_parent_label, require_parent, show_existing, focus_existing)]
                first.0 != EnsureStage::Start ==> ensure_step_spec(
                    first.0,
                    e,
                    has_parent_label,
                    require_parent,
                    show_existing,
                    focus_existing,
                ).1 != EnsureAction::Build
        }),
{
}

/// A required parent that is missing stops the window from being built.
pub proof fn lemma_missing_required_parent(show_existing: bool, focus_existing: bool)
    ensures
        ensure_step_spec(
            EnsureStage::FindingParent,
            EnsureEvent::Found(false),
            true,
            true,
            show_existing,
            focus_existing,
        ).1 == EnsureAction::Fail(EnsureOutcome::MissingParent),
{
}

/// The kinds of the windows that exist, by label.
pub struct WindowRegistry {
    kinds: StrMap<WindowKind>,
}

impl View for WindowRegistry {
    type V = Map<Seq<char>, WindowKind>;

    closed spec fn view(&self) -> Map<Seq<char>, WindowKind> {
        self.kinds@
    }
}

/// Whether some registered regular window is visible.
pub open spec fn has_visible_regular(kinds: Map<Seq<char>, WindowKind>, visible: Map<Seq<char>, bool>) -> bool {
    exists|label: Seq<char>|
        #[trigger] kinds.contains_key(label) && kinds[label] == WindowKind::RegularUi
            && visible.contains_key(label) && visible[label]
}

impl WindowRegistry {
    /// No window known.
    pub fn new() -> (res: Self)
        ensures
            res@ == Map::<Seq<char>, WindowKind>::empty(),
    {
        WindowRegistry { kinds: StrMap::new() }
    }

    /// Records the kind of the window with the label.
    pub fn register(&mut self, label: String, kind: WindowKind)
        ensures
            final(self)@ == old(self)@.insert(label@, kind),
    {
        self.kinds.insert(label, kind);
    }

    /// Forgets a destroyed window.
    pub fn unregister(&mut self, label: &str)
        ensures
            final(self)@ == old(self)@.remove(label@),
    {
        self.kinds.remove(label);
    }

    /// The labels of the registered windows.
    pub fn labels(&self) -> (res: Vec<String>)
        ensures
            res@.len() == self@.len(),
            forall|i: int| 0 <= i < res@.len() ==> self@.contains_key(#[trigger] res@[i]@),
            forall|k: Seq<char>| #[trigger] self@.contains_key(k) ==> exists|i: int| 0 <= i < res@.len() && res@[i]@ == k,
    {
        let n = self.kinds.len();
        let mut out: Vec<String> = Vec::new();
        let mut i: usize = 0;
        while i < n
            invariant
                n == self.kinds.pairs().len(),
                distinct_keys(self.kinds.pairs()),
                pairs_map(self.kinds.pairs()) == self@,
                i <= n,
                out@.len() == i,
                forall|j: int| 0 <= j < i ==> #[trigger] out@[j]@ == pair_key(self.kinds.pairs()[j]),
            decreases n - i,
        {
            let (label, _) = self.kinds.pair_at(i);
            out.push(label.clone());
            i = i + 1;
        }
        proof {
            assert forall|j: int| 0 <= j < out@.len() implies self@.contains_key(#[trigger] out@[j]@) by {
                crate::str_map::lemma_pairs_lookup(self.kinds.pairs(), j);
            }
            assert forall|k: Seq<char>| #[trigger] self@.contains_key(k) implies exists|j: int|
                0 <= j < out@.len() && out@[j]@ == k by {
                let j = choose|j: int| 0 <= j < self.kinds.pairs().len() && #[trigger] pair_key(self.kinds.pairs()[j]) == k;
                assert(out@[j]@ == k);
            }
        }
        out
    }
}

/// Whether the application is to run as an accessory (no Dock icon): when no
/// registered regular window is visible. `visible` holds, for the registered
/// labels, whether the window is visible.
pub fn sync_macos_accessory_mode_for_current_windows(
    registry: &WindowRegistry,
    visible: &StrMap<bool>,
) -> (accessory: bool)
    ensures
        accessory == !has_visible_regular(registry@, visible@),
{
    let n = registry.kinds.len();
    let mut i: usize = 0;
    while i < n
        invariant
            n == registry.kinds.pairs().len(),
            distinct_keys(registry.kinds.pairs()),
            pairs_map(registry.kinds.pairs()) == registry@,
            i <= n,
            forall|j: int|
                0 <= j < i ==> !(#[trigger] registry.kinds.pairs()[j].1 == WindowKind::RegularUi
                    && visible@.contains_key(pair_key(registry.kinds.pairs()[j])) && visible@[pair_key(
                    registry.kinds.pairs()[j],
                )]),
        decreases n - i,
    {
        let (label, kind) = registry.kinds.pair_at(i);
        if *kind == WindowKind::RegularUi {
            match visible.get(label.as_str()) {
                Some(v) => {
                    if *v {
                        proof {
                            crate::str_map::lemma_pairs_lookup(registry.kinds.pairs(), i as int);
                            assert(registry@.contains_key(label@));
                        }
                        return false;
                    }
                },
                None => {},
            }
        }
        i = i + 1;
    }
    proof {
        if has_visible_regular(registry@, visible@) {
            let l = choose|label: Seq<char>|
                #[trigger] registry@.contains_key(label) && registry@[label] == WindowKind::RegularUi
                    && visible@.contains_key(label) && visible@[label];
            let j = choose|j: int| 0 <= j < registry.kinds.pairs().len() && #[trigger] pair_key(registry.kinds.pairs()[j]) == l;
            crate::str_map::lemma_pairs_lookup(registry.kinds.pairs(), j);
            assert(registry.kinds.pairs()[j].1 == WindowKind::RegularUi);
        }
    }
    true
}

} // verus!

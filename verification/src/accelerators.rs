//! Keyboard accelerators (hotkeys): their canonical form, the defaults per
//! platform, and whether a set of held keys activates one.

use vstd::prelude::*;

use crate::platform::Platform;

verus! {

/// An action that can be bound to a keyboard accelerator.
#[derive(Clone, Copy, Debug, PartialEq, Eq, PartialOrd, Ord, Hash, Structural)]
pub enum AcceleratorAction {
    SceneInteractivity,
}

/// A modifier key of an accelerator; the declaration order is the canonical order.
#[derive(Clone, Copy, Debug, PartialEq, Eq, PartialOrd, Ord, Hash, Structural)]
pub enum AcceleratorModifier {
    Cmd,
    Alt,
    Ctrl,
    Shift,
}

/// The non-modifier key of an accelerator.
#[derive(Clone, Copy, Debug, PartialEq, Eq, Hash, Structural)]
pub enum AcceleratorKey {
    A,
    B,
    C,
    D,
    E,
    F,
    G,
    H,
    I,
    J,
    K,
    L,
    M,
    N,
    O,
    P,
    Q,
    R,
    S,
    T,
    U,
    V,
    W,
    X,
    Y,
    Z,
    Num0,
    Num1,
    Num2,
    Num3,
    Num4,
    Num5,
    Num6,
    Num7,
    Num8,
    Num9,
    F1,
    F2,
    F3,
    F4,
    F5,
    F6,
    F7,
    F8,
    F9,
    F10,
    F11,
    F12,
    Enter,
    Space,
    Escape,
    Tab,
    Backspace,
    Delete,
    Insert,
    Home,
    End,
    PageUp,
    PageDown,
    ArrowUp,
    ArrowDown,
    ArrowLeft,
    ArrowRight,
    Minus,
    Equal,
    LeftBracket,
    RightBracket,
    BackSlash,
    Semicolon,
    Apostrophe,
    Comma,
    Dot,
    Slash,
    Grave,
}

/// A physical key reported by the keyboard poller. Keys that no accelerator
/// can refer to are reported as `Other`.
#[derive(Clone, Copy, Debug, PartialEq, Eq, Hash, Structural)]
pub enum Keycode {
    Command,
    RCommand,
    LMeta,
    RMeta,
    LAlt,
    RAlt,
    LOption,
    ROption,
    LControl,
    RControl,
    LShift,
    RShift,
    A,
    B,
    C,
    D,
    E,
    F,
    G,
    H,
    I,
    J,
    K,
    L,
    M,
    N,
    O,
    P,
    Q,
    R,
    S,
    T,
    U,
    V,
    W,
    X,
    Y,
    Z,
    Key0,
    Key1,
    Key2,
    Key3,
    Key4,
    Key5,
    Key6,
    Key7,
    Key8,
    Key9,
    F1,
    F2,
    F3,
    F4,
    F5,
    F6,
    F7,
    F8,
    F9,
    F10,
    F11,
    F12,
    Enter,
    NumpadEnter,
    Space,
    Escape,
    Tab,
    Backspace,
    Delete,
    Insert,
    Home,
    End,
    PageUp,
    PageDown,
    Up,
    Down,
    Left,
    Right,
    Minus,
    Equal,
    LeftBracket,
    RightBracket,
    BackSlash,
    Semicolon,
    Apostrophe,
    Comma,
    Dot,
    Slash,
    Grave,
    Other,
}

/// A keyboard accelerator: a set of modifiers and an optional key.
#[derive(Debug)]
pub struct KeyboardAccelerator {
    pub modifiers: Vec<AcceleratorModifier>,
    pub key: Option<AcceleratorKey>,
}

/// The mathematical value of a [`KeyboardAccelerator`].
#[verifier::ext_equal]
pub struct AcceleratorView {
    pub modifiers: Seq<AcceleratorModifier>,
    pub key: Option<AcceleratorKey>,
}

impl View for KeyboardAccelerator {
    type V = AcceleratorView;

    open spec fn view(&self) -> AcceleratorView {
        AcceleratorView { modifiers: self.modifiers@, key: self.key }
    }
}

impl Clone for KeyboardAccelerator {
    fn clone(&self) -> (res: Self)
        ensures
            res@ == self@,
    {
        let mut modifiers: Vec<AcceleratorModifier> = Vec::new();
        let mut i: usize = 0;
        while i < self.modifiers.len()
            invariant
                i <= self.modifiers@.len(),
                modifiers@ == self.modifiers@.subrange(0, i as int),
            decreases self.modifiers@.len() - i,
        {
            modifiers.push(self.modifiers[i]);
            i = i + 1;
        }
        KeyboardAccelerator { modifiers, key: self.key }
    }
}

/// Position of a modifier in the canonical order.
pub open spec fn modifier_rank(m: AcceleratorModifier) -> nat {
    match m {
        AcceleratorModifier::Cmd => 0,
        AcceleratorModifier::Alt => 1,
        AcceleratorModifier::Ctrl => 2,
        AcceleratorModifier::Shift => 3,
    }
}

/// `x` alone when `b` holds, else nothing.
pub open spec fn seq_if<T>(b: bool, x: T) -> Seq<T> {
    if b {
        seq![x]
    } else {
        Seq::empty()
    }
}

/// The modifiers whose flag is set, in canonical order, each once.
pub open spec fn canonical_modifiers(cmd: bool, alt: bool, ctrl: bool, shift: bool) -> Seq<
    AcceleratorModifier,
> {
    seq_if(cmd, AcceleratorModifier::Cmd) + seq_if(alt, AcceleratorModifier::Alt) + seq_if(
        ctrl,
        AcceleratorModifier::Ctrl,
    ) + seq_if(shift, AcceleratorModifier::Shift)
}

/// `s` sorted in canonical order with duplicates removed.
pub open spec fn sorted_unique_modifiers(s: Seq<AcceleratorModifier>) -> Seq<AcceleratorModifier> {
    canonical_modifiers(
        s.contains(AcceleratorModifier::Cmd),
        s.contains(AcceleratorModifier::Alt),
        s.contains(AcceleratorModifier::Ctrl),
        s.contains(AcceleratorModifier::Shift),
    )
}

/// Strictly increasing in canonical order (so sorted and free of duplicates).
pub open spec fn strictly_ranked(s: Seq<AcceleratorModifier>) -> bool {
    forall|i: int, j: int|
        0 <= i < j < s.len() ==> modifier_rank(#[trigger] s[i]) < modifier_rank(#[trigger] s[j])
}

/// The accelerator a platform starts with: Cmd on macOS, Alt elsewhere, no key.
pub open spec fn default_view(platform: Platform) -> AcceleratorView {
    AcceleratorView {
        modifiers: if platform.spec_is_macos() {
            seq![AcceleratorModifier::Cmd]
        } else {
            seq![AcceleratorModifier::Alt]
        },
        key: None,
    }
}

/// The canonical form of an accelerator: modifiers sorted and deduplicated;
/// an accelerator without modifiers becomes the platform default.
pub open spec fn normalized_view(a: AcceleratorView, platform: Platform) -> AcceleratorView {
    let m = sorted_unique_modifiers(a.modifiers);
    if m.len() == 0 {
        default_view(platform)
    } else {
        AcceleratorView { modifiers: m, key: a.key }
    }
}

/// The physical keys that count as a modifier.
pub open spec fn modifier_codes(m: AcceleratorModifier) -> Seq<Keycode> {
    match m {
        AcceleratorModifier::Cmd => seq![
            Keycode::Command,
            Keycode::RCommand,
            Keycode::LMeta,
            Keycode::RMeta,
        ],
        AcceleratorModifier::Alt => seq![
            Keycode::LAlt,
            Keycode::RAlt,
            Keycode::LOption,
            Keycode::ROption,
        ],
        AcceleratorModifier::Ctrl => seq![Keycode::LControl, Keycode::RControl],
        AcceleratorModifier::Shift => seq![Keycode::LShift, Keycode::RShift],
    }
}

/// The physical keys that count as an accelerator key.
pub open spec fn key_codes(k: AcceleratorKey) -> Seq<Keycode> {
    match k {
        AcceleratorKey::A => seq![Keycode::A],
        AcceleratorKey::B => seq![Keycode::B],
        AcceleratorKey::C => seq![Keycode::C],
        AcceleratorKey::D => seq![Keycode::D],
        AcceleratorKey::E => seq![Keycode::E],
        AcceleratorKey::F => seq![Keycode::F],
        AcceleratorKey::G => seq![Keycode::G],
        AcceleratorKey::H => seq![Keycode::H],
        AcceleratorKey::I => seq![Keycode::I],
        AcceleratorKey::J => seq![Keycode::J],
        AcceleratorKey::K => seq![Keycode::K],
        AcceleratorKey::L => seq![Keycode::L],
        AcceleratorKey::M => seq![Keycode::M],
        AcceleratorKey::N => seq![Keycode::N],
        AcceleratorKey::O => seq![Keycode::O],
        AcceleratorKey::P => seq![Keycode::P],
        AcceleratorKey::Q => seq![Keycode::Q],
        AcceleratorKey::R => seq![Keycode::R],
        AcceleratorKey::S => seq![Keycode::S],
        AcceleratorKey::T => seq![Keycode::T],
        AcceleratorKey::U => seq![Keycode::U],
        AcceleratorKey::V => seq![Keycode::V],
        AcceleratorKey::W => seq![Keycode::W],
        AcceleratorKey::X => seq![Keycode::X],
        AcceleratorKey::Y => seq![Keycode::Y],
        AcceleratorKey::Z => seq![Keycode::Z],
        AcceleratorKey::Num0 => seq![Keycode::Key0],
        AcceleratorKey::Num1 => seq![Keycode::Key1],
        AcceleratorKey::Num2 => seq![Keycode::Key2],
        AcceleratorKey::Num3 => seq![Keycode::Key3],
        AcceleratorKey::Num4 => seq![Keycode::Key4],
        AcceleratorKey::Num5 => seq![Keycode::Key5],
        AcceleratorKey::Num6 => seq![Keycode::Key6],
        AcceleratorKey::Num7 => seq![Keycode::Key7],
        AcceleratorKey::Num8 => seq![Keycode::Key8],
        AcceleratorKey::Num9 => seq![Keycode::Key9],
        AcceleratorKey::F1 => seq![Keycode::F1],
        AcceleratorKey::F2 => seq![Keycode::F2],
        AcceleratorKey::F3 => seq![Keycode::F3],
        AcceleratorKey::F4 => seq![Keycode::F4],
        AcceleratorKey::F5 => seq![Keycode::F5],
        AcceleratorKey::F6 => seq![Keycode::F6],
        AcceleratorKey::F7 => seq![Keycode::F7],
        AcceleratorKey::F8 => seq![Keycode::F8],
        AcceleratorKey::F9 => seq![Keycode::F9],
        AcceleratorKey::F10 => seq![Keycode::F10],
        AcceleratorKey::F11 => seq![Keycode::F11],
        AcceleratorKey::F12 => seq![Keycode::F12],
        AcceleratorKey::Enter => seq![Keycode::Enter, Keycode::NumpadEnter],
        AcceleratorKey::Space => seq![Keycode::Space],
        AcceleratorKey::Escape => seq![Keycode::Escape],
        AcceleratorKey::Tab => seq![Keycode::Tab],
        AcceleratorKey::Backspace => seq![Keycode::Backspace],
        AcceleratorKey::Delete => seq![Keycode::Delete],
        AcceleratorKey::Insert => seq![Keycode::Insert],
        AcceleratorKey::Home => seq![Keycode::Home],
        AcceleratorKey::End => seq![Keycode::End],
        AcceleratorKey::PageUp => seq![Keycode::PageUp],
        AcceleratorKey::PageDown => seq![Keycode::PageDown],
        AcceleratorKey::ArrowUp => seq![Keycode::Up],
        AcceleratorKey::ArrowDown => seq![Keycode::Down],
        AcceleratorKey::ArrowLeft => seq![Keycode::Left],
        AcceleratorKey::ArrowRight => seq![Keycode::Right],
        AcceleratorKey::Minus => seq![Keycode::Minus],
        AcceleratorKey::Equal => seq![Keycode::Equal],
        AcceleratorKey::LeftBracket => seq![Keycode::LeftBracket],
        AcceleratorKey::RightBracket => seq![Keycode::RightBracket],
        AcceleratorKey::BackSlash => seq![Keycode::BackSlash],
        AcceleratorKey::Semicolon => seq![Keycode::Semicolon],
        AcceleratorKey::Apostrophe => seq![Keycode::Apostrophe],
        AcceleratorKey::Comma => seq![Keycode::Comma],
        AcceleratorKey::Dot => seq![Keycode::Dot],
        AcceleratorKey::Slash => seq![Keycode::Slash],
        AcceleratorKey::Grave => seq![Keycode::Grave],
    }
}

/// Some candidate occurs among the held keys.
pub open spec fn contains_any_spec(keys: Seq<Keycode>, candidates: Seq<Keycode>) -> bool {
    exists|i: int| 0 <= i < candidates.len() && keys.contains(#[trigger] candidates[i])
}

/// Whether a physical key of the modifier is among the held keys.
pub open spec fn modifier_held(keys: Seq<Keycode>, m: AcceleratorModifier) -> bool {
    contains_any_spec(keys, modifier_codes(m))
}

/// Whether a physical key of the main key is among the held keys.
pub open spec fn key_held(keys: Seq<Keycode>, k: AcceleratorKey) -> bool {
    contains_any_spec(keys, key_codes(k))
}

/// The modifiers held down, in canonical order.
pub open spec fn pressed_modifiers_spec(keys: Seq<Keycode>) -> Seq<AcceleratorModifier> {
    canonical_modifiers(
        modifier_held(keys, AcceleratorModifier::Cmd),
        modifier_held(keys, AcceleratorModifier::Alt),
        modifier_held(keys, AcceleratorModifier::Ctrl),
        modifier_held(keys, AcceleratorModifier::Shift),
    )
}

/// Exactly the accelerator's modifiers are held, and its key, if it has one.
pub open spec fn accelerator_active(keys: Seq<Keycode>, a: AcceleratorView) -> bool {
    &&& pressed_modifiers_spec(keys) == a.modifiers
    &&& match a.key {
        None => true,
        Some(k) => key_held(keys, k),
    }
}

fn contains_modifier(v: &Vec<AcceleratorModifier>, m: AcceleratorModifier) -> (res: bool)
    ensures
        res == v@.contains(m),
{
    let mut i: usize = 0;
    while i < v.len()
        invariant
            i <= v@.len(),
            forall|j: int| 0 <= j < i ==> v@[j] != m,
        decreases v@.len() - i,
    {
        if v[i] == m {
            return true;
        }
        i = i + 1;
    }
    false
}

/// Builds the canonical modifier list from four flags.
fn canonical_from_flags(cmd: bool, alt: bool, ctrl: bool, shift: bool) -> (res: Vec<
    AcceleratorModifier,
>)
    ensures
        res@ == canonical_modifiers(cmd, alt, ctrl, shift),
{
    let mut res: Vec<AcceleratorModifier> = Vec::new();
    if cmd {
        res.push(AcceleratorModifier::Cmd);
    }
    if alt {
        res.push(AcceleratorModifier::Alt);
    }
    if ctrl {
        res.push(AcceleratorModifier::Ctrl);
    }
    if shift {
        res.push(AcceleratorModifier::Shift);
    }
    assert(res@ =~= canonical_modifiers(cmd, alt, ctrl, shift));
    res
}

impl KeyboardAccelerator {
    /// The platform's default accelerator (Cmd on macOS, Alt elsewhere).
    pub fn default_for(platform: Platform) -> (res: Self)
        ensures
            res@ == default_view(platform),
    {
        let mut modifiers: Vec<AcceleratorModifier> = Vec::new();
        if platform.is_macos() {
            modifiers.push(AcceleratorModifier::Cmd);
        } else {
            modifiers.push(AcceleratorModifier::Alt);
        }
        let res = KeyboardAccelerator { modifiers, key: None };
        assert(res@.modifiers =~= default_view(platform).modifiers);
        res
    }

    /// Sorts and deduplicates the modifiers; an accelerator left without
    /// modifiers is replaced by the platform default.
    pub fn normalized(self, platform: Platform) -> (res: Self)
        ensures
            res@ == normalized_view(self@, platform),
    {
        let cmd = contains_modifier(&self.modifiers, AcceleratorModifier::Cmd);
        let alt = contains_modifier(&self.modifiers, AcceleratorModifier::Alt);
        let ctrl = contains_modifier(&self.modifiers, AcceleratorModifier::Ctrl);
        let shift = contains_modifier(&self.modifiers, AcceleratorModifier::Shift);
        let modifiers = canonical_from_flags(cmd, alt, ctrl, shift);
        if modifiers.len() == 0 {
            return Self::default_for(platform);
        }
        KeyboardAccelerator { modifiers, key: self.key }
    }
}

/// The accelerator an action starts with.
pub fn default_accelerator_for_action(action: AcceleratorAction, platform: Platform) -> (res:
    KeyboardAccelerator)
    ensures
        res@ == default_view(platform),
{
    match action {
        AcceleratorAction::SceneInteractivity => KeyboardAccelerator::default_for(platform),
    }
}

/// Whether any of `candidates` is among `keys`.
pub fn contains_any(keys: &[Keycode], candidates: &[Keycode]) -> (res: bool)
    ensures
        res == contains_any_spec(keys@, candidates@),
{
    let mut i: usize = 0;
    while i < candidates.len()
        invariant
            i <= candidates@.len(),
            forall|j: int| 0 <= j < i ==> !keys@.contains(#[trigger] candidates@[j]),
        decreases candidates@.len() - i,
    {
        let c = candidates[i];
        let mut k: usize = 0;
        while k < keys.len()
            invariant
                k <= keys@.len(),
                i < candidates@.len(),
                c == candidates@[i as int],
                forall|j: int| 0 <= j < k ==> keys@[j] != c,
            decreases keys@.len() - k,
        {
            if keys[k] == c {
                assert(keys@[k as int] == candidates@[i as int]);
                assert(keys@.contains(candidates@[i as int]));
                return true;
            }
            k = k + 1;
        }
        i = i + 1;
    }
    false
}

/// The physical keys that count as the given modifier.
pub fn modifier_keycodes(modifier: AcceleratorModifier) -> (res: Vec<Keycode>)
    ensures
        res@ == modifier_codes(modifier),
{
    let mut v: Vec<Keycode> = Vec::new();
    match modifier {
        AcceleratorModifier::Cmd => {
            v.push(Keycode::Command);
            v.push(Keycode::RCommand);
            v.push(Keycode::LMeta);
            v.push(Keycode::RMeta);
        },
        AcceleratorModifier::Alt => {
            v.push(Keycode::LAlt);
            v.push(Keycode::RAlt);
            v.push(Keycode::LOption);
            v.push(Keycode::ROption);
        },
        AcceleratorModifier::Ctrl => {
            v.push(Keycode::LControl);
            v.push(Keycode::RControl);
        },
        AcceleratorModifier::Shift => {
            v.push(Keycode::LShift);
            v.push(Keycode::RShift);
        },
    }
    assert(v@ =~= modifier_codes(modifier));
    v
}

/// Whether the given modifier is held.
pub fn has_modifier(keys: &[Keycode], modifier: AcceleratorModifier) -> (res: bool)
    ensures
        res == modifier_held(keys@, modifier),
{
    let codes = modifier_keycodes(modifier);
    contains_any(keys, codes.as_slice())
}

fn single(c: Keycode) -> (res: Vec<Keycode>)
    ensures
        res@ == seq![c],
{
    let mut v: Vec<Keycode> = Vec::new();
    v.push(c);
    assert(v@ =~= seq![c]);
    v
}

/// The physical keys that count as the given accelerator key.
pub fn keycodes_for(key: AcceleratorKey) -> (res: Vec<Keycode>)
    ensures
        res@ == key_codes(key),
{
    match key {
        AcceleratorKey::A => single(Keycode::A),
        AcceleratorKey::B => single(Keycode::B),
        AcceleratorKey::C => single(Keycode::C),
        AcceleratorKey::D => single(Keycode::D),
        AcceleratorKey::E => single(Keycode::E),
        AcceleratorKey::F => single(Keycode::F),
        AcceleratorKey::G => single(Keycode::G),
        AcceleratorKey::H => single(Keycode::H),
        AcceleratorKey::I => single(Keycode::I),
        AcceleratorKey::J => single(Keycode::J),
        AcceleratorKey::K => single(Keycode::K),
        AcceleratorKey::L => single(Keycode::L),
        AcceleratorKey::M => single(Keycode::M),
        AcceleratorKey::N => single(Keycode::N),
        AcceleratorKey::O => single(Keycode::O),
        AcceleratorKey::P => single(Keycode::P),
        AcceleratorKey::Q => single(Keycode::Q),
        AcceleratorKey::R => single(Keycode::R),
        AcceleratorKey::S => single(Keycode::S),
        AcceleratorKey::T => single(Keycode::T),
        AcceleratorKey::U => single(Keycode::U),
        AcceleratorKey::V => single(Keycode::V),
        AcceleratorKey::W => single(Keycode::W),
        AcceleratorKey::X => single(Keycode::X),
        AcceleratorKey::Y => single(Keycode::Y),
        AcceleratorKey::Z => single(Keycode::Z),
        AcceleratorKey::Num0 => single(Keycode::Key0),
        AcceleratorKey::Num1 => single(Keycode::Key1),
        AcceleratorKey::Num2 => single(Keycode::Key2),
        AcceleratorKey::Num3 => single(Keycode::Key3),
        AcceleratorKey::Num4 => single(Keycode::Key4),
        AcceleratorKey::Num5 => single(Keycode::Key5),
        AcceleratorKey::Num6 => single(Keycode::Key6),
        AcceleratorKey::Num7 => single(Keycode::Key7),
        AcceleratorKey::Num8 => single(Keycode::Key8),
        AcceleratorKey::Num9 => single(Keycode::Key9),
        AcceleratorKey::F1 => single(Keycode::F1),
        AcceleratorKey::F2 => single(Keycode::F2),
        AcceleratorKey::F3 => single(Keycode::F3),
        AcceleratorKey::F4 => single(Keycode::F4),
        AcceleratorKey::F5 => single(Keycode::F5),
        AcceleratorKey::F6 => single(Keycode::F6),
        AcceleratorKey::F7 => single(Keycode::F7),
        AcceleratorKey::F8 => single(Keycode::F8),
        AcceleratorKey::F9 => single(Keycode::F9),
        AcceleratorKey::F10 => single(Keycode::F10),
        AcceleratorKey::F11 => single(Keycode::F11),
        AcceleratorKey::F12 => single(Keycode::F12),
        AcceleratorKey::Enter => {
            let mut v = single(Keycode::Enter);
            v.push(Keycode::NumpadEnter);
            assert(v@ =~= key_codes(key));
            v
        },
        AcceleratorKey::Space => single(Keycode::Space),
        AcceleratorKey::Escape => single(Keycode::Escape),
        AcceleratorKey::Tab => single(Keycode::Tab),
        AcceleratorKey::Backspace => single(Keycode::Backspace),
        AcceleratorKey::Delete => single(Keycode::Delete),
        AcceleratorKey::Insert => single(Keycode::Insert),
        AcceleratorKey::Home => single(Keycode::Home),
        AcceleratorKey::End => single(Keycode::End),
        AcceleratorKey::PageUp => single(Keycode::PageUp),
        AcceleratorKey::PageDown => single(Keycode::PageDown),
        AcceleratorKey::ArrowUp => single(Keycode::Up),
        AcceleratorKey::ArrowDown => single(Keycode::Down),
        AcceleratorKey::ArrowLeft => single(Keycode::Left),
        AcceleratorKey::ArrowRight => single(Keycode::Right),
        AcceleratorKey::Minus => single(Keycode::Minus),
        AcceleratorKey::Equal => single(Keycode::Equal),
        AcceleratorKey::LeftBracket => single(Keycode::LeftBracket),
        AcceleratorKey::RightBracket => single(Keycode::RightBracket),
        AcceleratorKey::BackSlash => single(Keycode::BackSlash),
        AcceleratorKey::Semicolon => single(Keycode::Semicolon),
        AcceleratorKey::Apostrophe => single(Keycode::Apostrophe),
        AcceleratorKey::Comma => single(Keycode::Comma),
        AcceleratorKey::Dot => single(Keycode::Dot),
        AcceleratorKey::Slash => single(Keycode::Slash),
        AcceleratorKey::Grave => single(Keycode::Grave),
    }
}

/// Whether the given accelerator key is held.
pub fn has_key(keys: &[Keycode], key: AcceleratorKey) -> (res: bool)
    ensures
        res == key_held(keys@, key),
{
    let codes = keycodes_for(key);
    contains_any(keys, codes.as_slice())
}

/// The held modifiers, in canonical order.
pub fn pressed_modifiers(keys: &[Keycode]) -> (res: Vec<AcceleratorModifier>)
    ensures
        res@ == pressed_modifiers_spec(keys@),
{
    let cmd = has_modifier(keys, AcceleratorModifier::Cmd);
    let alt = has_modifier(keys, AcceleratorModifier::Alt);
    let ctrl = has_modifier(keys, AcceleratorModifier::Ctrl);
    let shift = has_modifier(keys, AcceleratorModifier::Shift);
    canonical_from_flags(cmd, alt, ctrl, shift)
}

fn modifiers_equal(a: &Vec<AcceleratorModifier>, b: &Vec<AcceleratorModifier>) -> (res: bool)
    ensures
        res == (a@ == b@),
{
    if a.len() != b.len() {
        return false;
    }
    let mut i: usize = 0;
    while i < a.len()
        invariant
            a@.len() == b@.len(),
            i <= a@.len(),
            forall|j: int| 0 <= j < i ==> a@[j] == b@[j],
        decreases a@.len() - i,
    {
        if a[i] != b[i] {
            return false;
        }
        i = i + 1;
    }
    assert(a@ =~= b@);
    true
}

/// Whether the held keys activate the accelerator: exactly its modifiers are
/// held, and its key too when it has one.
pub fn is_accelerator_active(keys: &[Keycode], accelerator: &KeyboardAccelerator) -> (res: bool)
    ensures
        res == accelerator_active(keys@, accelerator@),
{
    let pressed = pressed_modifiers(keys);
    if !modifiers_equal(&pressed, &accelerator.modifiers) {
        return false;
    }
    match accelerator.key {
        None => true,
        Some(key) => has_key(keys, key),
    }
}

/// The accelerators bound to actions, each action at most once.
#[derive(Debug)]
pub struct AcceleratorMap {
    entries: Vec<(AcceleratorAction, KeyboardAccelerator)>,
}

/// The map that a list of (action, accelerator) pairs with distinct actions denotes.
pub open spec fn entries_view(s: Seq<(AcceleratorAction, KeyboardAccelerator)>) -> Map<
    AcceleratorAction,
    AcceleratorView,
> {
    Map::new(
        |k: AcceleratorAction| exists|i: int| 0 <= i < s.len() && #[trigger] s[i].0 == k,
        |k: AcceleratorAction| s[choose|i: int| 0 <= i < s.len() && #[trigger] s[i].0 == k].1@,
    )
}

/// No action is bound twice.
pub open spec fn distinct_actions(s: Seq<(AcceleratorAction, KeyboardAccelerator)>) -> bool {
    forall|i: int, j: int| 0 <= i < j < s.len() ==> #[trigger] s[i].0 != #[trigger] s[j].0
}

proof fn lemma_entries_lookup(s: Seq<(AcceleratorAction, KeyboardAccelerator)>, i: int)
    requires
        distinct_actions(s),
        0 <= i < s.len(),
    ensures
        entries_view(s).contains_key(s[i].0),
        entries_view(s)[s[i].0] == s[i].1@,
{
    let k = s[i].0;
    assert(exists|j: int| 0 <= j < s.len() && #[trigger] s[j].0 == k);
    let c = choose|j: int| 0 <= j < s.len() && #[trigger] s[j].0 == k;
    if c < i {
        assert(s[c].0 != s[i].0);
    } else if c > i {
        assert(s[i].0 != s[c].0);
    }
}

impl View for AcceleratorMap {
    type V = Map<AcceleratorAction, AcceleratorView>;

    closed spec fn view(&self) -> Map<AcceleratorAction, AcceleratorView> {
        entries_view(self.entries@)
    }
}

impl AcceleratorMap {
    #[verifier::type_invariant]
    closed spec fn distinct(&self) -> bool {
        distinct_actions(self.entries@)
    }

    /// The empty map.
    pub fn new() -> (res: Self)
        ensures
            res@ == Map::<AcceleratorAction, AcceleratorView>::empty(),
    {
        let res = AcceleratorMap { entries: Vec::new() };
        assert(res@ =~= Map::<AcceleratorAction, AcceleratorView>::empty());
        res
    }

    fn find(&self, action: AcceleratorAction) -> (res: Option<usize>)
        ensures
            match res {
                Some(i) => i < self.entries@.len() && self.entries@[i as int].0 == action,
                None => forall|j: int|
                    0 <= j < self.entries@.len() ==> #[trigger] self.entries@[j].0 != action,
            },
    {
        let mut i: usize = 0;
        while i < self.entries.len()
            invariant
                i <= self.entries@.len(),
                forall|j: int| 0 <= j < i ==> #[trigger] self.entries@[j].0 != action,
            decreases self.entries@.len() - i,
        {
            if self.entries[i].0 == action {
                return Some(i);
            }
            i = i + 1;
        }
        None
    }

    /// The accelerator bound to `action`, if any.
    pub fn get(&self, action: AcceleratorAction) -> (res: Option<&KeyboardAccelerator>)
        ensures
            match res {
                Some(a) => self@.contains_key(action) && a@ == self@[action],
                None => !self@.contains_key(action),
            },
    {
        proof {
            use_type_invariant(self);
        }
        match self.find(action) {
            Some(i) => {
                proof {
                    lemma_entries_lookup(self.entries@, i as int);
                }
                Some(&self.entries[i].1)
            },
            None => None,
        }
    }

    /// Binds `accelerator` to `action`, replacing an earlier binding.
    pub fn insert(&mut self, action: AcceleratorAction, accelerator: KeyboardAccelerator)
        ensures
            final(self)@ == old(self)@.insert(action, accelerator@),
    {
        proof {
            use_type_invariant(&*self);
        }
        let ghost old_entries = self.entries@;
        let ghost acc_view = accelerator@;
        let found = self.find(action);
        let mut entries: Vec<(AcceleratorAction, KeyboardAccelerator)> = Vec::new();
        std::mem::swap(&mut entries, &mut self.entries);
        match found {
            Some(i) => {
                entries.set(i, (action, accelerator));
            },
            None => {
                entries.push((action, accelerator));
            },
        }
        proof {
            let s = entries@;
            assert(distinct_actions(s)) by {
                assert forall|a: int, b: int| 0 <= a < b < s.len() implies #[trigger] s[a].0
                    != #[trigger] s[b].0 by {
                    if found is None {
                        if b == s.len() - 1 {
                            assert(old_entries[a].0 != action);
                        } else {
                            assert(old_entries[a].0 != old_entries[b].0);
                        }
                    } else {
                        assert(old_entries[a].0 != old_entries[b].0);
                    }
                }
            }
            assert forall|k: AcceleratorAction|
                #![trigger entries_view(s).contains_key(k)]
                entries_view(s).contains_key(k) == entries_view(old_entries).insert(
                    action,
                    acc_view,
                ).contains_key(k) && (entries_view(s).contains_key(k) ==> entries_view(s)[k]
                    == entries_view(old_entries).insert(action, acc_view)[k]) by {
                if k == action {
                    let idx = if found is Some {
                        found->0 as int
                    } else {
                        s.len() - 1
                    };
                    assert(s[idx].0 == action);
                    lemma_entries_lookup(s, idx);
                } else {
                    if entries_view(old_entries).contains_key(k) {
                        let j = choose|j: int| 0 <= j < old_entries.len() && #[trigger] old_entries[j].0 == k;
                        lemma_entries_lookup(old_entries, j);
                        assert(s[j] == old_entries[j]);
                        lemma_entries_lookup(s, j);
                    }
                    if entries_view(s).contains_key(k) {
                        let j = choose|j: int| 0 <= j < s.len() && #[trigger] s[j].0 == k;
                        assert(j < old_entries.len() && s[j] == old_entries[j]);
                        assert(old_entries[j].0 == k);
                    }
                }
            }
            assert(entries_view(s) =~= entries_view(old_entries).insert(action, acc_view));
        }
        *self = AcceleratorMap { entries };
    }

    /// The bindings as (action, accelerator) pairs, each action once.
    pub fn into_entries(self) -> (res: Vec<(AcceleratorAction, KeyboardAccelerator)>)
        ensures
            entries_view(res@) == self@,
            distinct_actions(res@),
    {
        proof {
            use_type_invariant(&self);
        }
        self.entries
    }
}

/// Whether `s` is a prefix-aligned copy of `t` with the accelerators normalized.
pub open spec fn normalized_entries(
    s: Seq<(AcceleratorAction, KeyboardAccelerator)>,
    t: Seq<(AcceleratorAction, KeyboardAccelerator)>,
    n: int,
    platform: Platform,
) -> bool {
    forall|j: int|
        0 <= j < n ==> #[trigger] s[j].0 == t[j].0 && s[j].1@ == normalized_view(t[j].1@, platform)
}

/// Every action's binding after normalization: the normalized binding if there
/// was one, the action's default otherwise.
pub open spec fn normalize_accelerators_view(
    m: Map<AcceleratorAction, AcceleratorView>,
    platform: Platform,
) -> Map<AcceleratorAction, AcceleratorView> {
    Map::new(
        |a: AcceleratorAction| true,
        |a: AcceleratorAction|
            if m.contains_key(a) {
                normalized_view(m[a], platform)
            } else {
                default_view(platform)
            },
    )
}

/// The default binding of every action.
pub fn default_accelerators(platform: Platform) -> (res: AcceleratorMap)
    ensures
        res@ == map![AcceleratorAction::SceneInteractivity => default_view(platform)],
{
    let mut map = AcceleratorMap::new();
    map.insert(
        AcceleratorAction::SceneInteractivity,
        default_accelerator_for_action(AcceleratorAction::SceneInteractivity, platform),
    );
    assert(map@ =~= map![AcceleratorAction::SceneInteractivity => default_view(platform)]);
    map
}

/// Normalizes every binding and adds the default binding of each action that
/// has none.
pub fn normalize_accelerators(accelerators: AcceleratorMap, platform: Platform) -> (res:
    AcceleratorMap)
    ensures
        res@ == normalize_accelerators_view(accelerators@, platform),
{
    let ghost m = accelerators@;
    let entries = accelerators.into_entries();
    let ghost t = entries@;
    let mut out: Vec<(AcceleratorAction, KeyboardAccelerator)> = Vec::new();
    let mut i: usize = 0;
    while i < entries.len()
        invariant
            t == entries@,
            distinct_actions(t),
            i <= t.len(),
            out@.len() == i,
            normalized_entries(out@, t, i as int, platform),
        decreases t.len() - i,
    {
        let action = entries[i].0;
        let acc = entries[i].1.clone();
        let ghost before = out@;
        out.push((action, acc.normalized(platform)));
        proof {
            assert forall|j: int| 0 <= j < i + 1 implies #[trigger] out@[j].0 == t[j].0
                && out@[j].1@ == normalized_view(t[j].1@, platform) by {
                if j < i {
                    assert(out@[j] == before[j]);
                }
            }
        }
        i = i + 1;
    }
    proof {
        let s = out@;
        assert(distinct_actions(s)) by {
            assert forall|a: int, b: int| 0 <= a < b < s.len() implies #[trigger] s[a].0
                != #[trigger] s[b].0 by {
                assert(s[a].0 == t[a].0 && s[b].0 == t[b].0);
            }
        }
        assert forall|k: AcceleratorAction| #[trigger] entries_view(s).contains_key(k)
            == entries_view(t).contains_key(k) && (entries_view(s).contains_key(k)
            ==> entries_view(s)[k] == normalized_view(entries_view(t)[k], platform)) by {
            if entries_view(t).contains_key(k) {
                let j = choose|j: int| 0 <= j < t.len() && #[trigger] t[j].0 == k;
                lemma_entries_lookup(t, j);
                assert(s[j].0 == k);
                lemma_entries_lookup(s, j);
            }
            if entries_view(s).contains_key(k) {
                let j = choose|j: int| 0 <= j < s.len() && #[trigger] s[j].0 == k;
                assert(t[j].0 == k);
            }
        }
    }
    let mut res = AcceleratorMap { entries: out };
    if res.get(AcceleratorAction::SceneInteractivity).is_none() {
        res.insert(
            AcceleratorAction::SceneInteractivity,
            default_accelerator_for_action(AcceleratorAction::SceneInteractivity, platform),
        );
    }
    proof {
        assert forall|a: AcceleratorAction| true implies #[trigger] res@.contains_key(a) by {
            match a {
                AcceleratorAction::SceneInteractivity => {},
            }
        }
        assert(res@ =~= normalize_accelerators_view(m, platform));
    }
    res
}

proof fn lemma_concat_contains<T>(a: Seq<T>, b: Seq<T>, x: T)
    ensures
        (a + b).contains(x) <==> a.contains(x) || b.contains(x),
{
    if a.contains(x) {
        let i = choose|i: int| 0 <= i < a.len() && a[i] == x;
        assert((a + b)[i] == x);
    }
    if b.contains(x) {
        let j = choose|j: int| 0 <= j < b.len() && b[j] == x;
        assert((a + b)[a.len() + j] == x);
    }
    if (a + b).contains(x) {
        let k = choose|k: int| 0 <= k < (a + b).len() && (a + b)[k] == x;
        if k < a.len() {
            assert(a[k] == x);
        } else {
            assert(b[k - a.len()] == x);
        }
    }
}

proof fn lemma_ranked_concat(a: Seq<AcceleratorModifier>, b: Seq<AcceleratorModifier>)
    requires
        strictly_ranked(a),
        strictly_ranked(b),
        forall|i: int, j: int|
            0 <= i < a.len() && 0 <= j < b.len() ==> modifier_rank(#[trigger] a[i]) < modifier_rank(
                #[trigger] b[j],
            ),
    ensures
        strictly_ranked(a + b),
{
    let s = a + b;
    assert forall|i: int, j: int| 0 <= i < j < s.len() implies modifier_rank(#[trigger] s[i])
        < modifier_rank(#[trigger] s[j]) by {
        if j < a.len() {
            assert(s[i] == a[i] && s[j] == a[j]);
        } else if i >= a.len() {
            assert(s[i] == b[i - a.len()] && s[j] == b[j - a.len()]);
        } else {
            assert(s[i] == a[i] && s[j] == b[j - a.len()]);
        }
    }
}

proof fn lemma_seq_if_contains<T>(b: bool, x: T, y: T)
    ensures
        seq_if(b, x).contains(y) <==> (b && x == y),
{
    if b {
        assert(seq_if(b, x)[0] == x);
    }
}

proof fn lemma_canonical_contains(
    cmd: bool,
    alt: bool,
    ctrl: bool,
    shift: bool,
    m: AcceleratorModifier,
)
    ensures
        canonical_modifiers(cmd, alt, ctrl, shift).contains(m) <==> match m {
            AcceleratorModifier::Cmd => cmd,
            AcceleratorModifier::Alt => alt,
            AcceleratorModifier::Ctrl => ctrl,
            AcceleratorModifier::Shift => shift,
        },
{
    let a = seq_if(cmd, AcceleratorModifier::Cmd);
    let b = seq_if(alt, AcceleratorModifier::Alt);
    let c = seq_if(ctrl, AcceleratorModifier::Ctrl);
    let d = seq_if(shift, AcceleratorModifier::Shift);
    lemma_seq_if_contains(cmd, AcceleratorModifier::Cmd, m);
    lemma_seq_if_contains(alt, AcceleratorModifier::Alt, m);
    lemma_seq_if_contains(ctrl, AcceleratorModifier::Ctrl, m);
    lemma_seq_if_contains(shift, AcceleratorModifier::Shift, m);
    lemma_concat_contains(a, b, m);
    lemma_concat_contains(a + b, c, m);
    lemma_concat_contains(a + b + c, d, m);
}

/// What the canonical list holds: each flagged modifier, once, in order.
pub proof fn lemma_canonical_facts(cmd: bool, alt: bool, ctrl: bool, shift: bool)
    ensures
        canonical_modifiers(cmd, alt, ctrl, shift).contains(AcceleratorModifier::Cmd) == cmd,
        canonical_modifiers(cmd, alt, ctrl, shift).contains(AcceleratorModifier::Alt) == alt,
        canonical_modifiers(cmd, alt, ctrl, shift).contains(AcceleratorModifier::Ctrl) == ctrl,
        canonical_modifiers(cmd, alt, ctrl, shift).contains(AcceleratorModifier::Shift) == shift,
        strictly_ranked(canonical_modifiers(cmd, alt, ctrl, shift)),
        canonical_modifiers(cmd, alt, ctrl, shift).len() == 0 <==> !cmd && !alt && !ctrl && !shift,
{
    let a = seq_if(cmd, AcceleratorModifier::Cmd);
    let b = seq_if(alt, AcceleratorModifier::Alt);
    let c = seq_if(ctrl, AcceleratorModifier::Ctrl);
    let d = seq_if(shift, AcceleratorModifier::Shift);
    lemma_canonical_contains(cmd, alt, ctrl, shift, AcceleratorModifier::Cmd);
    lemma_canonical_contains(cmd, alt, ctrl, shift, AcceleratorModifier::Alt);
    lemma_canonical_contains(cmd, alt, ctrl, shift, AcceleratorModifier::Ctrl);
    lemma_canonical_contains(cmd, alt, ctrl, shift, AcceleratorModifier::Shift);
    lemma_ranked_concat(a, b);
    lemma_ranked_concat(a + b, c);
    lemma_ranked_concat(a + b + c, d);
}

/// Normalizing twice is the same as normalizing once.
pub proof fn lemma_normalized_idempotent(a: AcceleratorView, platform: Platform)
    ensures
        normalized_view(normalized_view(a, platform), platform) == normalized_view(a, platform),
{
    let n = normalized_view(a, platform);
    let s = sorted_unique_modifiers(a.modifiers);
    lemma_canonical_facts(
        a.modifiers.contains(AcceleratorModifier::Cmd),
        a.modifiers.contains(AcceleratorModifier::Alt),
        a.modifiers.contains(AcceleratorModifier::Ctrl),
        a.modifiers.contains(AcceleratorModifier::Shift),
    );
    if s.len() == 0 {
        let d = default_view(platform);
        if platform.spec_is_macos() {
            assert(d.modifiers[0] == AcceleratorModifier::Cmd);
            lemma_canonical_facts(true, false, false, false);
            assert(sorted_unique_modifiers(d.modifiers) =~= d.modifiers);
        } else {
            assert(d.modifiers[0] == AcceleratorModifier::Alt);
            lemma_canonical_facts(false, true, false, false);
            assert(sorted_unique_modifiers(d.modifiers) =~= d.modifiers);
        }
    } else {
        assert(sorted_unique_modifiers(s) =~= s);
    }
}

/// A normalized accelerator has at least one modifier, its modifiers are in
/// strictly increasing canonical order, and when the input had modifiers they
/// are exactly the input's modifiers and the key is kept.
pub proof fn lemma_normalized_canonical(a: AcceleratorView, platform: Platform)
    ensures
        normalized_view(a, platform).modifiers.len() > 0,
        strictly_ranked(normalized_view(a, platform).modifiers),
        a.modifiers.len() > 0 ==> normalized_view(a, platform).key == a.key,
        a.modifiers.len() > 0 ==> forall|m: AcceleratorModifier|
            #[trigger] normalized_view(a, platform).modifiers.contains(m) <==> a.modifiers.contains(
                m,
            ),
{
    lemma_canonical_facts(
        a.modifiers.contains(AcceleratorModifier::Cmd),
        a.modifiers.contains(AcceleratorModifier::Alt),
        a.modifiers.contains(AcceleratorModifier::Ctrl),
        a.modifiers.contains(AcceleratorModifier::Shift),
    );
    lemma_canonical_facts(true, false, false, false);
    lemma_canonical_facts(false, true, false, false);
    if a.modifiers.len() > 0 {
        let m0 = a.modifiers[0];
        assert(a.modifiers.contains(m0));
        assert forall|m: AcceleratorModifier|
            #[trigger] sorted_unique_modifiers(a.modifiers).contains(m) <==> a.modifiers.contains(m) by {
            match m {
                AcceleratorModifier::Cmd => {},
                AcceleratorModifier::Alt => {},
                AcceleratorModifier::Ctrl => {},
                AcceleratorModifier::Shift => {},
            }
        }
        match m0 {
            AcceleratorModifier::Cmd => {},
            AcceleratorModifier::Alt => {},
            AcceleratorModifier::Ctrl => {},
            AcceleratorModifier::Shift => {},
        }
    }
}

/// Normalizing a set of bindings twice is the same as normalizing it once.
pub proof fn lemma_normalize_accelerators_idempotent(
    m: Map<AcceleratorAction, AcceleratorView>,
    platform: Platform,
)
    ensures
        normalize_accelerators_view(normalize_accelerators_view(m, platform), platform)
            == normalize_accelerators_view(m, platform),
{
    let once = normalize_accelerators_view(m, platform);
    assert forall|a: AcceleratorAction| true implies #[trigger] normalize_accelerators_view(
        once,
        platform,
    )[a] == once[a] by {
        if m.contains_key(a) {
            lemma_normalized_idempotent(m[a], platform);
        } else {
            lemma_normalized_idempotent(default_view(platform), platform);
            lemma_canonical_facts(true, false, false, false);
            lemma_canonical_facts(false, true, false, false);
            let d = default_view(platform);
            assert(d.modifiers.len() == 1);
            assert(d.modifiers.contains(d.modifiers[0]));
            if platform.spec_is_macos() {
                assert(sorted_unique_modifiers(d.modifiers) =~= d.modifiers);
            } else {
                assert(sorted_unique_modifiers(d.modifiers) =~= d.modifiers);
            }
        }
    }
    assert(normalize_accelerators_view(once, platform) =~= once);
}


/// Ctrl is held exactly when the left or the right Control key is.
pub open spec fn ctrl_keys_held(keys: Seq<Keycode>) -> bool {
    keys.contains(Keycode::LControl) || keys.contains(Keycode::RControl)
}

/// Shift is held exactly when the left or the right Shift key is.
pub open spec fn shift_keys_held(keys: Seq<Keycode>) -> bool {
    keys.contains(Keycode::LShift) || keys.contains(Keycode::RShift)
}

/// Alt is held exactly when a left or right Alt or Option key is.
pub open spec fn alt_keys_held(keys: Seq<Keycode>) -> bool {
    keys.contains(Keycode::LAlt) || keys.contains(Keycode::RAlt) || keys.contains(Keycode::LOption)
        || keys.contains(Keycode::ROption)
}

/// Cmd is held exactly when a Command or Meta key (left or right) is.
pub open spec fn cmd_keys_held(keys: Seq<Keycode>) -> bool {
    keys.contains(Keycode::Command) || keys.contains(Keycode::RCommand) || keys.contains(
        Keycode::LMeta,
    ) || keys.contains(Keycode::RMeta)
}

/// Each modifier counts as pressed when either of its physical keys (left or
/// right, and Option for Alt, Meta for Cmd) is held, and only then.
pub proof fn lemma_modifier_either_side(keys: Seq<Keycode>)
    ensures
        pressed_modifiers_spec(keys).contains(AcceleratorModifier::Ctrl) == ctrl_keys_held(keys),
        pressed_modifiers_spec(keys).contains(AcceleratorModifier::Shift) == shift_keys_held(keys),
        pressed_modifiers_spec(keys).contains(AcceleratorModifier::Alt) == alt_keys_held(keys),
        pressed_modifiers_spec(keys).contains(AcceleratorModifier::Cmd) == cmd_keys_held(keys),
{
    lemma_modifier_held_keys(keys);
    lemma_canonical_facts(
        modifier_held(keys, AcceleratorModifier::Cmd),
        modifier_held(keys, AcceleratorModifier::Alt),
        modifier_held(keys, AcceleratorModifier::Ctrl),
        modifier_held(keys, AcceleratorModifier::Shift),
    );
}

proof fn lemma_modifier_held_keys(keys: Seq<Keycode>)
    ensures
        modifier_held(keys, AcceleratorModifier::Ctrl) == ctrl_keys_held(keys),
        modifier_held(keys, AcceleratorModifier::Shift) == shift_keys_held(keys),
        modifier_held(keys, AcceleratorModifier::Alt) == alt_keys_held(keys),
        modifier_held(keys, AcceleratorModifier::Cmd) == cmd_keys_held(keys),
{
    let c = modifier_codes(AcceleratorModifier::Ctrl);
    assert(c[0] == Keycode::LControl && c[1] == Keycode::RControl);
    let s = modifier_codes(AcceleratorModifier::Shift);
    assert(s[0] == Keycode::LShift && s[1] == Keycode::RShift);
    let a = modifier_codes(AcceleratorModifier::Alt);
    assert(a[0] == Keycode::LAlt && a[1] == Keycode::RAlt && a[2] == Keycode::LOption && a[3]
        == Keycode::ROption);
    let m = modifier_codes(AcceleratorModifier::Cmd);
    assert(m[0] == Keycode::Command && m[1] == Keycode::RCommand && m[2] == Keycode::LMeta && m[3]
        == Keycode::RMeta);
}

/// A Ctrl accelerator (Ctrl and possibly a key) is active exactly when a
/// Control key of either side is held, no Shift, Alt or Cmd key is, and its
/// key (if any) is held.
pub proof fn lemma_ctrl_accelerator_active(keys: Seq<Keycode>, key: Option<AcceleratorKey>)
    ensures
        accelerator_active(keys, AcceleratorView { modifiers: seq![AcceleratorModifier::Ctrl], key })
            == (ctrl_keys_held(keys) && !shift_keys_held(keys) && !alt_keys_held(keys)
            && !cmd_keys_held(keys) && match key {
            None => true,
            Some(k) => key_held(keys, k),
        }),
{
    lemma_modifier_held_keys(keys);
    let p = pressed_modifiers_spec(keys);
    lemma_canonical_facts(
        modifier_held(keys, AcceleratorModifier::Cmd),
        modifier_held(keys, AcceleratorModifier::Alt),
        modifier_held(keys, AcceleratorModifier::Ctrl),
        modifier_held(keys, AcceleratorModifier::Shift),
    );
    let only = seq![AcceleratorModifier::Ctrl];
    if p == only {
        assert(only.contains(AcceleratorModifier::Ctrl));
        assert(!only.contains(AcceleratorModifier::Shift));
        assert(!only.contains(AcceleratorModifier::Alt));
        assert(!only.contains(AcceleratorModifier::Cmd));
    }
    if ctrl_keys_held(keys) && !shift_keys_held(keys) && !alt_keys_held(keys) && !cmd_keys_held(keys) {
        assert(p =~= only);
    }
}

} // verus!

use vstd::prelude::*;

verus! {

/// A key as the editor sees it. The keys that no part of the library tells
/// apart are folded into `Other`.
#[derive(Clone, Copy, Debug, PartialEq, Eq, Structural)]
pub enum Key {
    Char(char),
    Enter,
    Tab,
    Backspace,
    Delete,
    Esc,
    MouseScrollDown,
    MouseScrollUp,
    Other,
}

/// One key press together with the modifier keys held down with it.
#[derive(Clone, Copy, Debug, PartialEq, Eq, Structural)]
pub struct KeyInput {
    pub key: Key,
    pub ctrl: bool,
    pub alt: bool,
    pub shift: bool,
    /// Super, Hyper or Meta held.
    pub extra_modifiers: bool,
}

impl KeyInput {
    /// A key pressed without modifiers.
    pub fn plain(key: Key) -> (r: KeyInput)
        ensures
            r == (KeyInput { key, ctrl: false, alt: false, shift: false, extra_modifiers: false }),
    {
        KeyInput { key, ctrl: false, alt: false, shift: false, extra_modifiers: false }
    }

    /// A key pressed with Control held and no other modifier.
    pub fn with_ctrl(key: Key) -> (r: KeyInput)
        ensures
            r == (KeyInput { key, ctrl: true, alt: false, shift: false, extra_modifiers: false }),
    {
        KeyInput { key, ctrl: true, alt: false, shift: false, extra_modifiers: false }
    }
}

/// What a key press asks the application to do next.
#[derive(Clone, Copy, Debug, PartialEq, Eq, Structural)]
pub enum AppEvent {
    NormalMode,
    InsertMode,
    VisualMode,
    ReplaceMode(bool),
    OperationMode(char),
    Submit,
    Quit,
    NoOp,
}

} // verus!

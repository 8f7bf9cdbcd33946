//! Key presses as plain values.
//!
//! The terminal backend reports keys in its own types; the interface only
//! needs which key it was and whether Control, Alt or Shift was held, so that
//! is all this keeps. The frontend converts each event once, at the edge.

use vstd::prelude::*;

verus! {

#[derive(Debug, Clone, Copy, PartialEq, Eq, Structural)]
pub enum KeyCode {
    Char(char),
    Enter,
    Esc,
    Left,
    Right,
    Up,
    Down,
    Home,
    End,
    PageUp,
    PageDown,
    Tab,
    BackTab,
    Backspace,
    Delete,
    /// Any key the interface has no use for (function keys, media keys, ...).
    Other,
}

#[derive(Debug, Clone, Copy, PartialEq, Eq, Structural)]
pub struct KeyModifiers {
    pub control: bool,
    pub alt: bool,
    pub shift: bool,
}

impl KeyModifiers {
    pub fn none() -> (r: Self)
        ensures
            !r.control && !r.alt && !r.shift,
    {
        KeyModifiers { control: false, alt: false, shift: false }
    }

    pub fn alt() -> (r: Self)
        ensures
            !r.control && r.alt && !r.shift,
    {
        KeyModifiers { control: false, alt: true, shift: false }
    }

    pub fn control() -> (r: Self)
        ensures
            r.control && !r.alt && !r.shift,
    {
        KeyModifiers { control: true, alt: false, shift: false }
    }
}

#[derive(Debug, Clone, Copy, PartialEq, Eq, Structural)]
pub struct KeyEvent {
    pub code: KeyCode,
    pub modifiers: KeyModifiers,
}

impl KeyEvent {
    pub fn new(code: KeyCode, modifiers: KeyModifiers) -> (r: Self)
        ensures
            r.code == code,
            r.modifiers == modifiers,
    {
        KeyEvent { code, modifiers }
    }

    /// A key pressed with no modifier held.
    pub fn plain(code: KeyCode) -> (r: Self)
        ensures
            r.code == code,
            !r.modifiers.control && !r.modifiers.alt && !r.modifiers.shift,
    {
        KeyEvent { code, modifiers: KeyModifiers::none() }
    }
}

} // verus!

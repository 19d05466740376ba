//! Keyboard events as the input state machine reads them.
//!
//! The terminal backend reports key presses in its own types; the application converts
//! them into these plain values, which keep exactly what the state machine looks at: the
//! key, the modifier bits and whether the key was pressed, repeated or released.

use vstd::prelude::*;

verus! {

/// Which key was pressed.
#[derive(Debug, Clone, Copy, PartialEq, Eq, Structural)]
pub enum KeyCode {
    Char(char),
    Backspace,
    Enter,
    Left,
    Right,
    Up,
    Down,
    Home,
    End,
    PageUp,
    PageDown,
    Tab,
    BackTab,
    Delete,
    Insert,
    Esc,
    F(u8),
    /// Any other key (media keys, lone modifiers, ...).
    Other,
}

/// Modifier keys held during a key press.
#[derive(Debug, Clone, Copy, PartialEq, Eq, Structural)]
pub struct KeyModifiers {
    pub shift: bool,
    pub control: bool,
    pub alt: bool,
    pub super_key: bool,
    pub hyper: bool,
    pub meta: bool,
}

impl KeyModifiers {
    /// No modifier.
    pub open spec fn spec_none() -> Self {
        KeyModifiers {
            shift: false,
            control: false,
            alt: false,
            super_key: false,
            hyper: false,
            meta: false,
        }
    }

    /// No modifier.
    pub fn none() -> (r: Self)
        ensures
            r == Self::spec_none(),
    {
        KeyModifiers {
            shift: false,
            control: false,
            alt: false,
            super_key: false,
            hyper: false,
            meta: false,
        }
    }

    /// Shift alone.
    pub fn shift() -> (r: Self)
        ensures
            r == (KeyModifiers { shift: true, ..Self::spec_none() }),
    {
        KeyModifiers { shift: true, ..Self::none() }
    }

    /// Control alone.
    pub fn control() -> (r: Self)
        ensures
            r == (KeyModifiers { control: true, ..Self::spec_none() }),
    {
        KeyModifiers { control: true, ..Self::none() }
    }

    /// Alt alone.
    pub fn alt() -> (r: Self)
        ensures
            r == (KeyModifiers { alt: true, ..Self::spec_none() }),
    {
        KeyModifiers { alt: true, ..Self::none() }
    }

    /// The modifiers held in either set.
    pub fn union(self, other: Self) -> (r: Self)
        ensures
            r.shift == (self.shift || other.shift),
            r.control == (self.control || other.control),
            r.alt == (self.alt || other.alt),
            r.super_key == (self.super_key || other.super_key),
            r.hyper == (self.hyper || other.hyper),
            r.meta == (self.meta || other.meta),
    {
        KeyModifiers {
            shift: self.shift || other.shift,
            control: self.control || other.control,
            alt: self.alt || other.alt,
            super_key: self.super_key || other.super_key,
            hyper: self.hyper || other.hyper,
            meta: self.meta || other.meta,
        }
    }

    /// Every modifier of `other` is held in `self`.
    pub open spec fn holds(self, other: Self) -> bool {
        &&& other.shift ==> self.shift
        &&& other.control ==> self.control
        &&& other.alt ==> self.alt
        &&& other.super_key ==> self.super_key
        &&& other.hyper ==> self.hyper
        &&& other.meta ==> self.meta
    }

    /// Whether every modifier of `other` is held in `self`.
    pub fn contains(self, other: Self) -> (r: bool)
        ensures
            r == self.holds(other),
    {
        (!other.shift || self.shift) && (!other.control || self.control) && (!other.alt
            || self.alt) && (!other.super_key || self.super_key) && (!other.hyper || self.hyper)
            && (!other.meta || self.meta)
    }
}

/// Press, auto-repeat or release.
#[derive(Debug, Clone, Copy, PartialEq, Eq, Structural)]
pub enum KeyEventKind {
    Press,
    Repeat,
    Release,
}

/// A key event.
#[derive(Debug, Clone, Copy, PartialEq, Eq, Structural)]
pub struct KeyEvent {
    pub code: KeyCode,
    pub modifiers: KeyModifiers,
    pub kind: KeyEventKind,
}

impl KeyEvent {
    /// A key press of `code` with `modifiers` held.
    pub fn new(code: KeyCode, modifiers: KeyModifiers) -> (r: Self)
        ensures
            r.code == code,
            r.modifiers == modifiers,
            r.kind == KeyEventKind::Press,
    {
        KeyEvent { code, modifiers, kind: KeyEventKind::Press }
    }
}

} // verus!

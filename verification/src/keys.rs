//! Key presses as the screens read them.

use vstd::prelude::*;

verus! {

/// The key of a key press. Keys that no screen reads are `Other`.
#[derive(Clone, Copy, Debug, PartialEq, Eq, Structural)]
pub enum Key {
    Char(char),
    Up,
    Down,
    Enter,
    Esc,
    Other,
}

/// The modifier keys held during a key press.
#[derive(Clone, Copy, Debug, PartialEq, Eq, Structural)]
pub struct KeyModifiers {
    pub shift: bool,
    pub control: bool,
    pub alt: bool,
}

/// A key press.
#[derive(Clone, Copy, Debug, PartialEq, Eq, Structural)]
pub struct KeyEvent {
    pub code: Key,
    pub modifiers: KeyModifiers,
}

impl KeyModifiers {
    /// No modifier held.
    pub open spec fn spec_none() -> KeyModifiers {
        KeyModifiers { shift: false, control: false, alt: false }
    }

    /// Control alone.
    pub open spec fn spec_control() -> KeyModifiers {
        KeyModifiers { shift: false, control: true, alt: false }
    }

    /// No modifier held.
    #[verifier::when_used_as_spec(spec_none)]
    pub fn none() -> (m: KeyModifiers)
        ensures
            m == Self::spec_none(),
    {
        KeyModifiers { shift: false, control: false, alt: false }
    }

    /// Control alone.
    #[verifier::when_used_as_spec(spec_control)]
    pub fn control() -> (m: KeyModifiers)
        ensures
            m == Self::spec_control(),
    {
        KeyModifiers { shift: false, control: true, alt: false }
    }
}

impl KeyEvent {
    /// A key pressed with the given modifiers.
    pub fn new(code: Key, modifiers: KeyModifiers) -> (event: KeyEvent)
        ensures
            event == (KeyEvent { code, modifiers }),
    {
        KeyEvent { code, modifiers }
    }

    /// The press of a character key with no modifier.
    pub open spec fn plain(c: char) -> KeyEvent {
        KeyEvent { code: Key::Char(c), modifiers: KeyModifiers::spec_none() }
    }

    /// The press of a character key with control alone.
    pub open spec fn ctrl(c: char) -> KeyEvent {
        KeyEvent { code: Key::Char(c), modifiers: KeyModifiers::spec_control() }
    }

    /// The press of a key that is no character, with no modifier.
    pub open spec fn bare(code: Key) -> KeyEvent {
        KeyEvent { code, modifiers: KeyModifiers::spec_none() }
    }

    /// Whether this is the press of `c` with no modifier.
    pub fn is_plain(&self, c: char) -> (yes: bool)
        ensures
            yes == (*self == Self::plain(c)),
    {
        *self == KeyEvent { code: Key::Char(c), modifiers: KeyModifiers::none() }
    }

    /// Whether this is the press of `c` with control alone.
    pub fn is_ctrl(&self, c: char) -> (yes: bool)
        ensures
            yes == (*self == Self::ctrl(c)),
    {
        *self == KeyEvent { code: Key::Char(c), modifiers: KeyModifiers::control() }
    }

    /// Whether this is the press of `code` with no modifier.
    pub fn is_bare(&self, code: Key) -> (yes: bool)
        ensures
            yes == (*self == Self::bare(code)),
    {
        *self == KeyEvent { code, modifiers: KeyModifiers::none() }
    }
}

} // verus!

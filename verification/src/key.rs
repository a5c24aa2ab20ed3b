//! Key presses as the dispatcher sees them: a bare key and the modifiers
//! held with it.

use vstd::prelude::*;

verus! {

/// A modifier that can be held while a key is pressed.
#[derive(Clone, Copy, Debug, PartialEq, Eq, Structural)]
pub enum KeyModifier {
    Ctrl,
    Alt,
    Shift,
    Super,
}

/// A key without its modifiers.
#[derive(Clone, Copy, Debug, PartialEq, Eq, Structural)]
pub enum BareKey {
    PageDown,
    PageUp,
    Left,
    Down,
    Up,
    Right,
    Home,
    End,
    Backspace,
    Delete,
    Insert,
    F(u8),
    Char(char),
    Tab,
    Esc,
    Enter,
    CapsLock,
    ScrollLock,
    NumLock,
    PrintScreen,
    Pause,
    Menu,
}

/// A key press: the key and the set of modifiers held with it, one flag for
/// each modifier.
#[derive(Clone, Copy, Debug, PartialEq, Eq, Structural)]
pub struct KeyWithModifier {
    pub bare_key: BareKey,
    pub ctrl: bool,
    pub alt: bool,
    pub shift: bool,
    pub super_key: bool,
}

impl KeyWithModifier {
    /// `bare_key` with no modifier held.
    pub open spec fn plain(bare_key: BareKey) -> KeyWithModifier {
        KeyWithModifier { bare_key, ctrl: false, alt: false, shift: false, super_key: false }
    }

    /// No modifier is held.
    pub open spec fn no_modifiers(self) -> bool {
        !self.ctrl && !self.alt && !self.shift && !self.super_key
    }

    /// The modifier `modifier` is held, alone or with others.
    pub open spec fn holds(self, modifier: KeyModifier) -> bool {
        match modifier {
            KeyModifier::Ctrl => self.ctrl,
            KeyModifier::Alt => self.alt,
            KeyModifier::Shift => self.shift,
            KeyModifier::Super => self.super_key,
        }
    }

    /// The key is `bare_key` and no modifier is held.
    pub open spec fn is_plain(self, bare_key: BareKey) -> bool {
        self.bare_key == bare_key && self.no_modifiers()
    }

    /// The key is the character `c` and Ctrl is held, alone or with others.
    pub open spec fn is_ctrl(self, c: char) -> bool {
        self.bare_key == BareKey::Char(c) && self.ctrl
    }

    /// The key is the character `c` and Alt is held, alone or with others.
    pub open spec fn is_alt(self, c: char) -> bool {
        self.bare_key == BareKey::Char(c) && self.alt
    }

    /// The character that was typed, if the key is a character with no
    /// modifier held.
    pub open spec fn typed_char(self) -> Option<char> {
        match self.bare_key {
            BareKey::Char(c) => if self.no_modifiers() {
                Some(c)
            } else {
                None
            },
            _ => None,
        }
    }

    /// A press of `bare_key` with no modifier held.
    pub fn new(bare_key: BareKey) -> (key: KeyWithModifier)
        ensures
            key == KeyWithModifier::plain(bare_key),
    {
        KeyWithModifier { bare_key, ctrl: false, alt: false, shift: false, super_key: false }
    }

    /// The same press with Ctrl held as well.
    pub fn with_ctrl_modifier(self) -> (key: KeyWithModifier)
        ensures
            key == (KeyWithModifier { ctrl: true, ..self }),
    {
        KeyWithModifier { ctrl: true, ..self }
    }

    /// The same press with Alt held as well.
    pub fn with_alt_modifier(self) -> (key: KeyWithModifier)
        ensures
            key == (KeyWithModifier { alt: true, ..self }),
    {
        KeyWithModifier { alt: true, ..self }
    }

    /// The same press with Shift held as well.
    pub fn with_shift_modifier(self) -> (key: KeyWithModifier)
        ensures
            key == (KeyWithModifier { shift: true, ..self }),
    {
        KeyWithModifier { shift: true, ..self }
    }

    /// The same press with Super held as well.
    pub fn with_super_modifier(self) -> (key: KeyWithModifier)
        ensures
            key == (KeyWithModifier { super_key: true, ..self }),
    {
        KeyWithModifier { super_key: true, ..self }
    }

    /// Whether no modifier is held.
    pub fn has_no_modifiers(&self) -> (res: bool)
        ensures
            res == self.no_modifiers(),
    {
        !self.ctrl && !self.alt && !self.shift && !self.super_key
    }

    /// Whether `modifier` is held, alone or with others.
    pub fn has_modifier(&self, modifier: KeyModifier) -> (res: bool)
        ensures
            res == self.holds(modifier),
    {
        match modifier {
            KeyModifier::Ctrl => self.ctrl,
            KeyModifier::Alt => self.alt,
            KeyModifier::Shift => self.shift,
            KeyModifier::Super => self.super_key,
        }
    }

    /// Whether every modifier of `modifiers` is held. Others may be held
    /// too.
    pub fn has_modifiers(&self, modifiers: &[KeyModifier]) -> (res: bool)
        ensures
            res == forall|i: int| 0 <= i < modifiers@.len() ==> self.holds(#[trigger] modifiers@[i]),
    {
        let mut i: usize = 0;
        while i < modifiers.len()
            invariant
                i <= modifiers@.len(),
                forall|j: int| 0 <= j < i ==> self.holds(#[trigger] modifiers@[j]),
            decreases modifiers@.len() - i,
        {
            if !self.has_modifier(modifiers[i]) {
                return false;
            }
            i += 1;
        }
        true
    }
}

} // verus!

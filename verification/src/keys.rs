//! Key input events as the editor core sees them.
//!
//! The event source (a terminal backend) is outside the core; it hands over
//! plain `(modifier, key-code)` pairs in these types.

use vstd::prelude::*;

verus! {

/// A key code, after the terminal backend has decoded the input.
#[derive(Clone, Copy, PartialEq, Eq, Structural, Debug)]
pub enum Key {
    Char(char),
    Backspace,
    Enter,
    Left,
    Right,
    Up,
    Down,
    Esc,
    F(u8),
}

/// The modifier keys held together with a key code.
#[derive(Clone, Copy, PartialEq, Eq, Structural, Debug)]
pub struct Modifiers {
    pub ctrl: bool,
    pub alt: bool,
    pub shift: bool,
}

impl Modifiers {
    /// No modifier key is held.
    pub open spec fn is_none(self) -> bool {
        !self.ctrl && !self.alt && !self.shift
    }

    /// Exactly the control key is held.
    pub open spec fn is_ctrl_only(self) -> bool {
        self.ctrl && !self.alt && !self.shift
    }

    pub fn none() -> (m: Modifiers)
        ensures
            m.is_none(),
            m == (Modifiers { ctrl: false, alt: false, shift: false }),
    {
        Modifiers { ctrl: false, alt: false, shift: false }
    }

    pub fn ctrl() -> (m: Modifiers)
        ensures
            m.is_ctrl_only(),
            m == (Modifiers { ctrl: true, alt: false, shift: false }),
    {
        Modifiers { ctrl: true, alt: false, shift: false }
    }
}

} // verus!

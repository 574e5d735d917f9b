//! A modal message dialog: its geometry and its key handling.
//!
//! Drawing the box and the message is the terminal frontend's job; the core
//! computes where everything goes and decides when the dialog closes.

use crate::keys::Key;
use crate::keys::Modifiers;
use vstd::prelude::*;

verus! {

/// Position and size of the dialog box on the screen.
pub struct SimpleDialog {
    pub x: u16,
    pub y: u16,
    pub w: u16,
    pub h: u16,
}

impl SimpleDialog {
    /// A dialog centered in a terminal of the given size: half the terminal
    /// wide, four rows high, two rows above the vertical middle (clamped to
    /// the top edge on very small terminals).
    pub fn new(width: u16, height: u16) -> (r: SimpleDialog)
        ensures
            r.x == width / 4,
            r.w == width / 2,
            r.h == 4,
            height / 2 >= 2 ==> r.y == height / 2 - 2,
            height / 2 < 2 ==> r.y == 0,
    {
        let half: u16 = height / 2;
        let y: u16 = if half >= 2 {
            half - 2
        } else {
            0
        };
        SimpleDialog { x: width / 4, y, w: width / 2, h: 4 }
    }

    /// Whether the key closes the dialog: plain Esc does, nothing else.
    pub fn handle_keyinput(&self, modifier: Modifiers, code: Key) -> (r: bool)
        ensures
            r == (modifier.is_none() && code == Key::Esc),
    {
        (!modifier.ctrl && !modifier.alt && !modifier.shift) && match code {
            Key::Esc => true,
            _ => false,
        }
    }

    /// Column at which a message of display width `msg_width` starts so that
    /// it is centered in the dialog; clamped to the left screen edge when the
    /// message is wider than the dialog allows.
    pub fn message_x(&self, msg_width: u16) -> (r: u16)
        requires
            self.x + self.w / 2 <= u16::MAX,
        ensures
            self.x + self.w / 2 >= msg_width / 2 ==> r == self.x + self.w / 2 - msg_width / 2,
            self.x + self.w / 2 < msg_width / 2 ==> r == 0,
    {
        let center: u32 = self.x as u32 + (self.w / 2) as u32;
        let half_msg: u32 = (msg_width / 2) as u32;
        if center >= half_msg {
            (center - half_msg) as u16
        } else {
            0
        }
    }
}

} // verus!

//! Screen cursor with clamped movement primitives.
//!
//! `x` is a display column, `y` a document row. Moves that would leave the
//! allowed range are rejected entirely rather than clamped to the boundary:
//! the caller always knows the exact distance it wants to move.

use vstd::prelude::*;

verus! {

pub struct Cursor {
    pub x: u16,
    pub y: u16,
}

impl Cursor {
    /// The cursor's row.
    pub open spec fn row(&self) -> int {
        self.y as int
    }

    pub fn new() -> (r: Cursor)
        ensures
            r.x == 0,
            r.row() == 0,
    {
        Cursor { x: 0, y: 0 }
    }

    /// Moves the column left by `x`; rejected entirely when the move would
    /// pass column zero.
    pub fn move_left(&mut self, x: u16)
        ensures
            x <= old(self).x ==> final(self).x == old(self).x - x,
            x > old(self).x ==> final(self).x == old(self).x,
            final(self).row() == old(self).row(),
    {
        if x <= self.x {
            self.x = self.x - x;
        }
    }

    /// Moves the column right by `x`; rejected entirely when the move would
    /// pass column `width`.
    pub fn move_right(&mut self, width: u16, x: u16)
        ensures
            old(self).x + x <= width ==> final(self).x == old(self).x + x,
            old(self).x + x > width ==> final(self).x == old(self).x,
            final(self).row() == old(self).row(),
    {
        if x <= width && self.x <= width - x {
            self.x = self.x + x;
        }
    }

    /// Moves the row up by one; clamps at row zero.
    pub fn move_up(&mut self)
        ensures
            old(self).row() > 0 ==> final(self).row() == old(self).row() - 1,
            old(self).row() == 0 ==> final(self).row() == 0,
            final(self).x == old(self).x,
    {
        if self.y > 0 {
            self.y = self.y - 1;
        }
    }

    /// Moves the row down by one, up to `height`.
    pub fn move_down(&mut self, height: u16)
        ensures
            old(self).row() < height ==> final(self).row() == old(self).row() + 1,
            old(self).row() >= height ==> final(self).row() == old(self).row(),
            final(self).x == old(self).x,
    {
        if self.y < height {
            self.y = self.y + 1;
        }
    }

    pub fn get_y(&self) -> (r: u16)
        ensures
            r == self.row(),
    {
        self.y
    }

    /// The terminal row of the cursor: document rows sit one row below the
    /// menu bar.
    pub fn screen_y(&self) -> (r: u16)
        requires
            self.row() < u16::MAX,
        ensures
            r == self.row() + 1,
    {
        self.y + 1
    }
}

} // verus!

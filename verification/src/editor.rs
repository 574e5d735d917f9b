//! The editor state machine.
//!
//! The editor owns the document (a sequence of lines), the screen cursor,
//! the modal overlay state, the menu model and the command queue. Key events
//! arrive as plain values; every transition of spec interest is captured by a
//! relational spec function (`..._step`) that the handlers' contracts state.
//!
//! The terminal frontend around this core reads the screen size, hands each
//! key event to [`Editor::on_key`], performs the redraw the returned
//! [`Refresh`] asks for, and drains one queued command per loop tick through
//! [`Editor::poll_command`] / [`Editor::apply_command`].
//!
//! The central cursor invariant: the screen column `cursor.x` always equals
//! the display width of the current line's text before its byte cursor, so
//! the two coordinate spaces never drift apart. Vertical movement recomputes
//! the byte cursor on the destination line from the visual column.

use crate::cjk::byte_len;
use crate::cjk::char_bytes;
use crate::cjk::char_display_width;
use crate::cjk::char_utf8_len;
use crate::cjk::char_width;
use crate::cjk::column_to_index;
use crate::cjk::lemma_bytes_upto_mono;
use crate::cjk::lemma_normalize_exact;
use crate::cjk::lemma_sums_agree;
use crate::cjk::lemma_sums_insert;
use crate::cjk::width_upto;
use crate::cmd_queue::cmd_queue_add;
use crate::cmd_queue::cmd_queue_items;
use crate::cmd_queue::cmd_queue_new;
use crate::cmd_queue::cmd_queue_remove;
use crate::cmd_queue::cmd_queue_size;
use crate::cursor::Cursor;
use crate::keys::Key;
use crate::keys::Modifiers;
use crate::line_buffer::LineBuffer;
use crate::menu_bar::MenuBar;
use crate::menu_bar::MenuCmd;
use crate::simple_dialog::SimpleDialog;
use vstd::prelude::*;

verus! {

/// The modal state: plain editing, or one overlay that owns key routing.
/// At most one overlay is active at a time by construction.
#[derive(Clone, Copy, PartialEq, Eq, Structural, Debug)]
pub enum EditorMode {
    Editing,
    DialogOpen,
    MenuOpen(usize),
}

/// How much of the screen a transition asks the frontend to redraw.
#[derive(Clone, Copy, PartialEq, Eq, Structural, Debug)]
pub enum Refresh {
    CursorOnly,
    Line,
    Screen,
}

pub struct Editor {
    pub contents: Vec<LineBuffer>,
    pub cursor: Cursor,
    pub mode: EditorMode,
    pub menu_bar: MenuBar,
    pub cmd_queue: queues::Queue<MenuCmd>,
}

impl Editor {
    /// The line the cursor is on.
    pub open spec fn cur_line(&self) -> LineBuffer {
        self.contents@[self.cursor.row()]
    }

    /// Structural well-formedness: at least one line exists, the cursor row
    /// is a valid index with room below the screen limit, every line is
    /// well-formed, and an open menu selects an existing group.
    pub open spec fn wf_lines(&self) -> bool {
        &&& self.contents@.len() >= 1
        &&& self.cursor.row() < self.contents@.len()
        &&& self.cursor.row() <= u16::MAX - 3
        &&& (forall|i: int| 0 <= i < self.contents@.len() ==> (#[trigger] self.contents@[i]).wf())
        &&& self.menu_bar.wf()
        &&& (match self.mode {
            EditorMode::MenuOpen(g) => g < self.menu_bar.groups@.len(),
            _ => true,
        })
    }

    /// The screen column equals the display width of the current line's text
    /// before its byte cursor: the two coordinate spaces agree.
    pub open spec fn cursor_in_sync(&self) -> bool {
        self.cursor.x == width_upto(self.cur_line().text(), self.cur_line().char_cursor())
    }

    pub open spec fn wf(&self) -> bool {
        self.wf_lines() && self.cursor_in_sync()
    }

    /// Rows available for document content on a screen of `screen_h` rows:
    /// the screen minus menu bar and status rows, and no more than the
    /// document has lines.
    pub open spec fn area_height(&self, screen_h: u16) -> int {
        let cap: int = if screen_h >= 3 {
            screen_h - 3
        } else {
            0
        };
        if self.contents@.len() <= cap {
            self.contents@.len() as int
        } else {
            cap
        }
    }

    /// The mode, the menu model and the queued commands are unchanged.
    pub open spec fn same_frame(pre: Editor, post: Editor) -> bool {
        &&& post.mode == pre.mode
        &&& post.menu_bar.groups@ == pre.menu_bar.groups@
        &&& cmd_queue_items(post.cmd_queue) == cmd_queue_items(pre.cmd_queue)
    }

    /// Nothing observable changed: all line texts and line cursors, the
    /// screen cursor, the mode, the menu and the queue are as before.
    pub open spec fn obs_eq(pre: Editor, post: Editor) -> bool {
        &&& post.contents@.len() == pre.contents@.len()
        &&& (forall|i: int|
            0 <= i < pre.contents@.len() ==> (#[trigger] post.contents@[i]).text()
                == pre.contents@[i].text())
        &&& (forall|i: int|
            0 <= i < pre.contents@.len() ==> (#[trigger] post.contents@[i]).char_cursor()
                == pre.contents@[i].char_cursor())
        &&& post.cursor == pre.cursor
        &&& Editor::same_frame(pre, post)
    }

    /// Only the mode changed, to `new_mode`: an overlay opened or closed.
    pub open spec fn overlay_step(pre: Editor, post: Editor, new_mode: EditorMode) -> bool {
        &&& post.contents@ == pre.contents@
        &&& post.cursor == pre.cursor
        &&& post.menu_bar.groups@ == pre.menu_bar.groups@
        &&& cmd_queue_items(post.cmd_queue) == cmd_queue_items(pre.cmd_queue)
        &&& post.mode == new_mode
    }

    /// Effect of typing `c`: when the character fits on the screen row and
    /// the line can hold its bytes, it is spliced in at the byte cursor and
    /// the column advances by its width; otherwise nothing changes.
    pub open spec fn insert_step(pre: Editor, post: Editor, c: char, screen_w: u16) -> bool {
        let s = pre.cur_line().text();
        let i = pre.cur_line().char_cursor();
        if pre.cursor.x + char_width(c) <= screen_w && byte_len(s) + char_bytes(c) <= usize::MAX {
            &&& post.contents@ == pre.contents@.update(pre.cursor.row(), post.cur_line())
            &&& post.cur_line().text() == s.insert(i, c)
            &&& post.cur_line().char_cursor() == i + 1
            &&& post.cursor.x == pre.cursor.x + char_width(c)
            &&& post.cursor.row() == pre.cursor.row()
            &&& Editor::same_frame(pre, post)
        } else {
            Editor::obs_eq(pre, post)
        }
    }

    /// Effect of backspace: the character before the byte cursor is deleted
    /// and the column retreats by its width; at the start of a line nothing
    /// changes.
    pub open spec fn backspace_step(pre: Editor, post: Editor) -> bool {
        let s = pre.cur_line().text();
        let i = pre.cur_line().char_cursor();
        if i > 0 {
            &&& post.contents@ == pre.contents@.update(pre.cursor.row(), post.cur_line())
            &&& post.cur_line().text() == s.remove(i - 1)
            &&& post.cur_line().char_cursor() == i - 1
            &&& post.cursor.x == pre.cursor.x - char_width(s[i - 1])
            &&& post.cursor.row() == pre.cursor.row()
            &&& Editor::same_frame(pre, post)
        } else {
            Editor::obs_eq(pre, post)
        }
    }

    /// Effect of the left arrow: the cursor steps over the previous
    /// character and the column retreats by its width; at the start of a
    /// line nothing changes.
    pub open spec fn left_step(pre: Editor, post: Editor) -> bool {
        let s = pre.cur_line().text();
        let i = pre.cur_line().char_cursor();
        if i > 0 {
            &&& post.contents@ == pre.contents@.update(pre.cursor.row(), post.cur_line())
            &&& post.cur_line().text() == s
            &&& post.cur_line().char_cursor() == i - 1
            &&& post.cursor.x == pre.cursor.x - char_width(s[i - 1])
            &&& post.cursor.row() == pre.cursor.row()
            &&& Editor::same_frame(pre, post)
        } else {
            Editor::obs_eq(pre, post)
        }
    }

    /// Effect of the right arrow: the cursor steps over the character under
    /// it and the column advances by its width, provided that stays on the
    /// screen; at the end of a line nothing changes.
    pub open spec fn right_step(pre: Editor, post: Editor, screen_w: u16) -> bool {
        let s = pre.cur_line().text();
        let i = pre.cur_line().char_cursor();
        let cw = if i < s.len() {
            char_width(s[i])
        } else {
            0
        };
        if pre.cursor.x + cw <= screen_w && i < s.len() {
            &&& post.contents@ == pre.contents@.update(pre.cursor.row(), post.cur_line())
            &&& post.cur_line().text() == s
            &&& post.cur_line().char_cursor() == i + 1
            &&& post.cursor.x == pre.cursor.x + cw
            &&& post.cursor.row() == pre.cursor.row()
            &&& Editor::same_frame(pre, post)
        } else {
            Editor::obs_eq(pre, post)
        }
    }

    /// The cursor landed on row `pre.cursor.row()` coming from the visual
    /// column `pre.cursor.x`: the byte cursor of that line and the column
    /// are recomputed from the column scan, so that column N never silently
    /// maps to a byte offset of a different width.
    pub open spec fn recompute_step(pre: Editor, post: Editor) -> bool {
        let s = pre.cur_line().text();
        let k = column_to_index(s, pre.cursor.x as int);
        &&& post.contents@ == pre.contents@.update(pre.cursor.row(), post.cur_line())
        &&& post.cur_line().text() == s
        &&& post.cur_line().char_cursor() == k
        &&& post.cursor.x == width_upto(s, k)
        &&& post.cursor.row() == pre.cursor.row()
        &&& Editor::same_frame(pre, post)
    }

    /// Effect of the up arrow: the row moves up by one (clamped at the top)
    /// and the destination line's byte cursor is recomputed from the visual
    /// column.
    pub open spec fn up_step(pre: Editor, post: Editor) -> bool {
        let row2 = if pre.cursor.row() > 0 {
            pre.cursor.row() - 1
        } else {
            0
        };
        Editor::recompute_step(
            Editor { cursor: Cursor { x: pre.cursor.x, y: row2 as u16 }, ..pre },
            post,
        )
    }

    /// Effect of the down arrow: the row moves down by one, staying within
    /// the document and the editable area, and the destination line's byte
    /// cursor is recomputed from the visual column.
    pub open spec fn down_step(pre: Editor, post: Editor, screen_h: u16) -> bool {
        let limit = if pre.area_height(screen_h) >= 1 {
            pre.area_height(screen_h) - 1
        } else {
            0
        };
        let row2 = if pre.cursor.row() < limit {
            pre.cursor.row() + 1
        } else {
            pre.cursor.row()
        };
        Editor::recompute_step(
            Editor { cursor: Cursor { x: pre.cursor.x, y: row2 as u16 }, ..pre },
            post,
        )
    }

    /// Effect of Enter: while the editable area has room, an empty line is
    /// appended, the cursor moves to the next row at column zero, and the
    /// destination line's byte cursor is reset to its start.
    pub open spec fn enter_step(pre: Editor, post: Editor, screen_h: u16) -> bool {
        if pre.cursor.row() < pre.area_height(screen_h) {
            &&& post.contents@.len() == pre.contents@.len() + 1
            &&& (forall|i: int|
                0 <= i < pre.contents@.len() ==> (#[trigger] post.contents@[i]).text()
                    == pre.contents@[i].text())
            &&& post.contents@[pre.contents@.len() as int].text().len() == 0
            &&& (forall|i: int|
                0 <= i < pre.contents@.len() && i != pre.cursor.row() + 1 ==> (
                #[trigger] post.contents@[i]).char_cursor() == pre.contents@[i].char_cursor())
            &&& post.cursor.row() == pre.cursor.row() + 1
            &&& post.cursor.x == 0
            &&& post.cur_line().char_cursor() == 0
            &&& Editor::same_frame(pre, post)
        } else {
            Editor::obs_eq(pre, post)
        }
    }

    /// Nothing happens: the key is ignored in this state.
    pub open spec fn idle_step(pre: Editor, post: Editor, r: Refresh, save: bool) -> bool {
        Editor::obs_eq(pre, post) && r == Refresh::CursorOnly && !save
    }

    /// The whole key-to-transition table of the editing state, including the
    /// redraw granularity of each input and the save request of Ctrl+S.
    pub open spec fn editing_step(
        pre: Editor,
        post: Editor,
        m: Modifiers,
        code: Key,
        screen_w: u16,
        screen_h: u16,
        r: Refresh,
        save: bool,
    ) -> bool {
        if m.is_ctrl_only() && code == Key::Char('s') {
            Editor::obs_eq(pre, post) && r == Refresh::CursorOnly && save
        } else {
            match code {
                Key::Char(c) => Editor::insert_step(pre, post, c, screen_w) && r == Refresh::Line
                    && !save,
                Key::Backspace => Editor::backspace_step(pre, post) && r == Refresh::Line && !save,
                Key::Enter => if m.is_none() {
                    Editor::enter_step(pre, post, screen_h) && r == Refresh::Screen && !save
                } else {
                    Editor::idle_step(pre, post, r, save)
                },
                Key::Left => if m.is_none() {
                    Editor::left_step(pre, post) && r == Refresh::CursorOnly && !save
                } else {
                    Editor::idle_step(pre, post, r, save)
                },
                Key::Right => if m.is_none() {
                    Editor::right_step(pre, post, screen_w) && r == Refresh::CursorOnly && !save
                } else {
                    Editor::idle_step(pre, post, r, save)
                },
                Key::Up => if m.is_none() {
                    Editor::up_step(pre, post) && r == Refresh::Screen && !save
                } else {
                    Editor::idle_step(pre, post, r, save)
                },
                Key::Down => if m.is_none() {
                    Editor::down_step(pre, post, screen_h) && r == Refresh::Screen && !save
                } else {
                    Editor::idle_step(pre, post, r, save)
                },
                Key::F(n) => if m.is_none() && n == 1 {
                    Editor::overlay_step(pre, post, EditorMode::DialogOpen) && r == Refresh::Screen
                        && !save
                } else if m.is_none() && n == 10 {
                    Editor::overlay_step(pre, post, EditorMode::MenuOpen(0)) && r
                        == Refresh::Screen && !save
                } else {
                    Editor::idle_step(pre, post, r, save)
                },
                Key::Esc => Editor::idle_step(pre, post, r, save),
            }
        }
    }

    /// What a key does while the menu is open with group `g` selected: Esc
    /// closes the menu, Left and Right move the selection, and any command
    /// (Enter's selection included) is queued while the menu closes; every
    /// outcome asks for a full redraw.
    pub open spec fn menu_step(
        pre: Editor,
        post: Editor,
        m: Modifiers,
        code: Key,
        g: int,
        r: Refresh,
    ) -> bool {
        let resp = pre.menu_bar.menu_response(m, code, g);
        &&& post.contents@ == pre.contents@
        &&& post.cursor == pre.cursor
        &&& post.menu_bar.groups@ == pre.menu_bar.groups@
        &&& r == Refresh::Screen
        &&& (resp.0 == MenuCmd::CloseMenu ==> post.mode == EditorMode::Editing && cmd_queue_items(
            post.cmd_queue,
        ) == cmd_queue_items(pre.cmd_queue))
        &&& (resp.0 == MenuCmd::Refresh ==> post.mode == EditorMode::MenuOpen(resp.1 as usize)
            && cmd_queue_items(post.cmd_queue) == cmd_queue_items(pre.cmd_queue))
        &&& (resp.0 != MenuCmd::CloseMenu && resp.0 != MenuCmd::Refresh ==> post.mode
            == EditorMode::Editing && cmd_queue_items(post.cmd_queue) == cmd_queue_items(
            pre.cmd_queue,
        ).push(resp.0))
    }

    /// What a key does while the dialog is open: plain Esc closes it with a
    /// full redraw; everything else is ignored.
    pub open spec fn dialog_step(pre: Editor, post: Editor, m: Modifiers, code: Key, r: Refresh) -> bool {
        if m.is_none() && code == Key::Esc {
            Editor::overlay_step(pre, post, EditorMode::Editing) && r == Refresh::Screen
        } else {
            Editor::obs_eq(pre, post) && r == Refresh::CursorOnly
        }
    }

    /// A fresh editor: one empty line, the cursor at the origin, no overlay,
    /// the default menu and an empty command queue.
    pub fn new() -> (r: Editor)
        ensures
            r.wf(),
            r.contents@.len() == 1,
            r.contents@[0].text().len() == 0,
            r.contents@[0].char_cursor() == 0,
            r.cursor.x == 0,
            r.cursor.row() == 0,
            r.mode == EditorMode::Editing,
            cmd_queue_items(r.cmd_queue).len() == 0,
    {
        let mut contents: Vec<LineBuffer> = Vec::new();
        contents.push(LineBuffer::new());
        Editor {
            contents,
            cursor: Cursor::new(),
            mode: EditorMode::Editing,
            menu_bar: MenuBar::new(),
            cmd_queue: cmd_queue_new(),
        }
    }

    /// Replaces the document wholesale: one line per record, each line's
    /// byte cursor at zero, the screen cursor back at the origin. An empty
    /// record set leaves the default single empty line, so the document
    /// never loses its last line.
    pub fn load(&mut self, records: Vec<String>)
        requires
            old(self).wf(),
        ensures
            final(self).wf(),
            records@.len() > 0 ==> final(self).contents@.len() == records@.len(),
            records@.len() > 0 ==> (forall|i: int|
                0 <= i < records@.len() ==> (#[trigger] final(self).contents@[i]).text()
                    == records@[i]@ && final(self).contents@[i].char_cursor() == 0),
            records@.len() == 0 ==> final(self).contents@.len() == 1,
            records@.len() == 0 ==> final(self).contents@[0].text().len() == 0,
            final(self).cursor.x == 0,
            final(self).cursor.row() == 0,
            final(self).mode == old(self).mode,
            final(self).menu_bar.groups@ == old(self).menu_bar.groups@,
            cmd_queue_items(final(self).cmd_queue) == cmd_queue_items(old(self).cmd_queue),
    {
        let mut lines: Vec<LineBuffer> = Vec::new();
        let mut i: usize = 0;
        while i < records.len()
            invariant
                i <= records@.len(),
                lines@.len() == i,
                forall|j: int|
                    0 <= j < i ==> (#[trigger] lines@[j]).wf() && lines@[j].text() == records@[j]@
                        && lines@[j].char_cursor() == 0,
            decreases records@.len() - i,
        {
            lines.push(LineBuffer::from(records[i].as_str()));
            i = i + 1;
        }
        if lines.len() == 0 {
            lines.push(LineBuffer::new());
        }
        self.contents = lines;
        self.cursor = Cursor::new();
    }

    /// Rows available for document content on a screen of `screen_h` rows.
    pub fn edit_area_height(&self, screen_h: u16) -> (r: u16)
        ensures
            r == self.area_height(screen_h),
    {
        let cap: u16 = if screen_h >= 3 {
            screen_h - 3
        } else {
            0
        };
        if self.contents.len() <= cap as usize {
            self.contents.len() as u16
        } else {
            cap
        }
    }

    /// The number of lines in the document.
    pub fn line_count(&self) -> (r: usize)
        ensures
            r == self.contents@.len(),
    {
        self.contents.len()
    }

    /// The line at `row`, or `None` when `row` is outside the document:
    /// callers treat that as "no current line" rather than failing.
    pub fn line(&self, row: usize) -> (r: Option<&LineBuffer>)
        ensures
            row < self.contents@.len() ==> (r matches Some(l) && *l
                == self.contents@[row as int]),
            row >= self.contents@.len() ==> r is None,
    {
        if row < self.contents.len() {
            Some(&self.contents[row])
        } else {
            None
        }
    }

    /// The text of line `row`, or `None` when `row` is outside the document:
    /// callers treat that as "no current line" rather than failing.
    pub fn line_text(&self, row: usize) -> (r: Option<String>)
        ensures
            row < self.contents@.len() ==> (r matches Some(s) && s@
                == self.contents@[row as int].text()),
            row >= self.contents@.len() ==> r is None,
    {
        if row < self.contents.len() {
            Some(self.contents[row].get_buffer())
        } else {
            None
        }
    }

    /// Recomputes the current line's byte cursor and the screen column from
    /// the visual column, restoring the cursor invariant after a row change.
    pub fn update_cursor_x(&mut self)
        requires
            old(self).wf_lines(),
        ensures
            final(self).wf(),
            Editor::recompute_step(*old(self), *final(self)),
    {
        let row: usize = self.cursor.y as usize;
        let x: usize = self.cursor.x as usize;
        assert(self.contents@[row as int].wf());
        let pair: (usize, usize) = self.contents[row].cursor_and_byteindex(x);
        let _pair2: (usize, usize) = self.contents[row].set_byte_index(pair.1);
        proof {
            let s = old(self).cur_line().text();
            let k = column_to_index(s, x as int);
            crate::cjk::lemma_col_scan_props(s, 0, x as int);
            lemma_normalize_exact(s, k);
        }
        self.cursor.x = pair.0 as u16;
    }

    /// Moves the cursor one row up (clamped at the top) and recomputes the
    /// destination line's byte cursor from the visual column.
    pub fn move_up(&mut self)
        requires
            old(self).wf(),
        ensures
            final(self).wf(),
            Editor::up_step(*old(self), *final(self)),
    {
        self.cursor.move_up();
        self.update_cursor_x();
    }

    /// Moves the cursor one row down, staying within the document and the
    /// editable area, and recomputes the destination line's byte cursor from
    /// the visual column.
    pub fn move_down(&mut self, screen_h: u16)
        requires
            old(self).wf(),
        ensures
            final(self).wf(),
            Editor::down_step(*old(self), *final(self), screen_h),
    {
        let eah: u16 = self.edit_area_height(screen_h);
        let limit: u16 = if eah >= 1 {
            eah - 1
        } else {
            0
        };
        self.cursor.move_down(limit);
        self.update_cursor_x();
    }

    /// While the editable area has room, appends an empty line and moves the
    /// cursor to the next row at column zero.
    pub fn add_new_line(&mut self, screen_h: u16)
        requires
            old(self).wf(),
        ensures
            final(self).wf(),
            Editor::enter_step(*old(self), *final(self), screen_h),
    {
        let eah_pre: u16 = self.edit_area_height(screen_h);
        if self.cursor.get_y() < eah_pre {
            self.contents.push(LineBuffer::new());
            self.cursor.x = 0;
            let eah_post: u16 = self.edit_area_height(screen_h);
            self.cursor.move_down(eah_post);
            self.update_cursor_x();
        }
    }

    /// Types one printable character into the current line.
    pub fn handle_input_char(&mut self, ch: char, screen_w: u16) -> (r: Refresh)
        requires
            old(self).wf(),
        ensures
            final(self).wf(),
            Editor::insert_step(*old(self), *final(self), ch, screen_w),
            r == Refresh::Line,
    {
        let row: usize = self.cursor.y as usize;
        let cw: usize = char_display_width(ch);
        let cb: usize = char_utf8_len(ch);
        assert(self.contents@[row as int].wf());
        let bl: usize = self.contents[row].len();
        if (self.cursor.x as usize) + cw <= screen_w as usize && bl <= usize::MAX - cb {
            self.contents[row].insert(ch);
            proof {
                lemma_sums_insert(
                    old(self).cur_line().text(),
                    old(self).cur_line().char_cursor(),
                    ch,
                    old(self).cur_line().char_cursor() + 1,
                );
            }
            self.cursor.move_right(screen_w, cw as u16);
        }
        Refresh::Line
    }

    /// Deletes the character before the byte cursor (backspace semantics).
    pub fn handle_backspace(&mut self) -> (r: Refresh)
        requires
            old(self).wf(),
        ensures
            final(self).wf(),
            Editor::backspace_step(*old(self), *final(self)),
            r == Refresh::Line,
    {
        let row: usize = self.cursor.y as usize;
        assert(self.contents@[row as int].wf());
        let b: usize = self.contents[row].get_byte_index();
        proof {
            lemma_bytes_upto_mono(
                old(self).cur_line().text(),
                0,
                old(self).cur_line().char_cursor(),
            );
        }
        if b > 0 {
            let deleted: char = self.contents[row].remove();
            let cw: usize = char_display_width(deleted);
            proof {
                let s = old(self).cur_line().text();
                let i = old(self).cur_line().char_cursor();
                lemma_sums_agree(s, s.remove(i - 1), i - 1);
            }
            self.cursor.move_left(cw as u16);
        }
        Refresh::Line
    }

    /// Steps the cursor over the previous character.
    pub fn handle_leftkey(&mut self) -> (r: Refresh)
        requires
            old(self).wf(),
        ensures
            final(self).wf(),
            Editor::left_step(*old(self), *final(self)),
            r == Refresh::CursorOnly,
    {
        let row: usize = self.cursor.y as usize;
        assert(self.contents@[row as int].wf());
        let _prev_b: usize = self.contents[row].prev();
        let cw: usize = self.contents[row].current_char_width();
        self.cursor.move_left(cw as u16);
        Refresh::CursorOnly
    }

    /// Steps the cursor over the character under it, staying on the screen.
    pub fn handle_rightkey(&mut self, screen_w: u16) -> (r: Refresh)
        requires
            old(self).wf(),
        ensures
            final(self).wf(),
            Editor::right_step(*old(self), *final(self), screen_w),
            r == Refresh::CursorOnly,
    {
        let row: usize = self.cursor.y as usize;
        assert(self.contents@[row as int].wf());
        let cw: usize = self.contents[row].current_char_width();
        if (self.cursor.x as usize) + cw <= screen_w as usize {
            let _moved: Result<usize, crate::line_buffer::LineErr> = self.contents[row].next();
            self.cursor.move_right(screen_w, cw as u16);
        }
        Refresh::CursorOnly
    }

    /// Appends a new line on Enter.
    pub fn handle_enterkey(&mut self, screen_h: u16) -> (r: Refresh)
        requires
            old(self).wf(),
        ensures
            final(self).wf(),
            Editor::enter_step(*old(self), *final(self), screen_h),
            r == Refresh::Screen,
    {
        self.add_new_line(screen_h);
        Refresh::Screen
    }

    /// Moves the cursor one row up.
    pub fn handle_upkey(&mut self) -> (r: Refresh)
        requires
            old(self).wf(),
        ensures
            final(self).wf(),
            Editor::up_step(*old(self), *final(self)),
            r == Refresh::Screen,
    {
        self.move_up();
        Refresh::Screen
    }

    /// Moves the cursor one row down.
    pub fn handle_downkey(&mut self, screen_h: u16) -> (r: Refresh)
        requires
            old(self).wf(),
        ensures
            final(self).wf(),
            Editor::down_step(*old(self), *final(self), screen_h),
            r == Refresh::Screen,
    {
        self.move_down(screen_h);
        Refresh::Screen
    }

    /// Opens the help dialog.
    pub fn handle_help(&mut self) -> (r: Refresh)
        requires
            old(self).wf(),
        ensures
            final(self).wf(),
            Editor::overlay_step(*old(self), *final(self), EditorMode::DialogOpen),
            r == Refresh::Screen,
    {
        self.mode = EditorMode::DialogOpen;
        Refresh::Screen
    }

    /// Opens the menu with the first group selected.
    pub fn handle_menu(&mut self) -> (r: Refresh)
        requires
            old(self).wf(),
        ensures
            final(self).wf(),
            Editor::overlay_step(*old(self), *final(self), EditorMode::MenuOpen(0)),
            r == Refresh::Screen,
    {
        self.mode = EditorMode::MenuOpen(0);
        Refresh::Screen
    }

    /// Routes one key in the editing state: the whole transition table of
    /// [`Editor::editing_step`]. The second component of the result reports
    /// whether the caller should save the document (Ctrl+S).
    pub fn handle_keyinput(&mut self, modifier: Modifiers, code: Key, screen_w: u16, screen_h: u16)
        -> (r: (Refresh, bool))
        requires
            old(self).wf(),
        ensures
            final(self).wf(),
            Editor::editing_step(
                *old(self),
                *final(self),
                modifier,
                code,
                screen_w,
                screen_h,
                r.0,
                r.1,
            ),
    {
        let ctrl_s: bool = modifier.ctrl && !modifier.alt && !modifier.shift && (match code {
            Key::Char(c) => c == 's',
            _ => false,
        });
        if ctrl_s {
            return (Refresh::CursorOnly, true);
        }
        let nomod: bool = !modifier.ctrl && !modifier.alt && !modifier.shift;
        match code {
            Key::Char(c) => (self.handle_input_char(c, screen_w), false),
            Key::Backspace => (self.handle_backspace(), false),
            Key::Enter => if nomod {
                (self.handle_enterkey(screen_h), false)
            } else {
                (Refresh::CursorOnly, false)
            },
            Key::Left => if nomod {
                (self.handle_leftkey(), false)
            } else {
                (Refresh::CursorOnly, false)
            },
            Key::Right => if nomod {
                (self.handle_rightkey(screen_w), false)
            } else {
                (Refresh::CursorOnly, false)
            },
            Key::Up => if nomod {
                (self.handle_upkey(), false)
            } else {
                (Refresh::CursorOnly, false)
            },
            Key::Down => if nomod {
                (self.handle_downkey(screen_h), false)
            } else {
                (Refresh::CursorOnly, false)
            },
            Key::F(n) => if nomod && n == 1 {
                (self.handle_help(), false)
            } else if nomod && n == 10 {
                (self.handle_menu(), false)
            } else {
                (Refresh::CursorOnly, false)
            },
            Key::Esc => (Refresh::CursorOnly, false),
        }
    }

    /// Routes one key by the active overlay: to the open menu, to the open
    /// dialog, or to the editing transition table.
    pub fn on_key(&mut self, modifier: Modifiers, code: Key, screen_w: u16, screen_h: u16) -> (r:
        (Refresh, bool))
        requires
            old(self).wf(),
        ensures
            final(self).wf(),
            old(self).mode == EditorMode::Editing ==> Editor::editing_step(
                *old(self),
                *final(self),
                modifier,
                code,
                screen_w,
                screen_h,
                r.0,
                r.1,
            ),
            (old(self).mode matches EditorMode::MenuOpen(g) ==> Editor::menu_step(
                *old(self),
                *final(self),
                modifier,
                code,
                g as int,
                r.0,
            ) && !r.1),
            old(self).mode == EditorMode::DialogOpen ==> Editor::dialog_step(
                *old(self),
                *final(self),
                modifier,
                code,
                r.0,
            ) && !r.1,
    {
        match self.mode {
            EditorMode::MenuOpen(g) => {
                let resp: (MenuCmd, usize) = self.menu_bar.handle_keyinput(modifier, code, g);
                match resp.0 {
                    MenuCmd::CloseMenu => {
                        self.mode = EditorMode::Editing;
                    },
                    MenuCmd::Refresh => {
                        self.mode = EditorMode::MenuOpen(resp.1);
                    },
                    _ => {
                        cmd_queue_add(&mut self.cmd_queue, resp.0);
                        self.mode = EditorMode::Editing;
                    },
                }
                (Refresh::Screen, false)
            },
            EditorMode::DialogOpen => {
                let dialog = SimpleDialog::new(screen_w, screen_h);
                if dialog.handle_keyinput(modifier, code) {
                    self.mode = EditorMode::Editing;
                    (Refresh::Screen, false)
                } else {
                    (Refresh::CursorOnly, false)
                }
            },
            EditorMode::Editing => self.handle_keyinput(modifier, code, screen_w, screen_h),
        }
    }

    /// Takes the oldest queued command out, if any: commands run one per
    /// event-loop tick, never inside the key handling that queued them.
    pub fn poll_command(&mut self) -> (r: Option<MenuCmd>)
        requires
            old(self).wf(),
        ensures
            final(self).wf(),
            final(self).contents@ == old(self).contents@,
            final(self).cursor == old(self).cursor,
            final(self).mode == old(self).mode,
            final(self).menu_bar.groups@ == old(self).menu_bar.groups@,
            cmd_queue_items(old(self).cmd_queue).len() == 0 ==> r is None && cmd_queue_items(
                final(self).cmd_queue,
            ) == cmd_queue_items(old(self).cmd_queue),
            cmd_queue_items(old(self).cmd_queue).len() > 0 ==> r == Some(
                cmd_queue_items(old(self).cmd_queue)[0],
            ) && cmd_queue_items(final(self).cmd_queue) == cmd_queue_items(
                old(self).cmd_queue,
            ).drop_first(),
    {
        if cmd_queue_size(&self.cmd_queue) > 0 {
            cmd_queue_remove(&mut self.cmd_queue)
        } else {
            None
        }
    }

    /// Performs one dequeued command: Exit asks the caller to shut down,
    /// About opens the help dialog, anything else does nothing.
    pub fn apply_command(&mut self, cmd: MenuCmd) -> (exit: bool)
        requires
            old(self).wf(),
        ensures
            final(self).wf(),
            exit == (cmd == MenuCmd::Exit),
            cmd == MenuCmd::About ==> Editor::overlay_step(
                *old(self),
                *final(self),
                EditorMode::DialogOpen,
            ),
            cmd != MenuCmd::About ==> Editor::obs_eq(*old(self), *final(self)),
    {
        match cmd {
            MenuCmd::Exit => true,
            MenuCmd::About => {
                let _refresh: Refresh = self.handle_help();
                false
            },
            _ => false,
        }
    }
}

/// In every well-formed editor state the screen column stays within the
/// current line's total display width: the cursor never points past the
/// rendered text.
pub proof fn lemma_column_within_line_width(ed: Editor)
    requires
        ed.wf(),
    ensures
        ed.cursor.x <= crate::cjk::str_width(ed.cur_line().text()),
{
    crate::cjk::lemma_width_upto_mono(
        ed.cur_line().text(),
        ed.cur_line().char_cursor(),
        ed.cur_line().text().len() as int,
    );
}

/// Whether the key unconditionally exits the editor from any state: Ctrl+Q,
/// or F12 with any modifiers.
pub fn is_exit_key(modifier: Modifiers, code: Key) -> (r: bool)
    ensures
        r == ((modifier.is_ctrl_only() && code == Key::Char('q')) || (code matches Key::F(n) && n
            == 12)),
{
    if modifier.ctrl && !modifier.alt && !modifier.shift {
        let q: bool = match code {
            Key::Char(c) => c == 'q',
            _ => false,
        };
        if q {
            return true;
        }
    }
    match code {
        Key::F(n) => n == 12,
        _ => false,
    }
}

} // verus!

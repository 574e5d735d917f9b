//! One editable line of text with a byte cursor.
//!
//! A `LineBuffer` owns a line's characters and a cursor that external callers
//! see as a UTF-8 byte offset. Internally the cursor is a char index, so it
//! always sits on a character boundary; requested byte offsets are normalized
//! to the nearest boundary at or before them.

use crate::cjk::byte_len;
use crate::cjk::byte_scan;
use crate::cjk::bytes_upto;
use crate::cjk::char_bytes;
use crate::cjk::char_display_width;
use crate::cjk::char_utf8_len;
use crate::cjk::char_width;
use crate::cjk::col_scan;
use crate::cjk::column_to_index;
use crate::cjk::lemma_bytes_upto_mono;
use crate::cjk::lemma_sums_insert;
use crate::cjk::lemma_sums_remove;
use crate::cjk::normalize_index;
use crate::cjk::str_width;
use crate::cjk::width_upto;
use vstd::prelude::*;

verus! {

/// Sentinel result of a cursor move that found no further character
/// boundary in its direction.
#[derive(Debug, PartialEq, Eq, Structural)]
pub enum LineErr {
    EndOfString,
}

pub struct LineBuffer {
    chars: Vec<char>,
    cidx: usize,
}

impl LineBuffer {
    /// The characters of the line.
    pub closed spec fn text(&self) -> Seq<char> {
        self.chars@
    }

    /// The cursor as a char index into `text()`.
    pub closed spec fn char_cursor(&self) -> int {
        self.cidx as int
    }

    /// The cursor as a byte offset into the UTF-8 encoding of the line.
    pub open spec fn byte_cursor(&self) -> nat {
        bytes_upto(self.text(), self.char_cursor())
    }

    /// The cursor sits on a character boundary (including end of line), and
    /// the line's byte length is representable, so every byte offset and
    /// every display column of the line fits in a `usize`.
    pub open spec fn wf(&self) -> bool {
        &&& 0 <= self.char_cursor() <= self.text().len()
        &&& byte_len(self.text()) <= usize::MAX
    }

    pub fn new() -> (r: LineBuffer)
        ensures
            r.wf(),
            r.text().len() == 0,
            r.char_cursor() == 0,
    {
        LineBuffer { chars: Vec::new(), cidx: 0 }
    }

    pub fn from(arg: &str) -> (r: LineBuffer)
        ensures
            r.wf(),
            r.text() == arg@,
            r.char_cursor() == 0,
    {
        let n: usize = arg.unicode_len();
        let mut chars: Vec<char> = Vec::new();
        let mut j: usize = 0;
        while j < n
            invariant
                n == arg@.len(),
                j <= n,
                chars@ == arg@.take(j as int),
            decreases n - j,
        {
            chars.push(arg.get_char(j));
            proof {
                assert(arg@.take(j + 1) =~= arg@.take(j as int).push(arg@[j as int]));
            }
            j = j + 1;
        }
        proof {
            assert(arg@.take(n as int) =~= arg@);
            crate::cjk::lemma_byte_len_is_utf8_len(arg@);
        }
        let bytes: &[u8] = arg.as_bytes();
        let total: usize = bytes.len();
        assert(byte_len(arg@) == total);
        LineBuffer { chars, cidx: 0 }
    }

    /// Byte offset of char index `i`, computed by summing UTF-8 lengths.
    fn byte_offset_of(&self, i: usize) -> (r: usize)
        requires
            self.wf(),
            i <= self.text().len(),
        ensures
            r == bytes_upto(self.text(), i as int),
    {
        let mut sum: usize = 0;
        let mut j: usize = 0;
        while j < i
            invariant
                self.wf(),
                i <= self.text().len(),
                j <= i,
                sum == bytes_upto(self.text(), j as int),
            decreases i - j,
        {
            proof {
                lemma_bytes_upto_mono(self.text(), j + 1, self.text().len() as int);
            }
            sum = sum + char_utf8_len(self.chars[j]);
            j = j + 1;
        }
        sum
    }

    /// Display column of char index `i`, computed by summing character
    /// widths.
    fn width_of_prefix(&self, i: usize) -> (r: usize)
        requires
            self.wf(),
            i <= self.text().len(),
        ensures
            r == width_upto(self.text(), i as int),
    {
        let mut sum: usize = 0;
        let mut j: usize = 0;
        while j < i
            invariant
                self.wf(),
                i <= self.text().len(),
                j <= i,
                sum == width_upto(self.text(), j as int),
                sum <= bytes_upto(self.text(), j as int),
            decreases i - j,
        {
            proof {
                lemma_bytes_upto_mono(self.text(), j + 1, self.text().len() as int);
            }
            sum = sum + char_display_width(self.chars[j]);
            j = j + 1;
        }
        sum
    }

    /// Length of the line in bytes of its UTF-8 encoding.
    pub fn len(&self) -> (r: usize)
        requires
            self.wf(),
        ensures
            r == byte_len(self.text()),
    {
        self.byte_offset_of(self.chars.len())
    }

    /// Total display width of the line: the sum of the widths of its
    /// characters.
    pub fn width(&self) -> (r: usize)
        requires
            self.wf(),
        ensures
            r == str_width(self.text()),
    {
        self.width_of_prefix(self.chars.len())
    }

    /// The current byte offset of the cursor.
    pub fn get_byte_index(&self) -> (r: usize)
        requires
            self.wf(),
        ensures
            r == self.byte_cursor(),
    {
        self.byte_offset_of(self.cidx)
    }

    /// The character starting at the cursor, or the null sentinel when the
    /// cursor is at the end of the line.
    pub fn current_char(&self) -> (r: char)
        requires
            self.wf(),
        ensures
            self.char_cursor() < self.text().len() ==> r == self.text()[self.char_cursor()],
            self.char_cursor() >= self.text().len() ==> r == '\0',
    {
        if self.cidx < self.chars.len() {
            self.chars[self.cidx]
        } else {
            '\0'
        }
    }

    /// Display width of the character under the cursor; the end-of-line
    /// sentinel has width zero.
    pub fn current_char_width(&self) -> (r: usize)
        requires
            self.wf(),
        ensures
            self.char_cursor() < self.text().len() ==> r == char_width(
                self.text()[self.char_cursor()],
            ),
            self.char_cursor() >= self.text().len() ==> r == 0,
            r <= 3,
    {
        if self.cidx < self.chars.len() {
            char_display_width(self.chars[self.cidx])
        } else {
            0
        }
    }

    /// The line's contents as a `String`.
    pub fn get_buffer(&self) -> (r: String)
        ensures
            r@ == self.text(),
    {
        let mut out = String::new();
        let mut j: usize = 0;
        while j < self.chars.len()
            invariant
                j <= self.chars.len(),
                out@ == self.chars@.take(j as int),
            decreases self.chars.len() - j,
        {
            out.push(self.chars[j]);
            proof {
                assert(self.chars@.take(j + 1) =~= self.chars@.take(j as int).push(
                    self.chars@[j as int],
                ));
            }
            j = j + 1;
        }
        proof {
            assert(self.chars@.take(self.chars.len() as int) =~= self.chars@);
        }
        out
    }

    /// Splices `ch` into the line at the cursor and advances the cursor past
    /// it. The one bound is physical: the line's byte length must stay
    /// representable.
    pub fn insert(&mut self, ch: char)
        requires
            old(self).wf(),
            byte_len(old(self).text()) + char_bytes(ch) <= usize::MAX,
        ensures
            final(self).wf(),
            final(self).text() == old(self).text().insert(old(self).char_cursor(), ch),
            final(self).char_cursor() == old(self).char_cursor() + 1,
            final(self).byte_cursor() == old(self).byte_cursor() + char_bytes(ch),
    {
        proof {
            lemma_bytes_upto_mono(old(self).text(), 0, old(self).text().len() as int);
        }
        self.chars.insert(self.cidx, ch);
        self.cidx = self.cidx + 1;
        proof {
            lemma_sums_insert(old(self).text(), old(self).char_cursor(), ch, self.char_cursor());
            lemma_sums_insert(
                old(self).text(),
                old(self).char_cursor(),
                ch,
                self.text().len() as int,
            );
        }
    }

    /// Deletes the character immediately before the cursor (backspace
    /// semantics) and moves the cursor to that character's start; returns the
    /// deleted character. A no-op returning the null sentinel when there is
    /// no character before the cursor.
    pub fn remove(&mut self) -> (r: char)
        requires
            old(self).wf(),
        ensures
            final(self).wf(),
            old(self).char_cursor() == 0 ==> *final(self) == *old(self) && r == '\0',
            old(self).char_cursor() > 0 ==> final(self).text() == old(self).text().remove(
                old(self).char_cursor() - 1,
            ),
            old(self).char_cursor() > 0 ==> final(self).char_cursor() == old(self).char_cursor()
                - 1,
            old(self).char_cursor() > 0 ==> r == old(self).text()[old(self).char_cursor() - 1],
    {
        if self.cidx == 0 {
            '\0'
        } else {
            self.cidx = self.cidx - 1;
            let r = self.chars.remove(self.cidx);
            proof {
                lemma_sums_remove(old(self).text(), self.char_cursor(), self.text().len() as int);
            }
            r
        }
    }

    /// Advances the cursor to the next character boundary and returns the new
    /// byte offset; fails with `EndOfString` when the move reaches or is
    /// already at the end of the line, leaving the cursor at the line's byte
    /// length.
    pub fn next(&mut self) -> (r: Result<usize, LineErr>)
        requires
            old(self).wf(),
        ensures
            final(self).wf(),
            final(self).text() == old(self).text(),
            old(self).char_cursor() < old(self).text().len() ==> final(self).char_cursor() == old(
                self,
            ).char_cursor() + 1,
            old(self).char_cursor() >= old(self).text().len() ==> final(self).char_cursor() == old(
                self,
            ).char_cursor(),
            final(self).char_cursor() < final(self).text().len() ==> r == Ok::<usize, LineErr>(
                (final(self).byte_cursor()) as usize,
            ),
            final(self).char_cursor() >= final(self).text().len() ==> r == Err::<usize, LineErr>(
                LineErr::EndOfString,
            ),
    {
        let n: usize = self.chars.len();
        if self.cidx < n {
            self.cidx = self.cidx + 1;
        }
        if self.cidx < n {
            proof {
                lemma_bytes_upto_mono(self.text(), self.char_cursor(), self.text().len() as int);
            }
            Ok(self.byte_offset_of(self.cidx))
        } else {
            Err(LineErr::EndOfString)
        }
    }

    /// Retreats the cursor to the previous character boundary and returns the
    /// new byte offset; clamps at offset zero and never fails.
    pub fn prev(&mut self) -> (r: usize)
        requires
            old(self).wf(),
        ensures
            final(self).wf(),
            final(self).text() == old(self).text(),
            old(self).char_cursor() > 0 ==> final(self).char_cursor() == old(self).char_cursor()
                - 1,
            old(self).char_cursor() == 0 ==> final(self).char_cursor() == 0,
            r == final(self).byte_cursor(),
    {
        if self.cidx > 0 {
            self.cidx = self.cidx - 1;
        }
        self.byte_offset_of(self.cidx)
    }

    /// Moves the cursor to the nearest character boundary at or before the
    /// requested byte offset (clamped to the end of the line) and returns the
    /// normalized byte offset together with the display column of the text
    /// before it.
    pub fn set_byte_index(&mut self, req: usize) -> (r: (usize, usize))
        requires
            old(self).wf(),
        ensures
            final(self).wf(),
            final(self).text() == old(self).text(),
            final(self).char_cursor() == normalize_index(final(self).text(), req as int),
            r.0 == final(self).byte_cursor(),
            r.1 == width_upto(final(self).text(), final(self).char_cursor()),
    {
        let n: usize = self.chars.len();
        let mut i: usize = 0;
        let mut off: usize = 0;
        let mut done: bool = false;
        while i < n && !done
            invariant
                self.wf(),
                n == self.text().len(),
                i <= n,
                off == bytes_upto(self.text(), i as int),
                off <= req,
                done ==> byte_scan(self.text(), i as int, off as int, req as int) == i,
                normalize_index(self.text(), req as int) == byte_scan(
                    self.text(),
                    i as int,
                    off as int,
                    req as int,
                ),
            decreases n - i, (if done { 0int } else { 1int }),
        {
            let cb: usize = char_utf8_len(self.chars[i]);
            if cb > req - off {
                done = true;
            } else {
                off = off + cb;
                i = i + 1;
            }
        }
        self.cidx = i;
        let col: usize = self.width_of_prefix(i);
        (off, col)
    }

    /// Finds the cursor position for display column `cursor_x`: scans from
    /// the start of the line accumulating character widths, never entering a
    /// character whose width would overshoot the target. Returns the display
    /// column actually reached (at most `cursor_x`, and less when the line is
    /// too short or a wide character straddles the target) and its byte
    /// offset.
    pub fn cursor_and_byteindex(&self, cursor_x: usize) -> (r: (usize, usize))
        requires
            self.wf(),
        ensures
            r.0 == width_upto(self.text(), column_to_index(self.text(), cursor_x as int)),
            r.1 == bytes_upto(self.text(), column_to_index(self.text(), cursor_x as int)),
            r.0 <= cursor_x,
    {
        let n: usize = self.chars.len();
        let mut i: usize = 0;
        let mut col: usize = 0;
        let mut done: bool = false;
        while i < n && !done
            invariant
                self.wf(),
                n == self.text().len(),
                i <= n,
                col == width_upto(self.text(), i as int),
                col <= cursor_x,
                done ==> col_scan(self.text(), i as int, col as int, cursor_x as int) == i,
                column_to_index(self.text(), cursor_x as int) == col_scan(
                    self.text(),
                    i as int,
                    col as int,
                    cursor_x as int,
                ),
            decreases n - i, (if done { 0int } else { 1int }),
        {
            let cw: usize = char_display_width(self.chars[i]);
            if col == cursor_x || cw > cursor_x - col {
                done = true;
            } else {
                col = col + cw;
                i = i + 1;
            }
        }
        let b: usize = self.byte_offset_of(i);
        (col, b)
    }
}

/// Inserting a character at char index `i` and immediately removing the
/// character before the cursor restores the original line: `insert` followed
/// by `remove` is the identity on the line's text and cursor, and `remove`
/// hands back the inserted character.
pub proof fn lemma_insert_remove_inverse(s: Seq<char>, i: int, c: char)
    requires
        0 <= i <= s.len(),
    ensures
        s.insert(i, c).remove(i) == s,
        s.insert(i, c)[i] == c,
{
    assert(s.insert(i, c).remove(i) =~= s);
}

} // verus!

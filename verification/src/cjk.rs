//! Character-level metrics for CJK-aware text editing.
//!
//! A line of text is modelled as a `Seq<char>`. Two measures are attached to
//! each character: the number of bytes of its UTF-8 encoding (`char_bytes`)
//! and the number of terminal columns it occupies under an East-Asian-width
//! classification (`char_width`). Cursor positions are char indices; byte
//! offsets and display columns are prefix sums of these measures.

use vstd::prelude::*;

verus! {

/// Number of bytes in the UTF-8 encoding of `c` (1 to 4).
pub open spec fn char_bytes(c: char) -> nat {
    if (c as u32) < 0x80 {
        1
    } else if (c as u32) < 0x800 {
        2
    } else if (c as u32) < 0x10000 {
        3
    } else {
        4
    }
}

/// `char_bytes` agrees with the UTF-8 encoding model of vstd.
pub proof fn lemma_char_bytes_is_encoding_len(c: char)
    ensures
        char_bytes(c) == vstd::utf8::encode_scalar(c as u32).len(),
{
    vstd::utf8::char_is_scalar(c);
}

/// Byte offset of char index `i` in `s`: the UTF-8 length of the first `i`
/// characters.
pub open spec fn bytes_upto(s: Seq<char>, i: int) -> nat
    recommends
        0 <= i <= s.len(),
    decreases i,
{
    if i <= 0 {
        0
    } else {
        bytes_upto(s, i - 1) + char_bytes(s[i - 1])
    }
}

/// Total UTF-8 byte length of `s`.
pub open spec fn byte_len(s: Seq<char>) -> nat {
    bytes_upto(s, s.len() as int)
}

pub proof fn lemma_bytes_upto_mono(s: Seq<char>, i: int, j: int)
    requires
        0 <= i <= j,
    ensures
        bytes_upto(s, i) + (j - i) <= bytes_upto(s, j),
        bytes_upto(s, j) <= bytes_upto(s, i) + 4 * (j - i),
    decreases j - i,
{
    if i < j {
        lemma_bytes_upto_mono(s, i, j - 1);
    }
}

proof fn lemma_bytes_upto_drop_first(s: Seq<char>, i: int)
    requires
        1 <= i <= s.len(),
    ensures
        bytes_upto(s, i) == char_bytes(s[0]) + bytes_upto(s.drop_first(), i - 1),
    decreases i,
{
    if i == 1 {
        assert(bytes_upto(s, 1) == bytes_upto(s, 0) + char_bytes(s[0]));
        assert(bytes_upto(s.drop_first(), 0) == 0);
    } else {
        lemma_bytes_upto_drop_first(s, i - 1);
        assert(s.drop_first()[i - 2] == s[i - 1]);
        assert(bytes_upto(s, i) == bytes_upto(s, i - 1) + char_bytes(s[i - 1]));
        assert(bytes_upto(s.drop_first(), i - 1) == bytes_upto(s.drop_first(), i - 2)
            + char_bytes(s.drop_first()[i - 2]));
    }
}

/// `byte_len` equals the length of the UTF-8 encoding of `s` as vstd defines
/// it, and hence the value `str::len` returns for a `&str` viewing `s`.
pub proof fn lemma_byte_len_is_utf8_len(s: Seq<char>)
    ensures
        byte_len(s) == vstd::utf8::encode_utf8(s).len(),
    decreases s.len(),
{
    if s.len() == 0 {
    } else {
        lemma_byte_len_is_utf8_len(s.drop_first());
        lemma_bytes_upto_drop_first(s, s.len() as int);
        lemma_char_bytes_is_encoding_len(s[0]);
        vstd::utf8::char_is_scalar(s[0]);
    }
}

/// Number of bytes in the UTF-8 encoding of `c`, computed from its scalar
/// value.
pub fn char_utf8_len(c: char) -> (r: usize)
    ensures
        r == char_bytes(c),
        1 <= r <= 4,
{
    let u: u32 = c as u32;
    if u < 0x80 {
        1
    } else if u < 0x800 {
        2
    } else if u < 0x10000 {
        3
    } else {
        4
    }
}

/// Relies on `String::push` of std, which vstd leaves unspecified: it appends
/// the given character to the end of the string.
pub assume_specification[ String::push ](s: &mut String, ch: char)
    ensures
        final(s)@ == old(s)@.push(ch),
;

/// Display width in columns that the East-Asian-width tables assign to `c`;
/// `None` for a control character.
pub uninterp spec fn cjk_char_width(c: char) -> Option<usize>;

/// Display width of `c` as the editor counts it: a character without a
/// defined width (a control character) counts as zero columns.
pub open spec fn char_width(c: char) -> nat {
    match cjk_char_width(c) {
        Some(w) => w as nat,
        None => 0,
    }
}

/// Relies on unicode_width's `UnicodeWidthChar::width_cjk` (0.2): the result
/// depends on the character alone; control characters get `None`; the width
/// tables yield at most 3 columns, at most 1 for ASCII, and 3 only for
/// U+17D8 (Khmer sign beyyal).
#[verifier::external_body]
pub(crate) fn width_cjk_of(c: char) -> (r: Option<usize>)
    ensures
        r == cjk_char_width(c),
        (r matches Some(w) ==> w <= 3),
        (c as u32) < 0x80 ==> (r matches Some(w) ==> w <= 1),
        c != '\u{17D8}' ==> (r matches Some(w) ==> w <= 2),
{
    unicode_width::UnicodeWidthChar::width_cjk(c)
}

/// Display width of one character, with undefined widths counted as zero.
/// The width never exceeds the character's UTF-8 byte length, which keeps
/// every column count of a line below the line's byte length.
pub fn char_display_width(c: char) -> (w: usize)
    ensures
        w == char_width(c),
        w <= char_bytes(c),
        w <= 3,
{
    let u: u32 = c as u32;
    match width_cjk_of(c) {
        Some(w) => {
            proof {
                if u >= 0x800 {
                    assert(c != '\u{17D8}' ==> char_bytes(c) >= 3);
                }
            }
            w
        },
        None => 0,
    }
}

/// Display column of char index `i` in `s`: the total width of the first `i`
/// characters.
pub open spec fn width_upto(s: Seq<char>, i: int) -> nat
    recommends
        0 <= i <= s.len(),
    decreases i,
{
    if i <= 0 {
        0
    } else {
        width_upto(s, i - 1) + char_width(s[i - 1])
    }
}

/// Total display width of `s`: the sum of the individual character widths.
pub open spec fn str_width(s: Seq<char>) -> nat {
    width_upto(s, s.len() as int)
}

pub proof fn lemma_width_upto_mono(s: Seq<char>, i: int, j: int)
    requires
        0 <= i <= j,
    ensures
        width_upto(s, i) <= width_upto(s, j),
    decreases j - i,
{
    if i < j {
        lemma_width_upto_mono(s, i, j - 1);
    }
}

/// Lines that agree on their first `j` characters have the same byte offset
/// and the same display column at char index `j`.
pub proof fn lemma_sums_agree(s: Seq<char>, t: Seq<char>, j: int)
    requires
        0 <= j <= s.len(),
        j <= t.len(),
        forall|k: int| 0 <= k < j ==> s[k] == t[k],
    ensures
        bytes_upto(s, j) == bytes_upto(t, j),
        width_upto(s, j) == width_upto(t, j),
    decreases j,
{
    if j > 0 {
        lemma_sums_agree(s, t, j - 1);
    }
}

/// Effect of inserting a character at char index `i` on byte offsets and
/// display columns of positions at or past the insertion point.
pub proof fn lemma_sums_insert(s: Seq<char>, i: int, c: char, j: int)
    requires
        0 <= i <= s.len(),
        i < j <= s.len() + 1,
    ensures
        bytes_upto(s.insert(i, c), j) == bytes_upto(s, j - 1) + char_bytes(c),
        width_upto(s.insert(i, c), j) == width_upto(s, j - 1) + char_width(c),
    decreases j,
{
    let t = s.insert(i, c);
    if j == i + 1 {
        lemma_sums_agree(s, t, i);
        assert(t[i] == c);
    } else {
        lemma_sums_insert(s, i, c, j - 1);
        assert(t[j - 1] == s[j - 2]);
    }
}

/// Effect of removing the character at char index `i` on byte offsets and
/// display columns of positions at or past the removal point.
pub proof fn lemma_sums_remove(s: Seq<char>, i: int, j: int)
    requires
        0 <= i < s.len(),
        i <= j <= s.len() - 1,
    ensures
        bytes_upto(s.remove(i), j) + char_bytes(s[i]) == bytes_upto(s, j + 1),
        width_upto(s.remove(i), j) + char_width(s[i]) == width_upto(s, j + 1),
    decreases j - i,
{
    let t = s.remove(i);
    if j == i {
        lemma_sums_agree(s, t, i);
    } else {
        lemma_sums_remove(s, i, j - 1);
        assert(t[j - 1] == s[j]);
    }
}

/// The char index reached by scanning `s` from char index `i` (already at
/// column `col`) toward display column `target`: characters are consumed as
/// long as they fit entirely at or before `target`. A character whose width
/// would overshoot `target` is never entered.
pub open spec fn col_scan(s: Seq<char>, i: int, col: int, target: int) -> int
    recommends
        0 <= i <= s.len(),
    decreases s.len() - i,
{
    if i < 0 || i >= s.len() {
        i
    } else if col == target || col + char_width(s[i]) > target {
        i
    } else {
        col_scan(s, i + 1, col + char_width(s[i]), target)
    }
}

/// The char index that display column `target` maps to in `s`.
pub open spec fn column_to_index(s: Seq<char>, target: int) -> int {
    col_scan(s, 0, 0, target)
}

/// The char index reached by scanning `s` from char index `i` (already at
/// byte offset `off`) toward requested byte offset `req`: the scan stops at
/// the last character boundary at or before `req`.
pub open spec fn byte_scan(s: Seq<char>, i: int, off: int, req: int) -> int
    recommends
        0 <= i <= s.len(),
    decreases s.len() - i,
{
    if i < 0 || i >= s.len() {
        i
    } else if off + char_bytes(s[i]) > req {
        i
    } else {
        byte_scan(s, i + 1, off + char_bytes(s[i]), req)
    }
}

/// The char index of the nearest character boundary at or before byte
/// offset `req` in `s` (clamped to the end of `s`).
pub open spec fn normalize_index(s: Seq<char>, req: int) -> int {
    byte_scan(s, 0, 0, req)
}

/// A column scan started in a consistent state stays within the line, never
/// passes `target`, and stops only at the end, exactly at `target`, or right
/// before a character that would overshoot it.
pub proof fn lemma_col_scan_props(s: Seq<char>, i: int, target: int)
    requires
        0 <= i <= s.len(),
        width_upto(s, i) <= target,
    ensures
        i <= col_scan(s, i, width_upto(s, i) as int, target) <= s.len(),
        width_upto(s, col_scan(s, i, width_upto(s, i) as int, target)) <= target,
        ({
            let r = col_scan(s, i, width_upto(s, i) as int, target);
            r == s.len() || width_upto(s, r) == target || width_upto(s, r) + char_width(
                s[r],
            ) > target
        }),
    decreases s.len() - i,
{
    if i < s.len() {
        let col = width_upto(s, i) as int;
        if col == target || col + char_width(s[i]) > target {
        } else {
            assert(width_upto(s, i + 1) == col + char_width(s[i]));
            lemma_col_scan_props(s, i + 1, target);
        }
    }
}

/// Normalizing the exact byte offset of a character boundary lands back on
/// that boundary: byte offsets round-trip through `normalize_index`.
pub proof fn lemma_normalize_exact(s: Seq<char>, k: int)
    requires
        0 <= k <= s.len(),
    ensures
        normalize_index(s, bytes_upto(s, k) as int) == k,
{
    lemma_byte_scan_exact(s, 0, k);
}

proof fn lemma_byte_scan_exact(s: Seq<char>, i: int, k: int)
    requires
        0 <= i <= k <= s.len(),
    ensures
        byte_scan(s, i, bytes_upto(s, i) as int, bytes_upto(s, k) as int) == k,
    decreases k - i,
{
    let req = bytes_upto(s, k) as int;
    if i < k {
        lemma_bytes_upto_mono(s, i + 1, k);
        assert(bytes_upto(s, i + 1) == bytes_upto(s, i) + char_bytes(s[i]));
        lemma_byte_scan_exact(s, i + 1, k);
    }
}

/// Round trip between byte offsets and display columns: on a line with no
/// zero-width characters, converting the byte offset of any character
/// boundary to its display column and that column back to a byte offset
/// returns the original offset.
pub proof fn lemma_column_round_trip(s: Seq<char>, k: int)
    requires
        0 <= k <= s.len(),
        forall|j: int| 0 <= j < s.len() ==> char_width(#[trigger] s[j]) >= 1,
    ensures
        column_to_index(s, width_upto(s, k) as int) == k,
        bytes_upto(s, column_to_index(s, width_upto(s, k) as int)) == bytes_upto(s, k),
{
    lemma_col_scan_exact(s, 0, k);
}

proof fn lemma_col_scan_exact(s: Seq<char>, i: int, k: int)
    requires
        0 <= i <= k <= s.len(),
        forall|j: int| 0 <= j < s.len() ==> char_width(#[trigger] s[j]) >= 1,
    ensures
        col_scan(s, i, width_upto(s, i) as int, width_upto(s, k) as int) == k,
    decreases k - i,
{
    let target = width_upto(s, k) as int;
    if i < k {
        lemma_width_upto_strict_mono(s, i, k);
        assert(width_upto(s, i + 1) == width_upto(s, i) + char_width(s[i]));
        lemma_width_upto_mono(s, i + 1, k);
        lemma_col_scan_exact(s, i + 1, k);
    }
}

proof fn lemma_width_upto_strict_mono(s: Seq<char>, i: int, j: int)
    requires
        0 <= i < j <= s.len(),
        forall|k: int| 0 <= k < s.len() ==> char_width(#[trigger] s[k]) >= 1,
    ensures
        width_upto(s, i) < width_upto(s, j),
    decreases j - i,
{
    if i + 1 < j {
        lemma_width_upto_strict_mono(s, i + 1, j);
    }
}

/// A column scan never splits a wide character: a target column that falls
/// strictly inside the leading character's width maps to char index 0.
pub proof fn lemma_wide_char_not_split(s: Seq<char>, target: int)
    requires
        s.len() > 0,
        0 <= target < char_width(s[0]),
    ensures
        column_to_index(s, target) == 0,
{
}

} // verus!

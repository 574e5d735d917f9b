use mdedit::line_buffer::LineBuffer;
use mdedit::line_buffer::LineErr;

#[test]
fn test_new() {
    let s: LineBuffer = LineBuffer::new();
    assert_eq!(s.get_buffer(), "");
    assert_eq!(s.get_byte_index(), 0);
}

#[test]
fn line_buffer_test_from() {
    let s: LineBuffer = LineBuffer::from("안녕");
    assert_eq!(s.get_buffer(), "안녕");
    assert_eq!(s.get_byte_index(), 0);
}

#[test]
fn test_prev_next() {
    let mut s: LineBuffer = LineBuffer::from("돼지c");
    assert_eq!(s.next().unwrap(), 3);
    assert_eq!(s.next().unwrap(), 6);

    let result: i32 = match s.next() {
        Err(LineErr::EndOfString) => 1,
        _ => 2,
    };

    assert_eq!(result, 1);
    assert_eq!(s.get_byte_index(), s.len());

    assert_eq!(s.prev(), 6);
    assert_eq!(s.prev(), 3);
    assert_eq!(s.prev(), 0);
    assert_eq!(s.prev(), 0);
}

#[test]
fn test_str_width() {
    let s1: LineBuffer = LineBuffer::from("Ｈｅｌｌｏ");
    assert_eq!(s1.width(), 10);

    let s2: LineBuffer = LineBuffer::from("김치stew");
    assert_eq!(s2.width(), 8);

    let s3: LineBuffer = LineBuffer::from("Hello");
    assert_eq!(s3.width(), 5);
}

#[test]
fn test_get() {
    let mut s1: LineBuffer = LineBuffer::from("Ｈｅｌｌｏ");
    s1.next().unwrap();
    assert_eq!(s1.current_char(), 'ｅ');

    let s2: LineBuffer = LineBuffer::from("안녕");
    assert_eq!(s2.current_char_width(), 2);
}

#[test]
fn test_byte_index() {
    let mut s1: LineBuffer = LineBuffer::from("안녕하세요");
    s1.prev();
    assert_eq!(s1.current_char(), '안');

    // A requested offset need not sit on a character boundary (it can fall
    // inside a Hangul syllable's encoding): it is normalized to the nearest
    // boundary at or before it.
    assert_eq!(s1.set_byte_index(5), (3, 2));
    assert_eq!(s1.set_byte_index(10), (9, 6));
    assert_eq!(s1.current_char(), '세');

    let mut s2: LineBuffer = LineBuffer::from("Hello");
    assert_eq!(s2.set_byte_index(3), (3, 3));
}

#[test]
fn test_width_conv() {
    // Display columns map to byte offsets without ever splitting a glyph.
    let s: LineBuffer = LineBuffer::from("가b다");

    assert_eq!(s.cursor_and_byteindex(0), (0, 0));
    assert_eq!(s.cursor_and_byteindex(1), (0, 0));
    assert_eq!(s.cursor_and_byteindex(2), (2, 3));
    assert_eq!(s.cursor_and_byteindex(3), (3, 4));
    assert_eq!(s.cursor_and_byteindex(5), (5, 7));
    assert_eq!(s.cursor_and_byteindex(10), (5, 7));
}

#[test]
fn test_remove() {
    let mut s1: LineBuffer = LineBuffer::from("potato튀김");

    assert_eq!(s1.set_byte_index(12), (12, 10));
    s1.remove();
    assert_eq!(s1.get_buffer(), "potato튀");

    s1.set_byte_index(2);
    s1.remove();
    assert_eq!(s1.get_buffer(), "ptato튀");

    s1.set_byte_index(5);
    s1.remove();
    assert_eq!(s1.get_buffer(), "ptat튀");

    s1.remove();
    assert_eq!(s1.get_buffer(), "pta튀");

    let mut s2: LineBuffer = LineBuffer::new();
    s2.remove();
    assert_eq!(s2.get_buffer(), "");
}

#[test]
fn test_insert() {
    let mut s: LineBuffer = LineBuffer::new();

    s.insert('밥');
    s.insert('b');
    assert_eq!(s.get_buffer(), "밥b");

    s.set_byte_index(3);
    s.insert('줘');
    assert_eq!(s.get_buffer(), "밥줘b");
}

#[test]
fn test_width_hangul() {
    // Width is the sum of the individual character widths.
    let s: LineBuffer = LineBuffer::from("안녕");
    assert_eq!(s.width(), 4);
}

#[test]
fn test_column_byte_round_trip() {
    // For each character boundary, converting the byte offset to a display
    // column and the column back to a byte offset returns the offset.
    let boundaries: Vec<usize> = vec![0, 3, 4, 7];
    for b in boundaries {
        let mut s: LineBuffer = LineBuffer::from("가b다");
        let (norm, col) = s.set_byte_index(b);
        assert_eq!(norm, b);
        let (col_back, byte_back) = s.cursor_and_byteindex(col);
        assert_eq!(col_back, col);
        assert_eq!(byte_back, b);
    }
}

#[test]
fn test_insert_remove_inverse() {
    // insert followed by remove restores the text and the byte cursor.
    let mut s: LineBuffer = LineBuffer::from("abc");
    s.set_byte_index(1);
    s.insert('가');
    assert_eq!(s.get_buffer(), "a가bc");
    assert_eq!(s.remove(), '가');
    assert_eq!(s.get_buffer(), "abc");
    assert_eq!(s.get_byte_index(), 1);
}

#[test]
fn test_next_clamps_at_end() {
    // next() at the end of the line keeps failing without moving the cursor.
    let mut s: LineBuffer = LineBuffer::from("ab");
    assert_eq!(s.next().unwrap(), 1);
    assert!(s.next().is_err());
    assert_eq!(s.get_byte_index(), 2);
    assert!(s.next().is_err());
    assert!(s.next().is_err());
    assert_eq!(s.get_byte_index(), 2);
}

#[test]
fn test_wide_char_not_split() {
    // A target column inside the leading wide glyph maps to offset zero.
    let s: LineBuffer = LineBuffer::from("가");
    assert_eq!(s.cursor_and_byteindex(1), (0, 0));
}

#[test]
fn test_remove_at_line_start() {
    // Backspace with the cursor at offset zero deletes nothing.
    let mut s: LineBuffer = LineBuffer::from("ab");
    assert_eq!(s.remove(), '\0');
    assert_eq!(s.get_buffer(), "ab");
    assert_eq!(s.get_byte_index(), 0);
}

#[test]
fn test_current_char_at_end() {
    // The cursor at or past the end of the line sees the null sentinel,
    // which has width zero.
    let mut s: LineBuffer = LineBuffer::from("x");
    let _ = s.next();
    assert_eq!(s.current_char(), '\0');
    assert_eq!(s.current_char_width(), 0);
}

#[test]
fn test_control_char_width_zero() {
    // A character without a defined display width counts as zero columns.
    let mut s: LineBuffer = LineBuffer::new();
    s.insert('\t');
    assert_eq!(s.width(), 0);
}

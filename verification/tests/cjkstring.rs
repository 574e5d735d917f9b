use mdedit::cjkstring::CjkString;

#[test]
fn test_from() {
    let s: CjkString = CjkString::from("안녕");
    assert_eq!(s.get_buffer(), "안녕");
    assert_eq!(s.get_byte_index(), 0);
}

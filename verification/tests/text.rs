use spglib::buffer::adopt;
use spglib::error::SpglibError;
use spglib::text::{decode_text, text_end};

#[test]
fn text_ends_at_first_zero_byte() {
    assert_eq!(text_end(b"Im-3m\0\0\0\0\0\0"), Some(5));
    assert_eq!(text_end(b"\0"), Some(0));
    assert_eq!(text_end(b"ab\0cd\0"), Some(2));
    assert_eq!(text_end(b"abc"), None);
    assert_eq!(text_end(b""), None);
}

#[test]
fn terminated_text_is_decoded() {
    assert_eq!(decode_text(b"Im-3m\0\0\0\0\0\0"), Ok(String::from("Im-3m")));
    assert_eq!(decode_text(b"P 3 -2\"\0"), Ok(String::from("P 3 -2\"")));
}

#[test]
fn empty_text_is_decoded() {
    assert_eq!(decode_text(b"\0"), Ok(String::new()));
    assert_eq!(decode_text(b"\0\0\0\0\0\0"), Ok(String::new()));
}

#[test]
fn bytes_behind_the_terminator_are_ignored() {
    assert_eq!(decode_text(b"3m\0xyz"), Ok(String::from("3m")));
    assert_eq!(decode_text(&[b'a', 0, 0xff, 0xfe]), Ok(String::from("a")));
}

#[test]
fn multibyte_text_is_decoded() {
    let mut raw: Vec<u8> = Vec::from("P\u{2081}\u{e9}".as_bytes());
    raw.push(0);
    assert_eq!(decode_text(&raw), Ok(String::from("P\u{2081}\u{e9}")));
}

#[test]
fn invalid_encoding_is_unknown() {
    assert_eq!(decode_text(&[b'P', 0xff, b'm', 0]), Err(SpglibError::Unknown));
    assert_eq!(decode_text(&[0xc3, 0]), Err(SpglibError::Unknown));
    assert_eq!(decode_text(&[0xed, 0xa0, 0x80, 0]), Err(SpglibError::Unknown));
}

#[test]
fn unterminated_buffer_is_unknown() {
    assert_eq!(decode_text(b"P3m1"), Err(SpglibError::Unknown));
    assert_eq!(decode_text(b""), Err(SpglibError::Unknown));
}

#[test]
fn adopt_takes_the_counted_entries() {
    assert_eq!(adopt(vec![7, 8, 9], 3), Ok(vec![7, 8, 9]));
    assert_eq!(adopt(vec![7, 8, 9], 2), Ok(vec![7, 8]));
    assert_eq!(adopt(vec![7, 8, 9], 0), Ok(vec![]));
    assert_eq!(adopt(Vec::<i32>::new(), 0), Ok(vec![]));
}

#[test]
fn adopt_refuses_a_count_beyond_the_buffer() {
    assert_eq!(adopt(vec![7, 8, 9], 4), Err(SpglibError::ArraySizeShortage));
    assert_eq!(adopt(Vec::<i32>::new(), 1), Err(SpglibError::ArraySizeShortage));
}

#[test]
fn adopt_refuses_a_negative_count() {
    assert_eq!(adopt(vec![7, 8, 9], -1), Err(SpglibError::ArraySizeShortage));
    assert_eq!(adopt(vec![[0.0f64; 3]], i32::MIN), Err(SpglibError::ArraySizeShortage));
}

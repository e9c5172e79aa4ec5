use pg_bridge::buffer::{bytes_eq, str_eq};
use pg_bridge::Buffer;

#[test]
fn null_buffer_has_no_bytes() {
    let view = Buffer::null();
    assert!(view.is_null());
    assert_eq!(view.size(), 0);
    assert!(view.as_bytes().is_empty());
}

#[test]
fn from_bytes_views_the_same_storage() {
    let data = [1u8, 2, 3];
    let view = Buffer::from_bytes(&data);
    assert!(!view.is_null());
    assert_eq!(view.size(), 3);
    assert_eq!(view.as_bytes().as_ptr(), data.as_ptr());
    assert_eq!(view.as_bytes(), &[1u8, 2, 3]);
}

#[test]
fn from_str_views_the_bytes_of_the_text() {
    let view = Buffer::from_str("hello");
    assert_eq!(view.size(), 5);
    assert_eq!(view.as_bytes(), b"hello");
}

#[test]
fn from_str_counts_bytes_not_characters() {
    let view = Buffer::from_str("né");
    assert_eq!(view.size(), 3);
}

#[test]
fn to_str_decodes_text() {
    let view = Buffer::from_str("hello");
    assert_eq!(view.to_str(), Some("hello"));
}

#[test]
fn to_str_refuses_bytes_that_are_not_utf8() {
    let data = [0x68u8, 0xff, 0x69];
    assert_eq!(Buffer::from_bytes(&data).to_str(), None);
    let cut = [0xc3u8];
    assert_eq!(Buffer::from_bytes(&cut).to_str(), None);
}

#[test]
fn to_str_of_the_null_buffer_is_nothing() {
    assert_eq!(Buffer::null().to_str(), None);
}

#[test]
fn empty_buffer_is_not_the_null_buffer() {
    let empty = Buffer::from_bytes(&[]);
    assert!(!empty.is_null());
    assert_eq!(empty.size(), 0);
    assert_eq!(empty.to_str(), Some(""));
    assert!(Buffer::null().is_null());
}

#[test]
fn to_vec_copies_the_bytes() {
    let data = [9u8, 8, 7];
    assert_eq!(Buffer::from_bytes(&data).to_vec(), vec![9u8, 8, 7]);
    assert_eq!(Buffer::null().to_vec(), Vec::<u8>::new());
}

#[test]
fn bytes_eq_compares_length_and_content() {
    assert!(bytes_eq(b"text", b"text"));
    assert!(!bytes_eq(b"text", b"texT"));
    assert!(!bytes_eq(b"text", b"tex"));
    assert!(bytes_eq(b"", b""));
}

#[test]
fn str_eq_compares_texts() {
    assert!(str_eq("int4", "int4"));
    assert!(!str_eq("int4", "int8"));
    assert!(!str_eq("", "int4"));
}

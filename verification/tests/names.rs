use vicon_sys::name::{buffer_to_cstring, name_text, NAME_BUFFER_CAPACITY};

#[test]
fn trailing_zeros_are_stripped() {
    let mut buffer = vec![0u8; NAME_BUFFER_CAPACITY];
    buffer[..5].copy_from_slice(b"mob_6");
    assert_eq!(buffer_to_cstring(&buffer), b"mob_6".to_vec());
}

#[test]
fn embedded_zeros_are_stripped_too() {
    let buffer = vec![b'a', 0, b'b', 0, 0, b'c', 0];
    assert_eq!(buffer_to_cstring(&buffer), b"abc".to_vec());
}

#[test]
fn leading_zeros_are_stripped() {
    let buffer = vec![0, 0, b'x'];
    assert_eq!(buffer_to_cstring(&buffer), b"x".to_vec());
}

#[test]
fn an_empty_buffer_gives_an_empty_name() {
    assert_eq!(buffer_to_cstring(&Vec::new()), Vec::<u8>::new());
}

#[test]
fn a_buffer_of_zeros_gives_an_empty_name() {
    assert_eq!(buffer_to_cstring(&vec![0u8; 1024]), Vec::<u8>::new());
}

#[test]
fn a_buffer_without_zeros_is_kept_whole() {
    let buffer: Vec<u8> = (1..=255).collect();
    assert_eq!(buffer_to_cstring(&buffer), buffer);
}

#[test]
fn a_name_that_fills_the_buffer_is_kept_whole() {
    let buffer = vec![b'n'; NAME_BUFFER_CAPACITY];
    assert_eq!(buffer_to_cstring(&buffer).len(), 1024);
}

#[test]
fn stripping_twice_is_stripping_once() {
    let buffer = vec![0, 1, 0, 2, 3, 0, 0, 4];
    let once = buffer_to_cstring(&buffer);
    assert_eq!(buffer_to_cstring(&once), once);
}

#[test]
fn the_buffer_capacity_is_1024() {
    assert_eq!(NAME_BUFFER_CAPACITY, 1024);
}

#[test]
fn well_formed_bytes_are_read_as_text() {
    assert_eq!(name_text(b"mob_6".to_vec()), Some("mob_6".to_string()));
    assert_eq!(name_text("Zäpfchen".as_bytes().to_vec()), Some("Zäpfchen".to_string()));
    assert_eq!(name_text(Vec::new()), Some(String::new()));
}

#[test]
fn malformed_bytes_are_no_text() {
    assert_eq!(name_text(vec![0xff]), None);
    assert_eq!(name_text(vec![b'a', 0xc3]), None);
    assert_eq!(name_text(vec![0xed, 0xa0, 0x80]), None);
    assert_eq!(name_text(vec![0xc0, 0x80]), None);
}

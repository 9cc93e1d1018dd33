use libnspire::cstr::{c_str, c_string};
use libnspire::Error;

#[test]
fn clean_path_is_accepted_with_terminator() {
    assert_eq!(c_string("/documents/test.tns"), Ok(b"/documents/test.tns\0".to_vec()));
}

#[test]
fn empty_path_is_accepted() {
    assert_eq!(c_string(""), Ok(vec![0u8]));
}

#[test]
fn non_ascii_path_is_accepted() {
    assert_eq!(c_string("é"), Ok(vec![0xc3, 0xa9, 0]));
}

#[test]
fn embedded_nul_is_rejected_at_its_position() {
    assert_eq!(c_string("ab\0cd"), Err(Error::NulError(2)));
    assert_eq!(c_string("\0"), Err(Error::NulError(0)));
    assert_eq!(c_string("x\0y\0"), Err(Error::NulError(1)));
}

#[test]
fn native_text_stops_at_first_nul() {
    assert_eq!(c_str(b"tns\0\0\0\0\0"), "tns");
    assert_eq!(c_str(b"abc\0xyz"), "abc");
    assert_eq!(c_str(b"full"), "full");
    assert_eq!(c_str(b"\0abc"), "");
    assert_eq!(c_str(b""), "");
}

#[test]
fn native_text_replaces_invalid_utf8() {
    assert_eq!(c_str(&[b'a', 0xff, b'b', 0]), "a\u{fffd}b");
}

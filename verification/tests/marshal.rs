use ffi_strings::buffer_is_utf8;
use ffi_strings::destroy_c_string;
use ffi_strings::has_interior_nul;
use ffi_strings::is_utf8;
use ffi_strings::opt_rust_str_from_c;
use ffi_strings::opt_rust_string_from_c;
use ffi_strings::opt_rust_string_to_c;
use ffi_strings::rust_str_from_c;
use ffi_strings::rust_string_from_c;
use ffi_strings::rust_string_to_c;
use ffi_strings::ForeignBuffer;

#[test]
fn outbound_wire_bytes() {
    let buf = rust_string_to_c(String::from("héllo"));
    let bytes = buf.into_nul_terminated();
    assert_eq!(bytes, vec![0x68, 0xC3, 0xA9, 0x6C, 0x6C, 0x6F, 0x00]);
}

#[test]
fn outbound_empty_is_just_terminator() {
    let buf = rust_string_to_c(String::new());
    assert_eq!(buf.into_nul_terminated(), vec![0x00]);
}

#[test]
fn round_trip_owned() {
    for text in ["", "a", "hello world", "héllo", "\u{1F600} ok"] {
        let buf = rust_string_to_c(String::from(text));
        let back = rust_string_from_c(&buf);
        assert_eq!(back, text);
        destroy_c_string(Some(buf));
    }
}

#[test]
fn round_trip_borrowed() {
    let buf = rust_string_to_c(String::from("héllo"));
    assert_eq!(rust_str_from_c(&buf), "héllo");
    destroy_c_string(Some(buf));
}

#[test]
fn optional_outbound_absent_is_null() {
    assert!(opt_rust_string_to_c(None).is_none());
}

#[test]
fn optional_outbound_present_converts() {
    let buf = opt_rust_string_to_c(Some(String::from("hi"))).unwrap();
    assert_eq!(buf.into_nul_terminated(), vec![0x68, 0x69, 0x00]);
}

#[test]
fn destroy_null_is_noop_twice() {
    destroy_c_string(None);
    destroy_c_string(None);
}

#[test]
fn destroy_reclaims_outbound_buffer() {
    let buf = rust_string_to_c(String::from("gone"));
    destroy_c_string(Some(buf));
}

#[test]
fn optional_inbound_absent() {
    assert!(opt_rust_str_from_c(None).is_none());
    assert!(opt_rust_string_from_c(None).is_none());
}

#[test]
fn optional_inbound_present() {
    let buf = rust_string_to_c(String::from("yes"));
    assert_eq!(opt_rust_str_from_c(Some(&buf)), Some("yes"));
    assert_eq!(opt_rust_string_from_c(Some(&buf)), Some(String::from("yes")));
}

#[test]
fn lossy_copy_replaces_invalid_sequences() {
    let buf = ForeignBuffer::from_nul_terminated(vec![0xFF, 0x68, 0x00]).unwrap();
    assert!(!buffer_is_utf8(&buf));
    let owned = rust_string_from_c(&buf);
    assert_eq!(owned, "\u{FFFD}h");
}

#[test]
fn lossy_copy_replacement_position() {
    let buf = ForeignBuffer::from_nul_terminated(vec![0x68, 0xFF, 0x69, 0x00]).unwrap();
    assert_eq!(rust_string_from_c(&buf), "h\u{FFFD}i");
}

#[test]
fn borrow_of_invalid_utf8_is_empty_view() {
    let buf = ForeignBuffer::from_nul_terminated(vec![0xFF, 0x68, 0x00]).unwrap();
    assert_eq!(rust_str_from_c(&buf), "");
    assert_eq!(opt_rust_str_from_c(Some(&buf)), Some(""));
}

#[test]
fn interior_nul_guard() {
    assert!(has_interior_nul("a\0b"));
    assert!(has_interior_nul("\0"));
    assert!(!has_interior_nul(""));
    assert!(!has_interior_nul("ab"));
}

#[test]
fn nul_terminated_shape_is_checked() {
    assert!(ForeignBuffer::from_nul_terminated(vec![]).is_none());
    assert!(ForeignBuffer::from_nul_terminated(vec![0x61]).is_none());
    assert!(ForeignBuffer::from_nul_terminated(vec![0x61, 0x00, 0x62, 0x00]).is_none());
    let buf = ForeignBuffer::from_nul_terminated(vec![0x00]).unwrap();
    assert_eq!(buf.as_bytes(), &[] as &[u8]);
}

#[test]
fn inbound_content_excludes_terminator() {
    let buf = ForeignBuffer::from_nul_terminated(vec![0x68, 0x69, 0x00]).unwrap();
    assert_eq!(buf.as_bytes(), &[0x68, 0x69]);
    assert!(buffer_is_utf8(&buf));
    assert_eq!(rust_str_from_c(&buf), "hi");
}

#[test]
fn utf8_validator_accepts_all_widths() {
    assert!(is_utf8(b""));
    assert!(is_utf8(b"plain ascii"));
    assert!(is_utf8(&[0xC3, 0xA9])); // é
    assert!(is_utf8(&[0xE2, 0x82, 0xAC])); // €
    assert!(is_utf8(&[0xF0, 0x9F, 0x98, 0x80])); // U+1F600
    assert!(is_utf8(&[0xF4, 0x8F, 0xBF, 0xBF])); // U+10FFFF, the last scalar
}

#[test]
fn utf8_validator_rejects_malformed_sequences() {
    assert!(!is_utf8(&[0x80])); // stray continuation byte
    assert!(!is_utf8(&[0xFF])); // no leading-byte form
    assert!(!is_utf8(&[0xC3])); // truncated two-byte sequence
    assert!(!is_utf8(&[0xE2, 0x82])); // truncated three-byte sequence
    assert!(!is_utf8(&[0xC0, 0x80])); // overlong NUL
    assert!(!is_utf8(&[0xE0, 0x80, 0xAF])); // overlong three-byte
    assert!(!is_utf8(&[0xED, 0xA0, 0x80])); // surrogate U+D800
    assert!(!is_utf8(&[0xF4, 0x90, 0x80, 0x80])); // beyond U+10FFFF
    assert!(!is_utf8(&[0x68, 0xC3, 0x28])); // bad continuation in the middle
}

#[test]
fn utf8_validator_agrees_with_inbound_paths() {
    let good = rust_string_to_c(String::from("héllo"));
    assert!(is_utf8(good.as_bytes()));
    assert!(buffer_is_utf8(&good));
    let bad = ForeignBuffer::from_nul_terminated(vec![0xC0, 0x80, 0x00]).unwrap();
    assert!(!buffer_is_utf8(&bad));
    assert_eq!(rust_str_from_c(&bad), "");
}

#[test]
fn round_trip_through_wire_bytes() {
    let wire = rust_string_to_c(String::from("héllo")).into_nul_terminated();
    let back = ForeignBuffer::from_nul_terminated(wire).unwrap();
    assert_eq!(rust_string_from_c(&back), "héllo");
    destroy_c_string(Some(back));
}

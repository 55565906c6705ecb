use burp_rust_lib::debug::debug_blob::{DebugBlob, INVALID_UTF8_LABEL, VALID_UTF8_LABEL};
use burp_rust_lib::utf8::{decode, Utf8Error};

#[test]
fn text_is_labelled_valid() {
    assert_eq!(DebugBlob::new(b"home-net").to_text(), "VALID_UTF8: home-net");
    assert_eq!(DebugBlob::new(b"").to_text(), "VALID_UTF8: ");
    assert_eq!(DebugBlob::new("é✓".as_bytes()).to_text(), "VALID_UTF8: é✓");
    assert_eq!(VALID_UTF8_LABEL, "VALID_UTF8");
}

#[test]
fn other_bytes_are_labelled_invalid_with_their_valid_prefix() {
    assert_eq!(DebugBlob::new(b"ab\xffcd").to_text(), "INVALID_UTF8, ab");
    assert_eq!(DebugBlob::new(b"\xff").to_text(), "INVALID_UTF8, ");
    assert_eq!(DebugBlob::new(b"caf\xc3\xa9\xe2\x82").to_text(), "INVALID_UTF8, café");
    assert_eq!(INVALID_UTF8_LABEL, "INVALID_UTF8");
}

#[test]
fn decode_reports_where_text_ends() {
    assert_eq!(decode(b"plain"), Ok("plain"));
    assert_eq!(decode(b""), Ok(""));
    assert_eq!(decode(b"ab\xffcd"), Err(Utf8Error { valid_up_to: 2 }));
    assert_eq!(decode(b"\x80"), Err(Utf8Error { valid_up_to: 0 }));
    assert_eq!(decode(b"ok\xe2\x82"), Err(Utf8Error { valid_up_to: 2 }));
    assert_eq!(decode(b"\xed\xa0\x80"), Err(Utf8Error { valid_up_to: 0 }));
    assert_eq!(decode(b"\xc0\x80"), Err(Utf8Error { valid_up_to: 0 }));
    assert_eq!(decode(b"\xf4\x90\x80\x80"), Err(Utf8Error { valid_up_to: 0 }));
    assert_eq!(decode("a\u{f1}b\u{20ac}\u{1f600}".as_bytes()), Ok("a\u{f1}b\u{20ac}\u{1f600}"));
}

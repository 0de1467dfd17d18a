use katalog_lib::static_path::{FromPathError, IntoPathError, StaticPath};

#[test]
fn bytes_round_trip_within_bound() {
    let path = StaticPath::<16>::try_from_bytes(b"/tmp/a.txt").unwrap();
    assert_eq!(path.as_bytes(), b"/tmp/a.txt");
    assert_eq!(path.len(), 10);
    assert_eq!(StaticPath::<16>::capacity(), 16);
}

#[test]
fn bytes_round_trip_at_the_bound() {
    let path = StaticPath::<4>::try_from_bytes(b"/a/b").unwrap();
    assert_eq!(path.as_bytes(), b"/a/b");
    assert_eq!(path.len(), 4);
}

#[test]
fn empty_path_is_stored() {
    let path = StaticPath::<0>::try_from_bytes(b"").unwrap();
    assert_eq!(path.as_bytes(), b"");
    assert_eq!(path.len(), 0);
}

#[test]
fn too_long_reports_length_and_bound() {
    let err = StaticPath::<4>::try_from_bytes(b"/a/bc").unwrap_err();
    assert_eq!(err, FromPathError::TooLong { at_most: 4, len: 5 });
}

#[test]
fn too_long_for_zero_bound() {
    let err = StaticPath::<0>::try_from_bytes(b"x").unwrap_err();
    assert_eq!(err, FromPathError::TooLong { at_most: 0, len: 1 });
}

#[test]
fn non_utf8_bytes_are_stored_as_bytes() {
    let raw = [0x2f, 0xff, 0xfe, 0x2f];
    let path = StaticPath::<8>::try_from_bytes(&raw).unwrap();
    assert_eq!(path.as_bytes(), &raw);
}

#[test]
fn text_round_trip() {
    let path = StaticPath::<32>::try_from_text(Some("/home/ü/fil")).unwrap();
    assert_eq!(path.try_into_path().unwrap(), "/home/ü/fil");
    assert_eq!(path.as_bytes(), "/home/ü/fil".as_bytes());
}

#[test]
fn text_length_counts_encoded_bytes() {
    // two characters, four bytes
    assert!(StaticPath::<4>::try_from_text(Some("üü")).is_ok());
    let err = StaticPath::<3>::try_from_text(Some("üü")).unwrap_err();
    assert_eq!(err, FromPathError::TooLong { at_most: 3, len: 4 });
}

#[test]
fn path_without_text_form_is_not_utf8() {
    let err = StaticPath::<8>::try_from_text(None).unwrap_err();
    assert_eq!(err, FromPathError::NotUtf8);
}

#[test]
fn invalid_utf8_cannot_become_text() {
    let path = StaticPath::<8>::try_from_bytes(&[b'a', b'b', 0xff]).unwrap();
    match path.try_into_path() {
        Err(IntoPathError::NotUtf8 { err }) => assert_eq!(err.valid_up_to(), 2),
        Ok(text) => panic!("unexpected text {text:?}"),
    }
}

#[test]
fn clone_holds_the_same_bytes() {
    let path = StaticPath::<8>::try_from_bytes(b"abc").unwrap();
    let copy = path.clone();
    assert_eq!(copy.as_bytes(), path.as_bytes());
}

#[test]
fn from_path_errors_compare_and_order() {
    let a = FromPathError::TooLong { at_most: 1, len: 2 };
    let b = FromPathError::TooLong { at_most: 1, len: 3 };
    assert_ne!(a, b);
    assert!(a < b);
    assert!(b < FromPathError::NotUtf8);
}

/// The rendering that std's lossy chunking gives.
fn rendered_by_chunks(bytes: &[u8]) -> String {
    let mut text = String::from("\"");
    for chunk in bytes.utf8_chunks() {
        text.push_str(chunk.valid());
        for byte in chunk.invalid() {
            text.push_str(&format!("\\x{byte:02X}"));
        }
    }
    text.push('"');
    text
}

fn debug_of(bytes: &[u8]) -> String {
    StaticPath::<16>::try_from_bytes(bytes).unwrap().debug_string()
}

#[test]
fn debug_string_quotes_the_path() {
    assert_eq!(debug_of(b"/tmp/a.txt"), "\"/tmp/a.txt\"");
    assert_eq!(debug_of(b""), "\"\"");
    assert_eq!(debug_of("/home/ü/€".as_bytes()), "\"/home/ü/€\"");
    assert_eq!(debug_of("😀".as_bytes()), "\"😀\"");
}

#[test]
fn debug_string_escapes_bytes_that_are_not_utf8() {
    assert_eq!(debug_of(b"ab\xffcd"), "\"ab\\xFFcd\"");
    assert_eq!(debug_of(b"\x80"), "\"\\x80\"");
    assert_eq!(debug_of(b"a\xe2\x82"), "\"a\\xE2\\x82\"");
    assert_eq!(debug_of(b"\xc3(\x0a"), "\"\\xC3(\n\"");
    // an overlong form, a surrogate and a value past the last character
    assert_eq!(debug_of(b"\xe0\x80\x80"), "\"\\xE0\\x80\\x80\"");
    assert_eq!(debug_of(b"\xed\xa0\x80"), "\"\\xED\\xA0\\x80\"");
    assert_eq!(debug_of(b"\xf4\x90\x80\x80"), "\"\\xF4\\x90\\x80\\x80\"");
}

#[test]
fn debug_string_agrees_with_lossy_chunking_on_short_inputs() {
    for first in 0..=255u8 {
        assert_eq!(debug_of(&[first]), rendered_by_chunks(&[first]));
        for second in 0..=255u8 {
            let bytes = [first, second];
            assert_eq!(debug_of(&bytes), rendered_by_chunks(&bytes));
        }
    }
}

#[test]
fn debug_string_agrees_with_lossy_chunking_on_longer_inputs() {
    let interesting = [
        0x00, 0x41, 0x7f, 0x80, 0x8f, 0x90, 0x9f, 0xa0, 0xbf, 0xc0, 0xc1, 0xc2, 0xdf, 0xe0, 0xe1,
        0xec, 0xed, 0xee, 0xef, 0xf0, 0xf1, 0xf3, 0xf4, 0xf5, 0xff,
    ];
    for a in interesting {
        for b in interesting {
            for c in interesting {
                for d in interesting {
                    let bytes = [a, b, c, d, b'z'];
                    assert_eq!(debug_of(&bytes), rendered_by_chunks(&bytes));
                }
            }
        }
    }
}

use adf::fourcc::{FourCC, FourCCParseError, ParseErrorKind};

#[test]
fn fourcc_create_new() {
    let fourcc = FourCC::from_str("ABCD").unwrap();
    assert_eq!(fourcc.bytes()[0], b'A');
    assert_eq!(fourcc.bytes()[1], b'B');
    assert_eq!(fourcc.bytes()[2], b'C');
    assert_eq!(fourcc.bytes()[3], b'D');
}

#[test]
fn should_return_fourcc_as_str() {
    let fourcc = FourCC::from_str("ABCD").unwrap();
    let fourcc_str = fourcc.to_string();
    assert_eq!("ABCD", fourcc_str);
}

#[test]
fn should_return_too_short_fourcc_as_str() {
    let fourcc = FourCC::from_str("ABC");
    let fourcc_str = match fourcc {
        Ok(fourcc) => fourcc.to_string(),
        Err(err) => err.to_string(),
    };
    assert_eq!("FourCC parsing error: given FourCC too short", fourcc_str);
}

#[test]
fn should_return_too_long_fourcc_as_str() {
    let fourcc = FourCC::from_str("ABCDE");
    let fourcc_str = match fourcc {
        Ok(fourcc) => fourcc.to_string(),
        Err(err) => err.to_string(),
    };
    assert_eq!("FourCC parsing error: given FourCC too long", fourcc_str);
}

#[test]
fn too_short_source_is_refused() {
    let err = FourCC::from_str("ABC").unwrap_err();
    assert_eq!(err.kind(), ParseErrorKind::TooShort);
    assert_eq!(err.description(), "given FourCC too short");
    assert_eq!(err, FourCCParseError::new(ParseErrorKind::TooShort));
}

#[test]
fn too_long_source_is_refused() {
    let err = FourCC::from_str("ABCDE").unwrap_err();
    assert_eq!(err.kind(), ParseErrorKind::TooLong);
    assert_eq!(err.description(), "given FourCC too long");
}

#[test]
fn empty_source_is_too_short() {
    assert_eq!(FourCC::from_str("").unwrap_err().kind(), ParseErrorKind::TooShort);
    assert_eq!(FourCC::from_bytes(&[]).unwrap_err().kind(), ParseErrorKind::TooShort);
}

#[test]
fn long_source_is_not_truncated() {
    let err = FourCC::from_bytes(&[b'R', b'I', b'F', b'F', b' ']).unwrap_err();
    assert_eq!(err.kind(), ParseErrorKind::TooLong);
}

#[test]
fn length_counts_bytes_not_characters() {
    // "é" takes two bytes in UTF-8.
    let two_chars = FourCC::from_str("éé").unwrap();
    assert_eq!(two_chars.bytes(), [0xC3, 0xA9, 0xC3, 0xA9]);
    assert_eq!(two_chars.to_string(), "éé");
    assert_eq!(FourCC::from_str("ABCé").unwrap_err().kind(), ParseErrorKind::TooLong);
    assert_eq!(FourCC::from_str("é").unwrap_err().kind(), ParseErrorKind::TooShort);
}

#[test]
fn case_and_spaces_are_kept() {
    let fourcc = FourCC::from_str("fmt ").unwrap();
    assert_eq!(fourcc.bytes(), *b"fmt ");
    assert_eq!(fourcc.to_string(), "fmt ");
    assert!(fourcc != FourCC::from_str("FMT ").unwrap());
}

#[test]
fn same_source_gives_equal_identifiers() {
    let a = FourCC::from_str("data").unwrap();
    let b = FourCC::from_bytes(b"data").unwrap();
    assert!(a == b);
    assert!(a != FourCC::from_str("date").unwrap());
}

#[test]
fn non_utf8_bytes_are_kept_exactly() {
    let source = [0xFF, 0x00, b'A', 0x80];
    let fourcc = FourCC::from_bytes(&source).unwrap();
    assert_eq!(fourcc.bytes(), source);
    assert_eq!(fourcc.to_string(), "\\xFF\\x00\\x41\\x80");
    assert_eq!(fourcc.bytes(), source);
}

#[test]
fn valid_control_bytes_render_as_text() {
    let fourcc = FourCC::from_bytes(&[0, 1, 2, 0x7F]).unwrap();
    assert_eq!(fourcc.to_string(), "\u{0}\u{1}\u{2}\u{7f}");
}

#[test]
fn truncated_multibyte_character_is_escaped() {
    let fourcc = FourCC::from_bytes(&[b'A', b'B', b'C', 0xC3]).unwrap();
    assert_eq!(fourcc.to_string(), "\\x41\\x42\\x43\\xC3");
}

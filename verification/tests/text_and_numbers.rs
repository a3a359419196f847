use keylock_ui::number::{parse_usize, to_c_length, to_count, to_index};
use keylock_ui::text::{
    is_c_string_text, is_null_word, is_valid_text, null_bytes, to_java_string, to_rust_string,
};

#[test]
fn reads_ascii_text() {
    assert_eq!(to_rust_string(b"hello"), "hello");
    assert_eq!(to_rust_string(b""), "");
}

#[test]
fn reads_multibyte_text() {
    let bytes = "p\u{e4}ssw\u{f6}rd \u{20ac}".as_bytes();
    assert_eq!(to_rust_string(bytes), "p\u{e4}ssw\u{f6}rd \u{20ac}");
    assert_eq!(to_rust_string(&[0xF0, 0x9F, 0x94, 0x91]), "\u{1F511}");
}

#[test]
fn rejects_invalid_utf8() {
    assert!(is_valid_text(b"plain"));
    assert!(is_valid_text(&[0xC3, 0xA9]));
    assert!(!is_valid_text(&[0xFF]));
    assert!(!is_valid_text(&[0xC3]));
    // an overlong encoding of '/'
    assert!(!is_valid_text(&[0xC0, 0xAF]));
    // an encoded surrogate
    assert!(!is_valid_text(&[0xED, 0xA0, 0x80]));
}

#[test]
fn writes_c_bytes() {
    assert_eq!(to_java_string("abc"), b"abc".to_vec());
    assert_eq!(to_java_string("\u{e9}"), vec![0xC3, 0xA9]);
    assert_eq!(to_java_string(""), Vec::<u8>::new());
}

#[test]
fn nul_characters_cannot_travel() {
    assert!(is_c_string_text("abc"));
    assert!(is_c_string_text(""));
    assert!(!is_c_string_text("a\0b"));
    assert!(!is_c_string_text("\0"));
    assert!(is_c_string_text("\u{100}\u{1F511}"));
}

#[test]
fn text_round_trip() {
    for t in ["", "x", "Main", "p\u{e4}ss w\u{f6}rd", "\u{1F511} key", "null"] {
        assert_eq!(to_rust_string(&to_java_string(t)), t);
    }
}

#[test]
fn null_word() {
    assert_eq!(null_bytes(), b"null".to_vec());
    assert!(is_null_word(b"null"));
    assert!(!is_null_word(b"NULL"));
    assert!(!is_null_word(b"nul"));
    assert!(!is_null_word(b"nulls"));
    assert!(!is_null_word(b""));
    assert_eq!(to_rust_string(&null_bytes()), "null");
}

#[test]
fn parses_decimal_numbers() {
    assert_eq!(parse_usize(b"42"), Some(42));
    assert_eq!(parse_usize(b"0"), Some(0));
    assert_eq!(parse_usize(b"007"), Some(7));
    assert_eq!(parse_usize(b"+7"), Some(7));
}

#[test]
fn rejects_what_is_not_a_usize() {
    assert_eq!(parse_usize(b""), None);
    assert_eq!(parse_usize(b"+"), None);
    assert_eq!(parse_usize(b"-1"), None);
    assert_eq!(parse_usize(b"-0"), None);
    assert_eq!(parse_usize(b"12a"), None);
    assert_eq!(parse_usize(b" 1"), None);
    assert_eq!(parse_usize(b"++1"), None);
    assert_eq!(parse_usize(b"null"), None);
}

#[test]
fn parse_limits() {
    let max = usize::MAX.to_string();
    assert_eq!(parse_usize(max.as_bytes()), Some(usize::MAX));
    let over = format!("{}0", usize::MAX);
    assert_eq!(parse_usize(over.as_bytes()), None);
    let just_over = (usize::MAX as u128 + 1).to_string();
    assert_eq!(parse_usize(just_over.as_bytes()), None);
}

#[test]
fn parse_agrees_with_std() {
    let samples = [
        "", "+", "-", "0", "1", "+1", "-1", "9", "10", "12x", "x12", "000123", "+000", "1 2",
        "4294967295", "4294967296", "18446744073709551615", "18446744073709551616", "99999999999999999999",
    ];
    for s in samples {
        assert_eq!(parse_usize(s.as_bytes()), s.parse::<usize>().ok(), "on {:?}", s);
    }
}

#[test]
fn decimal_round_trip() {
    for n in [0usize, 1, 9, 10, 99, 100, 12345, 4294967295, usize::MAX] {
        assert_eq!(parse_usize(n.to_string().as_bytes()), Some(n));
    }
}

#[test]
fn c_integers_become_indices() {
    assert_eq!(to_index(0), 0);
    assert_eq!(to_index(5), 5);
    assert_eq!(to_index(i32::MAX), i32::MAX as usize);
    assert_eq!(to_index(-1), usize::MAX);
    assert_eq!(to_index(-1), (-1i32) as usize);
    assert_eq!(to_index(i32::MIN), i32::MIN as usize);
    assert_eq!(to_count(7), 7);
    assert_eq!(to_count(u32::MAX), u32::MAX as usize);
}

#[test]
fn lengths_become_c_counts() {
    assert_eq!(to_c_length(0), 0);
    assert_eq!(to_c_length(3), 3);
    assert_eq!(to_c_length(i32::MAX as usize), i32::MAX);
    assert_eq!(to_c_length(i32::MAX as usize + 1), (i32::MAX as usize + 1) as i32);
}

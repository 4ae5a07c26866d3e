use drop_agent::text::{
    chars_of, contains_text, decimal_text, decode_utf16, read_signed_decimal, signed_decimal_text,
    split, string_of, trim, white_space,
};

#[test]
fn white_space_is_that_of_unicode() {
    for code in 0u32..=0x10FFFF {
        if let Some(c) = char::from_u32(code) {
            assert_eq!(white_space(c), c.is_whitespace(), "{:x}", code);
        }
    }
}

#[test]
fn trims_both_ends() {
    for text in vec!["", " ", " a ", "a b", "\t\u{2003}a\u{85}\n", "\u{3000}\u{3000}", "abc"] {
        assert_eq!(trim(text), text.trim());
    }
}

#[test]
fn splits_at_every_separator() {
    for text in vec!["", "+", "a+b", "+a+", "a", "a++b", "\u{E9}+\u{1F600}"] {
        let expected: Vec<String> = text.split('+').map(|s| s.to_string()).collect();
        assert_eq!(split(text, '+'), expected);
    }
}

#[test]
fn finds_texts_in_texts() {
    for (hay, needle) in vec![
        ("fortniteclient-win64-shipping.exe", "fortnite"),
        ("my fortnite", "fortnite"),
        ("fortnit", "fortnite"),
        ("", ""),
        ("a", ""),
        ("", "a"),
        ("aab", "ab"),
        ("abab", "bb"),
    ] {
        assert_eq!(contains_text(hay, needle), hay.contains(needle), "{} {}", hay, needle);
    }
}

#[test]
fn decodes_utf16_like_std() {
    let cases: Vec<Vec<u16>> = vec![
        vec![],
        vec![0x46, 0x6F],
        vec![0xD83D, 0xDE00],
        vec![0xD83D],
        vec![0xDE00],
        vec![0xDE00, 0xD83D],
        vec![0xD83D, 0x41],
        vec![0xD83D, 0xD83D, 0xDE00],
        vec![0xD800, 0xDC00, 0xDBFF, 0xDFFF],
        vec![0, 0xFFFF, 0xE000, 0xD7FF],
    ];
    for units in cases {
        assert_eq!(decode_utf16(&units), String::from_utf16_lossy(&units), "{:x?}", units);
    }
    for unit in 0u16..=0xFFFF {
        let units = vec![unit, 0xDC12, unit];
        assert_eq!(decode_utf16(&units), String::from_utf16_lossy(&units));
    }
}

#[test]
fn writes_numbers() {
    for n in vec![0u128, 1, 9, 10, 99, 100, 1244, u64::MAX as u128, u128::MAX] {
        assert_eq!(decimal_text(n), n.to_string());
    }
    for n in vec![0i128, -1, 1, -10, 1920, -2147483648, i128::MAX, i128::MIN] {
        assert_eq!(signed_decimal_text(n), n.to_string());
        assert_eq!(read_signed_decimal(&n.to_string()), Some(n));
    }
}

#[test]
fn texts_and_characters() {
    let chars = chars_of("a\u{1F600}\u{E9}");
    assert_eq!(chars, vec!['a', '\u{1F600}', '\u{E9}']);
    assert_eq!(string_of(&chars, 1, 3), "\u{1F600}\u{E9}");
    assert_eq!(string_of(&chars, 2, 2), "");
}

#[test]
fn reads_numbers() {
    assert_eq!(read_signed_decimal("007"), Some(7));
    assert_eq!(read_signed_decimal("-0"), Some(0));
    for text in vec![
        "",
        "-",
        "+1",
        " 1",
        "1 ",
        "--1",
        "1-",
        "x",
        "1e3",
        "170141183460469231731687303715884105728",
        "-170141183460469231731687303715884105729",
        "9999999999999999999999999999999999999999999",
    ] {
        assert_eq!(read_signed_decimal(text), None, "{}", text);
    }
}

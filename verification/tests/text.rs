use xbridge::text::{
    decode_utf16_lossy, push_decimal, push_padded, same_text, starts_with, to_hex, trim,
};

fn decimal(n: u64) -> String {
    let mut out = String::from("<");
    push_decimal(&mut out, n);
    out
}

fn padded(n: u64, width: usize) -> String {
    let mut out = String::new();
    push_padded(&mut out, n, width);
    out
}

#[test]
fn decimal_has_no_leading_zeros() {
    assert_eq!(decimal(0), "<0");
    assert_eq!(decimal(9), "<9");
    assert_eq!(decimal(10), "<10");
    assert_eq!(decimal(1000203), "<1000203");
    assert_eq!(decimal(u64::MAX), "<18446744073709551615");
}

#[test]
fn padding_fills_up_to_the_width() {
    assert_eq!(padded(7, 2), "07");
    assert_eq!(padded(7, 4), "0007");
    assert_eq!(padded(12345, 4), "12345");
    assert_eq!(padded(0, 0), "0");
}

#[test]
fn hex_is_lower_case_with_two_digits() {
    assert_eq!(to_hex(&[]), "");
    assert_eq!(to_hex(&[0x00, 0x0f, 0xa0, 0xff, 0x9b]), "000fa0ff9b");
}

#[test]
fn trimming_takes_white_space_from_both_ends() {
    assert_eq!(trim(""), "");
    assert_eq!(trim(" \t\r\n"), "");
    assert_eq!(trim("  a b\n"), "a b");
    assert_eq!(trim("\u{3000}\u{85}hash\u{2028}"), "hash");
    assert_eq!(trim("\u{200b}x"), "\u{200b}x");
}

#[test]
fn trimming_is_that_of_the_standard_library() {
    for code in 0..0x11_0000u32 {
        if let Some(c) = char::from_u32(code) {
            if code < 0x3100 || code % 97 == 0 {
                let text = format!("{c}x{c}");
                assert_eq!(trim(&text), text.trim(), "U+{code:04X}");
            }
        }
    }
}

#[test]
fn trimming_twice_changes_nothing() {
    for text in [" a ", "\n\n", "a", "\u{a0}a\u{a0}"] {
        assert_eq!(trim(trim(text)), trim(text));
    }
}

#[test]
fn same_text_compares_every_character() {
    assert!(same_text("", ""));
    assert!(same_text("Zürich", "Zürich"));
    assert!(!same_text("abc", "abC"));
    assert!(!same_text("abc", "ab"));
}

#[test]
fn starts_with_looks_at_the_first_character() {
    assert!(starts_with("/run", '/'));
    assert!(!starts_with("run/", '/'));
    assert!(!starts_with("", '/'));
}

#[test]
fn utf16_gives_the_text_back() {
    for text in ["", "/run/user/1000", "日本語", "a😀b", "\u{10ffff}\u{10000}"] {
        let units: Vec<u16> = text.encode_utf16().collect();
        assert_eq!(decode_utf16_lossy(&units), text);
    }
}

#[test]
fn lonely_surrogates_are_replaced() {
    for units in [
        vec![0xD800u16],
        vec![0xDC00, 0x41],
        vec![0x41, 0xD83D],
        vec![0xD83D, 0xD83D, 0xDE00],
        vec![0xDE00, 0xD83D],
        vec![0xD83D, 0x42, 0xDE00],
    ] {
        assert_eq!(decode_utf16_lossy(&units), String::from_utf16_lossy(&units));
    }
    assert_eq!(decode_utf16_lossy(&[0xD800, 0x41]), "\u{fffd}A");
}

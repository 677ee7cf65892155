use wisplet::text::{
    char_is_whitespace, chars_end_with, chars_of, concat2, lowercase_ends_with, push_decimal, push_hex4, same_text,
    trim_end_nul, trim_whitespace,
};
use wisplet::utf16::{decode_utf16_lossy, to_wide_nul};

fn s(v: &[char]) -> String {
    v.iter().collect()
}

#[test]
fn chars_of_keeps_every_character() {
    assert_eq!(chars_of("aé😀"), vec!['a', 'é', '😀']);
    assert!(chars_of("").is_empty());
}

#[test]
fn concat_and_compare() {
    assert_eq!(concat2("Wis", "plet"), "Wisplet");
    assert!(same_text("show", "show"));
    assert!(!same_text("show", "Show"));
    assert!(!same_text("show", "shows"));
}

#[test]
fn suffix_tests() {
    let v = chars_of("apps.json");
    assert!(chars_end_with(&v, ".json"));
    assert!(chars_end_with(&v, ""));
    assert!(!chars_end_with(&v, ".jsonx"));
    assert!(!chars_end_with(&chars_of("on"), "json"));
}

#[test]
fn lowercase_suffix_ignores_case() {
    assert!(lowercase_ends_with("C:\\Program Files\\CODE.EXE", ".exe"));
    assert!(lowercase_ends_with("Game.ExE", ".exe"));
    assert!(!lowercase_ends_with("notes.exe.txt", ".exe"));
}

#[test]
fn decimal_rendering() {
    let mut out = String::from("n=");
    push_decimal(&mut out, 0);
    assert_eq!(out, "n=0");
    let mut out = String::new();
    push_decimal(&mut out, 1_700_000_000_123);
    assert_eq!(out, "1700000000123");
    let mut out = String::new();
    push_decimal(&mut out, u128::MAX);
    assert_eq!(out, u128::MAX.to_string());
    let mut out = String::new();
    push_decimal(&mut out, 10);
    assert_eq!(out, "10");
}

#[test]
fn hex_rendering_is_four_lowercase_digits() {
    let mut out = String::new();
    push_hex4(&mut out, 0x0409);
    push_hex4(&mut out, 0x04b0);
    assert_eq!(out, "040904b0");
    let mut out = String::new();
    push_hex4(&mut out, 0xFFFF);
    push_hex4(&mut out, 0);
    assert_eq!(out, "ffff0000");
}

#[test]
fn trailing_nuls_are_cut() {
    assert_eq!(s(&trim_end_nul(&chars_of("abc\0\0"))), "abc");
    assert_eq!(s(&trim_end_nul(&chars_of("\0a\0"))), "\0a");
    assert_eq!(s(&trim_end_nul(&chars_of("ab\0 "))), "ab\0 ");
    assert_eq!(s(&trim_end_nul(&chars_of("\0\0"))), "");
}

#[test]
fn whitespace_is_trimmed_like_str_trim() {
    for text in ["  a b \t\n", "x", "   ", "", "\u{3000}wide\u{2003}", " \0 "] {
        assert_eq!(s(&trim_whitespace(&chars_of(text))), text.trim());
    }
}

#[test]
fn trimming_twice_changes_nothing() {
    let once = trim_whitespace(&chars_of(" \t Visual Studio Code \n"));
    let twice = trim_whitespace(&once);
    assert_eq!(once, twice);
    assert_eq!(s(&once), "Visual Studio Code");
}

#[test]
fn wide_strings_end_in_one_nul() {
    assert_eq!(to_wide_nul("A€😀"), vec![0x41, 0x20AC, 0xD83D, 0xDE00, 0]);
    assert_eq!(to_wide_nul(""), vec![0]);
    let text = "Wisplet — crash";
    let mut expected: Vec<u16> = text.encode_utf16().collect();
    expected.push(0);
    assert_eq!(to_wide_nul(text), expected);
}

#[test]
fn lossy_decoding_replaces_unpaired_surrogates() {
    assert_eq!(decode_utf16_lossy(&[0x48, 0x69]), "Hi");
    assert_eq!(decode_utf16_lossy(&[0xD83D, 0xDE00]), "😀");
    assert_eq!(decode_utf16_lossy(&[0xD800, 0x41]), "\u{FFFD}A");
    assert_eq!(decode_utf16_lossy(&[0xDC00]), "\u{FFFD}");
    assert_eq!(decode_utf16_lossy(&[0xD800]), "\u{FFFD}");
    assert_eq!(decode_utf16_lossy(&[0xD800, 0xD800, 0xDC00]), "\u{FFFD}\u{10000}");
    let units = [0x61, 0xDBFF, 0xDFFF, 0xDFFF, 0x0];
    assert_eq!(decode_utf16_lossy(&units), String::from_utf16_lossy(&units));
}

#[test]
fn decoding_an_encoding_gives_the_text_back() {
    for text in ["", "abc", "é€😀 mixed", "\u{10FFFF}\u{E000}\u{D7FF}"] {
        let wide = to_wide_nul(text);
        let units = &wide[..wide.len() - 1];
        assert_eq!(decode_utf16_lossy(units), text);
    }
}

#[test]
fn whitespace_matches_std_for_every_character() {
    for v in 0u32..=0x10FFFF {
        if let Some(c) = char::from_u32(v) {
            assert_eq!(char_is_whitespace(c), c.is_whitespace(), "U+{v:04X}");
        }
    }
}

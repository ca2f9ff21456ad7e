use sidereal::wstring::ToUTF16String;

#[test]
fn ascii_text_gets_a_nul_terminator() {
    let s = "abc".to_owned();
    assert_eq!(s.to_utf16(), vec![97u16, 98, 99, 0]);
}

#[test]
fn empty_text_is_just_the_terminator() {
    let s = String::new();
    assert_eq!(s.to_utf16(), vec![0u16]);
}

#[test]
fn basic_multilingual_plane_chars_are_single_units() {
    let s = "é€".to_owned();
    assert_eq!(s.to_utf16(), vec![0x00E9u16, 0x20AC, 0]);
}

#[test]
fn supplementary_chars_become_surrogate_pairs() {
    // U+1D11E (musical symbol G clef) encodes as the pair D834 DD1E.
    let s = "\u{1D11E}".to_owned();
    assert_eq!(s.to_utf16(), vec![0xD834u16, 0xDD1E, 0]);
}

#[test]
fn matches_the_platform_encoding() {
    let s = "window title ñ — 🜚".to_owned();
    let mut expected: Vec<u16> = s.encode_utf16().collect();
    expected.push(0);
    assert_eq!(s.to_utf16(), expected);
}

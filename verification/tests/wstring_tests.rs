use oleaf_hook::cxx::wstring::{WStr, WString, WIDE_SSO_LEN};
use oleaf_hook::HookError;

fn utf16(s: &str) -> Vec<u16> {
    s.encode_utf16().collect()
}

#[test]
fn short_wide_string_stored_inline() {
    let s = WString::new(utf16("hello")).unwrap();
    assert!(s.stored_inline());
    assert_eq!(s.len(), 5);
    assert_eq!(s.decode_utf16(), "hello");
}

#[test]
fn long_wide_string_stored_on_heap() {
    let text = "twenty units of text";
    let units = utf16(text);
    assert_eq!(units.len(), 20);
    let s = WString::new(units).unwrap();
    assert!(!s.stored_inline());
    assert_eq!(s.decode_utf16(), text);
}

#[test]
fn wide_threshold_boundary_is_exclusive() {
    let s = WString::new(vec![b'a' as u16; WIDE_SSO_LEN - 1]).unwrap();
    assert!(s.stored_inline());
    let s = WString::new(vec![b'a' as u16; WIDE_SSO_LEN]).unwrap();
    assert!(!s.stored_inline());
}

#[test]
fn wide_embedded_terminator_rejected() {
    let r = WString::new(vec![0x48, 0x0000, 0x49]);
    assert!(matches!(r, Err(HookError::InvalidStringData)));
}

#[test]
fn unpaired_high_surrogate_becomes_replacement() {
    let s = WStr::from_foreign(vec![0x0048, 0xD800, 0x0049]);
    assert_eq!(s.decode_utf16(), "H\u{FFFD}I");
}

#[test]
fn lone_low_surrogate_becomes_replacement() {
    let s = WStr::from_foreign(vec![0xDC00]);
    assert_eq!(s.decode_utf16(), "\u{FFFD}");
}

#[test]
fn valid_surrogate_pair_decodes_to_scalar() {
    // U+1F600 is encoded as the surrogate pair D83D DE00.
    let s = WStr::from_foreign(vec![0xD83D, 0xDE00]);
    assert_eq!(s.decode_utf16(), "\u{1F600}");
}

#[test]
fn high_surrogate_at_end_becomes_replacement() {
    let s = WStr::from_foreign(vec![0x0041, 0xD83D]);
    assert_eq!(s.decode_utf16(), "A\u{FFFD}");
}

#[test]
fn two_high_surrogates_each_replaced() {
    let s = WStr::from_foreign(vec![0xD800, 0xD800, 0x0042]);
    assert_eq!(s.decode_utf16(), "\u{FFFD}\u{FFFD}B");
}

#[test]
fn non_surrogate_units_survive_around_invalid_one() {
    let s = WStr::from_foreign(vec![0x20AC, 0xDC01, 0x00E9]);
    assert_eq!(s.decode_utf16(), "\u{20AC}\u{FFFD}\u{00E9}");
}

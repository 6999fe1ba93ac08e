use oleaf_hook::cxx::string::{NativeString, Str, SSO_LEN};
use oleaf_hook::HookError;

#[test]
fn short_string_stored_inline() {
    let s = NativeString::new(b"hello".to_vec()).unwrap();
    assert!(s.stored_inline());
    assert_eq!(s.len(), 5);
    assert_eq!(s.bytes().as_slice(), b"hello");
}

#[test]
fn long_string_stored_on_heap() {
    let data = b"twenty bytes of data".to_vec();
    assert_eq!(data.len(), 20);
    let s = NativeString::new(data.clone()).unwrap();
    assert!(!s.stored_inline());
    assert_eq!(s.len(), 20);
    assert_eq!(s.bytes(), &data);
}

#[test]
fn threshold_boundary_is_exclusive() {
    let fifteen = vec![b'a'; SSO_LEN - 1];
    let s = NativeString::new(fifteen.clone()).unwrap();
    assert!(s.stored_inline());
    assert_eq!(s.bytes(), &fifteen);

    let sixteen = vec![b'a'; SSO_LEN];
    let s = NativeString::new(sixteen.clone()).unwrap();
    assert!(!s.stored_inline());
    assert_eq!(s.bytes(), &sixteen);
}

#[test]
fn empty_string_is_inline() {
    let s = NativeString::new(Vec::new()).unwrap();
    assert!(s.stored_inline());
    assert_eq!(s.len(), 0);
    assert!(s.bytes().is_empty());
}

#[test]
fn embedded_terminator_rejected() {
    let r = NativeString::new(b"ab\0cd".to_vec());
    assert!(matches!(r, Err(HookError::InvalidStringData)));
}

#[test]
fn leading_terminator_rejected() {
    let r = NativeString::new(b"\0rest".to_vec());
    assert!(matches!(r, Err(HookError::InvalidStringData)));
}

#[test]
fn borrowed_str_keeps_foreign_bytes() {
    let s = Str::from_foreign(b"foreign data".to_vec());
    assert_eq!(s.bytes().as_slice(), b"foreign data");
}

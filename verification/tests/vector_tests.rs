use oleaf_hook::cxx::vector::Vector;
use oleaf_hook::HookError;

#[test]
fn len_and_capacity_from_addresses() {
    let v = Vector::from_parts(0x1000, 4, vec![1u32, 2, 3], 2).unwrap();
    assert_eq!(v.len(), 3);
    assert_eq!(v.capacity(), 5);
    assert!(!v.is_empty());
    assert!(v.len() <= v.capacity());
    assert_eq!(v.as_slice(), &[1, 2, 3]);
    assert_eq!(v.as_ptr(), 0x1000);
}

#[test]
fn coinciding_addresses_mean_zero_len_and_capacity() {
    let v = Vector::<u64>::from_parts(0x2000, 8, Vec::new(), 0).unwrap();
    assert_eq!(v.len(), 0);
    assert_eq!(v.capacity(), 0);
    assert!(v.is_empty());
    assert_eq!(v.as_slice(), &[] as &[u64]);
}

#[test]
fn null_view_is_empty() {
    let v = Vector::<u8>::from_parts(0, 1, Vec::new(), 0).unwrap();
    assert_eq!(v.len(), 0);
    assert_eq!(v.capacity(), 0);
    assert_eq!(v.as_ptr(), 0);
}

#[test]
fn zero_sized_element_is_a_layout_violation() {
    let r = Vector::<()>::from_parts(0x1000, 0, Vec::new(), 0);
    assert!(matches!(r, Err(HookError::LayoutViolation)));
}

#[test]
fn oversized_element_is_a_layout_violation() {
    let r = Vector::<u8>::from_parts(0, usize::MAX, Vec::new(), 0);
    assert!(matches!(r, Err(HookError::LayoutViolation)));
}

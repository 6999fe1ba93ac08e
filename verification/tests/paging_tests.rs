use oleaf_hook::paging::{with_writable_region, PageRegion, PAGE_EXECUTE_READWRITE};
use oleaf_hook::HookError;

#[test]
fn guard_restores_the_captured_protection() {
    let mut region = PageRegion::new(0x20);
    with_writable_region(&mut region, true, true).unwrap();
    assert_eq!(region.protection(), 0x20);
}

#[test]
fn failed_first_change_leaves_the_region_untouched() {
    let mut region = PageRegion::new(0x02);
    let r = with_writable_region(&mut region, false, true);
    assert!(matches!(r, Err(HookError::ProtectionChangeError)));
    assert_eq!(region.protection(), 0x02);
}

#[test]
fn failed_restore_surfaces_but_leaves_the_region_writable() {
    let mut region = PageRegion::new(0x02);
    let r = with_writable_region(&mut region, true, false);
    assert!(matches!(r, Err(HookError::ProtectionChangeError)));
    assert_eq!(region.protection(), PAGE_EXECUTE_READWRITE);
}

use oleaf_hook::module::Module;
use oleaf_hook::HookError;

#[test]
fn signature_with_wildcard_found_at_base_offset() {
    let memory = [0x00, 0xAB, 0x01, 0x32, 0x77, 0x48, 0x00];
    let module = Module::from_image(0x0040_0000, &memory);
    let addr = module.find_signature("AB 01 32 ?? 48").unwrap();
    assert_eq!(addr, 0x0040_0001);
}

#[test]
fn first_of_several_matches_wins() {
    let memory = [0x90, 0xCC, 0x90, 0xCC, 0x90];
    let module = Module::from_image(0x1000, &memory);
    let addr = module.find_signature("90 CC").unwrap();
    assert_eq!(addr, 0x1000);
}

#[test]
fn wildcard_only_pattern_matches_immediately() {
    let memory = [0x12, 0x34];
    let module = Module::from_image(0x2000, &memory);
    assert_eq!(module.find_signature("??").unwrap(), 0x2000);
}

#[test]
fn lowercase_hex_digits_are_accepted() {
    let memory = [0xAB, 0xCD];
    let module = Module::from_image(0, &memory);
    assert_eq!(module.find_signature("ab cd").unwrap(), 0);
}

#[test]
fn missing_signature_is_reported() {
    let memory = [0x11, 0x22, 0x33];
    let module = Module::from_image(0x3000, &memory);
    let r = module.find_signature("44 55");
    assert!(matches!(r, Err(HookError::SignatureNotFound)));
}

#[test]
fn pattern_longer_than_image_is_not_found() {
    let memory = [0xAA];
    let module = Module::from_image(0x3000, &memory);
    let r = module.find_signature("AA BB CC");
    assert!(matches!(r, Err(HookError::SignatureNotFound)));
}

#[test]
fn non_hex_token_acts_as_wildcard() {
    let memory = [0x10, 0x20, 0x30];
    let module = Module::from_image(0, &memory);
    assert_eq!(module.find_signature("10 zz 30").unwrap(), 0);
}

#[test]
fn base_and_size_report_the_mapped_image() {
    let memory = [0u8; 64];
    let module = Module::from_image(0x0014_0000, &memory);
    assert_eq!(module.base(), 0x0014_0000);
    assert_eq!(module.size(), 64);
}

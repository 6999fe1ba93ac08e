use oleaf_hook::event::{Detour, DetourState, Registry, ResolverSlot};
use oleaf_hook::HookError;

#[test]
fn detour_walks_its_lifecycle_in_order() {
    let mut d = Detour::new();
    assert_eq!(d.state(), DetourState::Uninstalled);
    assert!(d.original().is_none());

    d.initialize(0x1234).unwrap();
    assert_eq!(d.state(), DetourState::Initialized);
    assert_eq!(d.original(), Some(0x1234));

    d.enable().unwrap();
    assert_eq!(d.state(), DetourState::Enabled);
    assert!(d.is_enabled());

    d.disable();
    assert_eq!(d.state(), DetourState::Disabled);
    assert_eq!(d.original(), Some(0x1234));
}

#[test]
fn forwarding_needs_a_retained_original() {
    let mut d = Detour::new();
    assert!(matches!(d.forward_target(), Err(HookError::HookInstallError)));
    d.install(Some(0xBEEF), true).unwrap();
    assert_eq!(d.forward_target().unwrap(), 0xBEEF);
}

#[test]
fn enable_requires_initialized() {
    let mut d = Detour::new();
    assert!(matches!(d.enable(), Err(HookError::HookInstallError)));
    assert_eq!(d.state(), DetourState::Uninstalled);
}

#[test]
fn initialize_twice_is_refused() {
    let mut d = Detour::new();
    d.initialize(0x1000).unwrap();
    assert!(matches!(d.initialize(0x2000), Err(HookError::HookInstallError)));
    assert_eq!(d.original(), Some(0x1000));
}

#[test]
fn disable_from_fresh_state_is_a_noop() {
    let mut d = Detour::new();
    d.disable();
    assert_eq!(d.state(), DetourState::Uninstalled);
}

#[test]
fn installing_twice_enables_exactly_once() {
    let mut d = Detour::new();
    d.install(Some(0x1000), true).unwrap();
    assert_eq!(d.state(), DetourState::Enabled);
    assert_eq!(d.original(), Some(0x1000));

    // The second run is a no-op: no error, no re-initialization.
    d.install(Some(0x2000), true).unwrap();
    assert_eq!(d.state(), DetourState::Enabled);
    assert_eq!(d.original(), Some(0x1000));
}

#[test]
fn unresolved_event_defers_installation_silently() {
    let mut d = Detour::new();
    d.install(None, true).unwrap();
    assert_eq!(d.state(), DetourState::Uninstalled);
}

#[test]
fn failed_protection_change_aborts_installation() {
    let mut d = Detour::new();
    let r = d.install(Some(0x1000), false);
    assert!(matches!(r, Err(HookError::ProtectionChangeError)));
    assert_eq!(d.state(), DetourState::Uninstalled);
}

#[test]
fn disabled_detour_cannot_be_installed_again() {
    let mut d = Detour::new();
    d.install(Some(0x1000), true).unwrap();
    d.disable();
    let r = d.install(Some(0x1000), true);
    assert!(matches!(r, Err(HookError::HookInstallError)));
    assert_eq!(d.state(), DetourState::Disabled);
}

#[test]
fn registry_installs_every_resolved_entry() {
    let mut reg = Registry::new();
    reg.register(String::from("HandleQuestDialog"), 0x5000, false).unwrap();
    reg.register(String::from("HandleActorDialog"), 0x6000, false).unwrap();
    assert_eq!(reg.len(), 2);

    let resolutions = vec![Some(0x1111), None];
    reg.install_all(&resolutions, true);
    assert_eq!(reg.state_at(0), DetourState::Enabled);
    assert_eq!(reg.original_at(0), Some(0x1111));
    assert_eq!(reg.state_at(1), DetourState::Uninstalled);

    // A later walk resolves the second event and leaves the first alone.
    let resolutions = vec![Some(0x9999), Some(0x2222)];
    reg.install_all(&resolutions, true);
    assert_eq!(reg.state_at(0), DetourState::Enabled);
    assert_eq!(reg.original_at(0), Some(0x1111));
    assert_eq!(reg.state_at(1), DetourState::Enabled);
    assert_eq!(reg.original_at(1), Some(0x2222));
}

#[test]
fn duplicate_event_name_is_refused() {
    let mut reg = Registry::new();
    reg.register(String::from("HandleQuestDialog"), 0x5000, false).unwrap();
    let r = reg.register(String::from("HandleQuestDialog"), 0x7000, false);
    assert!(matches!(r, Err(HookError::HookInstallError)));
    assert_eq!(reg.len(), 1);
}

#[test]
fn suspending_handler_is_refused_at_registration() {
    let mut reg = Registry::new();
    let r = reg.register(String::from("HandleQuestDialog"), 0x5000, true);
    assert!(matches!(r, Err(HookError::HookInstallError)));
    assert_eq!(reg.len(), 0);
}

#[test]
fn unhook_all_with_no_handlers_is_a_noop() {
    let mut reg = Registry::new();
    reg.unhook_all();
    assert_eq!(reg.len(), 0);
}

#[test]
fn unhook_all_disables_enabled_detours() {
    let mut reg = Registry::new();
    reg.register(String::from("HandleQuestDialog"), 0x5000, false).unwrap();
    reg.register(String::from("HandleActorDialog"), 0x6000, false).unwrap();
    let resolutions = vec![Some(0x1111), None];
    reg.install_all(&resolutions, true);

    reg.unhook_all();
    assert_eq!(reg.state_at(0), DetourState::Disabled);
    assert_eq!(reg.state_at(1), DetourState::Uninstalled);
    assert_eq!(reg.name_at(0), "HandleQuestDialog");
}

#[test]
fn resolver_installs_exactly_once() {
    let mut slot = ResolverSlot::new();
    slot.install().unwrap();
    assert!(matches!(slot.install(), Err(HookError::ResolverAlreadySet)));
}

#[test]
fn lookup_before_resolver_setup_is_refused() {
    let slot = ResolverSlot::new();
    let r = slot.find_event_by_name(0x1234);
    assert!(matches!(r, Err(HookError::ResolverNotReady)));
}

#[test]
fn lookup_distinguishes_null_and_found_handlers() {
    let mut slot = ResolverSlot::new();
    slot.install().unwrap();
    assert_eq!(slot.find_event_by_name(0).unwrap(), None);
    assert_eq!(slot.find_event_by_name(0x4567).unwrap(), Some(0x4567));
}

use murmur::hotkey::{HotkeyConfig, HotkeyManager};

#[test]
fn default_config_is_cmd_shift_v_enabled() {
    let config = HotkeyConfig::default();
    assert_eq!(config.accelerator, "Cmd+Shift+V");
    assert!(config.enabled);
}

#[test]
fn new_manager_has_no_hotkey() {
    assert_eq!(HotkeyManager::new().get_current_hotkey(), None);
    assert_eq!(HotkeyManager::default().get_current_hotkey(), None);
}

#[test]
fn registered_hotkey_is_reported() {
    let mut manager = HotkeyManager::new();
    assert_eq!(manager.register_hotkey("Cmd+Shift+V"), Ok(()));
    assert_eq!(manager.get_current_hotkey(), Some("Cmd+Shift+V"));
}

#[test]
fn registering_again_replaces_the_hotkey() {
    let mut manager = HotkeyManager::new();
    manager.register_hotkey("Cmd+Shift+V").unwrap();
    manager.register_hotkey("Command+Shift+D").unwrap();
    assert_eq!(manager.get_current_hotkey(), Some("Command+Shift+D"));
}

#[test]
fn unregistering_forgets_the_hotkey() {
    let mut manager = HotkeyManager::new();
    manager.register_hotkey("Cmd+Shift+V").unwrap();
    assert_eq!(manager.unregister_hotkey(), Ok(()));
    assert_eq!(manager.get_current_hotkey(), None);
}

use win_glide::config::{key_display_name, HotkeyConfig, MOD_ALT, MOD_CONTROL, MOD_SHIFT, MOD_WIN};

#[test]
fn test_hotkey_config_display() {
    let hk = HotkeyConfig {
        modifiers: 0x0002 | 0x0001, // MOD_CONTROL | MOD_ALT
        vk: 0x79,                   // F10
    };
    assert_eq!(hk.to_string(), "Ctrl+Alt+F10");

    let hk_center = HotkeyConfig {
        modifiers: 0x0008 | 0x0001, // MOD_WIN | MOD_ALT
        vk: 0x43,                   // C
    };
    assert_eq!(hk_center.to_string(), "Win+Alt+C");
}

#[test]
fn hotkey_modifiers_are_listed_win_ctrl_shift_alt() {
    let hk = HotkeyConfig { modifiers: MOD_ALT | MOD_SHIFT | MOD_CONTROL | MOD_WIN, vk: 0x41 };
    assert_eq!(hk.to_string(), "Win+Ctrl+Shift+Alt+A");
}

#[test]
fn hotkey_without_modifiers_is_just_the_key() {
    let hk = HotkeyConfig { modifiers: 0, vk: 0x7B };
    assert_eq!(hk.to_string(), "F12");
}

#[test]
fn hotkey_ignores_unknown_modifier_bits() {
    let hk = HotkeyConfig { modifiers: 0x4000 | MOD_SHIFT, vk: 0x30 };
    assert_eq!(hk.to_string(), "Shift+0");
}

#[test]
fn key_names_of_named_keys() {
    assert_eq!(key_display_name(0x70), "F1");
    assert_eq!(key_display_name(0x75), "F6");
    assert_eq!(key_display_name(0x25), "Left");
    assert_eq!(key_display_name(0x26), "Up");
    assert_eq!(key_display_name(0x27), "Right");
    assert_eq!(key_display_name(0x28), "Down");
    assert_eq!(key_display_name(0x08), "Backspace");
    assert_eq!(key_display_name(0x09), "Tab");
    assert_eq!(key_display_name(0x0D), "Enter");
    assert_eq!(key_display_name(0x1B), "Escape");
    assert_eq!(key_display_name(0x20), "Space");
    assert_eq!(key_display_name(0x2E), "Delete");
}

#[test]
fn key_names_of_letters_and_digits() {
    assert_eq!(key_display_name(0x39), "9");
    assert_eq!(key_display_name(0x5A), "Z");
    assert_eq!(key_display_name(0x4B), "K");
}

#[test]
fn key_names_fall_back_to_upper_hex() {
    assert_eq!(key_display_name(0x00), "0x0");
    assert_eq!(key_display_name(0x5B), "0x5B");
    assert_eq!(key_display_name(0xBA), "0xBA");
    assert_eq!(key_display_name(0x1F), "0x1F");
    assert_eq!(key_display_name(0xFFFF_FFFF), "0xFFFFFFFF");
    assert_eq!(key_display_name(0x100), "0x100");
}

//! Keyboard resolution: modifier masks, the key map, and keystroke plans.

use hopp_core::keyboard::{
    display_mod, extend_modifier, get_modifiers, map_modifier_to_virtual_key, should_override_utf,
    KeyMap, KeyMapEntry, KeyModifier, KeyboardController, KeyboardLayoutTrait, KeystrokeData,
};

/// A fixed test layout: a handful of printable keys under the probed
/// modifier masks, and a small layout-independent table. The two view
/// functions are ghost-only: they erase to stubs the runtime never
/// calls.
struct TestLayout {
    changed: bool,
}

impl KeyboardLayoutTrait for TestLayout {
    fn spec_translate(&self, _keycode: u16, _modifier: u32) -> Option<vstd::seq::Seq<char>> {
        unreachable!()
    }

    fn spec_independent_codes(&self) -> vstd::seq::Seq<(vstd::seq::Seq<char>, u16)> {
        unreachable!()
    }

    fn key_translate(&self, keycode: u16, modifier: u32) -> Option<String> {
        match (keycode, modifier) {
            (4, 0) => Some("a".to_string()),
            (4, 0x200) => Some("A".to_string()),
            (5, 0) => Some("s".to_string()),
            (5, 0x200) => Some("S".to_string()),
            (6, 0x800) => Some("ß".to_string()),
            _ => None,
        }
    }

    fn has_changed(&mut self) -> bool {
        let changed = self.changed;
        self.changed = false;
        changed
    }

    fn get_independent_codes(&self) -> Vec<(String, u16)> {
        vec![
            ("Enter".to_string(), 36),
            ("Tab".to_string(), 48),
            ("Backspace".to_string(), 51),
            ("Escape".to_string(), 53),
        ]
    }
}

#[test]
fn test_keyboard_simulator() {
    let _ = KeyboardController::new(TestLayout { changed: false });
}

#[test]
fn modifier_masks_compose() {
    let mut m = 0u32;
    m = extend_modifier(m, KeyModifier::Shift);
    m = extend_modifier(m, KeyModifier::Cmd);
    assert_eq!(m, 0x300);
    assert_eq!(display_mod(0x300), "Cmd Shift ");
    assert_eq!(display_mod(0), "");
    assert_eq!(display_mod(0x1000), "Ctrl ");
    let named = get_modifiers(0x300);
    assert_eq!(named, vec![KeyModifier::Cmd, KeyModifier::Shift]);
}

#[test]
fn windows_virtual_keys_match_the_modifiers() {
    assert_eq!(map_modifier_to_virtual_key(KeyModifier::Cmd), 0x5B);
    assert_eq!(map_modifier_to_virtual_key(KeyModifier::Shift), 0x10);
    assert_eq!(map_modifier_to_virtual_key(KeyModifier::Ctrl), 0x11);
    assert_eq!(map_modifier_to_virtual_key(KeyModifier::Alt), 0x12);
    assert_eq!(map_modifier_to_virtual_key(KeyModifier::RightShift), 0xA1);
}

#[test]
fn independent_keys_resolve_under_any_modifier_mask() {
    let layout = TestLayout { changed: false };
    let map = KeyMap::new(&layout);
    // A layout-independent key ignores the modifier mask entirely.
    for mask in [0u32, 0x200, 0x1000, 0x300, 0xA00] {
        assert_eq!(map.get_code("Enter", mask), Some(36));
        assert_eq!(map.get_code("Tab", mask), Some(48));
    }
}

#[test]
fn layout_keys_resolve_by_key_and_mask() {
    let layout = TestLayout { changed: false };
    let map = KeyMap::new(&layout);
    assert_eq!(map.get_code("a", 0), Some(4));
    assert_eq!(map.get_code("A", 0x200), Some(4));
    assert_eq!(map.get_code("S", 0x200), Some(5));
    assert_eq!(map.get_code("ß", 0x800), Some(6));
    assert_eq!(map.get_code("q", 0), None);
    // Control is cleared before the search: Ctrl+a finds the plain entry.
    assert_eq!(map.get_code("a", 0x1000), Some(4));
    assert_eq!(map.get_code("A", 0x1200), Some(4));
}

#[test]
fn key_map_lookup_prefers_the_independent_table() {
    let map = KeyMap {
        entries: vec![KeyMapEntry { keycode: 99, key: "Enter".to_string(), modifiers: 0 }],
        independent_codes: vec![("Enter".to_string(), 36)],
    };
    assert_eq!(map.get_code("Enter", 0), Some(36));
}

#[test]
fn keystroke_across_layouts_carries_the_literal_key() {
    // A key the local layout cannot produce still types the remote
    // user's exact character: the plan carries "ß" as the payload.
    let mut controller = KeyboardController::new(TestLayout { changed: false });
    let plan = controller
        .simulate_keystrokes(KeystrokeData {
            key: "ß".to_string(),
            meta: false,
            shift: false,
            ctrl: false,
            alt: false,
            down: true,
        })
        .expect("enabled controller yields a plan");
    assert_eq!(plan.keycode, 0, "no mapping for the bare key falls back to 0");
    assert_eq!(plan.modifiers, 0);
    assert!(plan.down);
    assert_eq!(plan.utf_override.as_deref(), Some("ß"));
    // The UTF-16 payload the platform event gets is the exact character.
    let units: Vec<u16> = plan.utf_override.as_deref().unwrap().encode_utf16().collect();
    assert_eq!(units, vec![0x00DF]);
}

#[test]
fn utf_override_skips_special_keys_and_shortcuts() {
    let enter = KeystrokeData {
        key: "Enter".to_string(),
        meta: false,
        shift: false,
        ctrl: false,
        alt: false,
        down: true,
    };
    assert!(!should_override_utf(&enter));
    let shortcut = KeystrokeData { key: "c".to_string(), ctrl: true, ..enter.clone() };
    assert!(!should_override_utf(&shortcut));
    let release = KeystrokeData { key: "c".to_string(), down: false, ..enter.clone() };
    assert!(!should_override_utf(&release));
    let plain = KeystrokeData { key: "c".to_string(), ..enter.clone() };
    assert!(should_override_utf(&plain));
}

#[test]
fn disabled_controller_ignores_keystrokes() {
    let mut controller = KeyboardController::new(TestLayout { changed: false });
    controller.set_enabled(false);
    let plan = controller.simulate_keystrokes(KeystrokeData {
        key: "a".to_string(),
        meta: false,
        shift: false,
        ctrl: false,
        alt: false,
        down: true,
    });
    assert!(plan.is_none());
}

#[test]
fn layout_change_rebuilds_the_map() {
    let mut controller = KeyboardController::new(TestLayout { changed: true });
    let plan = controller
        .simulate_keystrokes(KeystrokeData {
            key: "a".to_string(),
            meta: false,
            shift: false,
            ctrl: false,
            alt: false,
            down: true,
        })
        .unwrap();
    assert_eq!(plan.keycode, 4);
    assert_eq!(plan.utf_override.as_deref(), Some("a"));
}

use drop_agent::hotkey::{
    check_capture_hotkey, check_modifiers, decide_capture, held, is_key_down, update_keybinds,
    HotkeyOutcome, HotkeyState, KeyStates, KeybindConfig, CAPTURE_COOLDOWN_MS, POLL_INTERVAL_MS,
};

const DOWN: i16 = -32768;

fn no_keys() -> KeyStates {
    KeyStates { key: 0, control: 0, menu: 0, shift: 0, left_win: 0, right_win: 0 }
}

#[test]
fn top_bit_means_held() {
    assert!(held(DOWN));
    assert!(held(-1));
    assert!(!held(0));
    assert!(!held(1));
    assert!(!held(0x7FFF));
}

#[test]
fn modifiers_are_read_off() {
    assert_eq!(check_modifiers(&no_keys()), 0);
    assert_eq!(check_modifiers(&KeyStates { control: DOWN, ..no_keys() }), 1);
    assert_eq!(check_modifiers(&KeyStates { menu: DOWN, ..no_keys() }), 2);
    assert_eq!(check_modifiers(&KeyStates { shift: DOWN, ..no_keys() }), 4);
    assert_eq!(check_modifiers(&KeyStates { left_win: DOWN, ..no_keys() }), 8);
    assert_eq!(check_modifiers(&KeyStates { right_win: DOWN, ..no_keys() }), 8);
    let all = KeyStates {
        key: 0, control: DOWN, menu: DOWN, shift: DOWN, left_win: DOWN, right_win: DOWN,
    };
    assert_eq!(check_modifiers(&all), 15);
}

#[test]
fn either_windows_key_will_do() {
    let right = KeyStates { right_win: DOWN, ..no_keys() };
    assert!(is_key_down(0x5B, &right));
    assert!(is_key_down(0x5C, &right));
    assert!(!is_key_down(0x41, &right));
    assert!(is_key_down(0x41, &KeyStates { key: DOWN, ..no_keys() }));
    assert!(!is_key_down(0x5B, &KeyStates { key: DOWN, ..no_keys() }));
}

#[test]
fn fires_once_for_each_press() {
    let mut state = HotkeyState::default();
    let down = KeyStates { key: DOWN, ..no_keys() };
    assert!(!check_capture_hotkey(&mut state, &no_keys()));
    assert!(check_capture_hotkey(&mut state, &down));
    assert!(!check_capture_hotkey(&mut state, &down));
    assert!(!check_capture_hotkey(&mut state, &down));
    assert!(!check_capture_hotkey(&mut state, &no_keys()));
    assert!(check_capture_hotkey(&mut state, &down));
}

#[test]
fn plain_hotkey_ignores_modifiers() {
    let mut state = HotkeyState::default();
    let down = KeyStates { key: DOWN, shift: DOWN, control: DOWN, ..no_keys() };
    assert!(check_capture_hotkey(&mut state, &down));
}

#[test]
fn combination_asks_for_its_modifiers() {
    let mut state = HotkeyState::default();
    assert_eq!(update_keybinds(&mut state, "Alt+Shift+K", "F9"), (true, true));
    assert_eq!((state.capture_key_code, state.capture_modifiers), (0x4B, 6));
    assert!(!check_capture_hotkey(&mut state, &KeyStates { key: DOWN, menu: DOWN, ..no_keys() }));
    let held = KeyStates { key: DOWN, menu: DOWN, shift: DOWN, control: DOWN, ..no_keys() };
    assert!(check_capture_hotkey(&mut state, &held));
    // Letting go of a modifier lets go of the hotkey.
    assert!(!check_capture_hotkey(&mut state, &KeyStates { key: DOWN, menu: DOWN, ..no_keys() }));
    assert!(check_capture_hotkey(&mut state, &held));
}

#[test]
fn unreadable_keybinds_change_nothing() {
    let mut state = HotkeyState::default();
    assert_eq!(update_keybinds(&mut state, "nonsense", "Ctrl+C"), (false, true));
    assert_eq!((state.capture_key_code, state.capture_modifiers), (0x77, 0));
    assert_eq!((state.clear_key_code, state.clear_modifiers), (0x43, 1));
    let before = state;
    assert_eq!(update_keybinds(&mut state, "", "+"), (false, false));
    assert_eq!(state, before);
}

#[test]
fn binding_twice_is_binding_once() {
    let mut once = HotkeyState::default();
    update_keybinds(&mut once, "Win+G", "Num5");
    let mut twice = once;
    update_keybinds(&mut twice, "Win+G", "Num5");
    assert_eq!(once, twice);
}

#[test]
fn rebinding_keeps_the_press() {
    let mut state = HotkeyState::default();
    let down = KeyStates { key: DOWN, ..no_keys() };
    assert!(check_capture_hotkey(&mut state, &down));
    update_keybinds(&mut state, "F10", "F11");
    assert!(state.capture_key_was_down);
    assert!(!check_capture_hotkey(&mut state, &down));
}

#[test]
fn defaults_agree() {
    let config = KeybindConfig::default();
    assert_eq!(config.capture_screen, "F8");
    assert_eq!(config.clear_screen, "F9");
    let mut state = HotkeyState::default();
    update_keybinds(&mut state, &config.capture_screen, &config.clear_screen);
    assert_eq!(state, HotkeyState::default());
    assert_eq!((state.capture_key_code, state.clear_key_code), (0x77, 0x78));
}

#[test]
fn captures_only_in_the_game() {
    let mut last: u64 = 0;
    assert_eq!(decide_capture(&mut last, false, true, 9_000), HotkeyOutcome::NotInGame);
    assert_eq!(decide_capture(&mut last, true, false, 9_000), HotkeyOutcome::NotInGame);
    assert_eq!(last, 0);
    assert_eq!(decide_capture(&mut last, true, true, 9_000), HotkeyOutcome::Capture);
    assert_eq!(last, 9_000);
}

#[test]
fn captures_keep_their_distance() {
    let mut last: u64 = 10_000;
    assert_eq!(
        decide_capture(&mut last, true, true, 14_999),
        HotkeyOutcome::CoolingDown { remaining_ms: 1 }
    );
    assert_eq!(last, 10_000);
    assert_eq!(decide_capture(&mut last, true, true, 15_000), HotkeyOutcome::Capture);
    assert_eq!(last, 15_000);
    assert_eq!(CAPTURE_COOLDOWN_MS, 5_000);
    assert_eq!(POLL_INTERVAL_MS, 5);
}

#[test]
fn clock_that_went_back_counts_as_no_time() {
    let mut last: u64 = 10_000;
    assert_eq!(
        decide_capture(&mut last, true, true, 4_000),
        HotkeyOutcome::CoolingDown { remaining_ms: 5_000 }
    );
    assert_eq!(last, 10_000);
}

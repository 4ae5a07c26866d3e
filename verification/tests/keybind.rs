use drop_agent::keybind::{bind_names, parse_keybind_to_vk};
use drop_agent::keynames::{classify, KeyPart, MOD_ALT, MOD_CTRL, MOD_SHIFT, MOD_WIN};

#[test]
fn function_keys() {
    for n in 1u32..=12 {
        assert_eq!(parse_keybind_to_vk(&format!("F{}", n)), Some((0x6F + n, 0)));
    }
    assert_eq!(parse_keybind_to_vk("F13"), None);
    assert_eq!(parse_keybind_to_vk("[F1]"), None);
}

#[test]
fn letters_and_digits() {
    assert_eq!(parse_keybind_to_vk("a"), Some((0x41, 0)));
    assert_eq!(parse_keybind_to_vk("Z"), Some((0x5A, 0)));
    assert_eq!(parse_keybind_to_vk("0"), Some((0x30, 0)));
    assert_eq!(parse_keybind_to_vk("9"), Some((0x39, 0)));
    assert_eq!(parse_keybind_to_vk("ab"), None);
    assert_eq!(parse_keybind_to_vk("10"), None);
}

#[test]
fn modifiers_are_collected() {
    assert_eq!(parse_keybind_to_vk("Ctrl+Alt+Shift+Win+K"), Some((0x4B, 15)));
    assert_eq!(parse_keybind_to_vk("Alt+K"), Some((0x4B, 2)));
    assert_eq!(parse_keybind_to_vk(" control + [SHIFT] + tab "), Some((0x09, 5)));
    assert_eq!(parse_keybind_to_vk("crtl+meta+1"), Some((0x31, 9)));
    assert_eq!(parse_keybind_to_vk("Ctrl+Ctrl+A"), Some((0x41, 1)));
}

#[test]
fn modifier_alone_is_a_key() {
    assert_eq!(parse_keybind_to_vk("Ctrl"), Some((0x11, 1)));
    assert_eq!(parse_keybind_to_vk("Alt"), Some((0x12, 2)));
    assert_eq!(parse_keybind_to_vk("Shift"), Some((0x10, 4)));
    assert_eq!(parse_keybind_to_vk("Win"), Some((0x5B, 8)));
    assert_eq!(parse_keybind_to_vk("Ctrl+Shift"), Some((0x10, 5)));
    assert_eq!(parse_keybind_to_vk("Ctrl+nonsense"), Some((0x11, 1)));
}

#[test]
fn last_key_wins() {
    assert_eq!(parse_keybind_to_vk("A+B"), Some((0x42, 0)));
    assert_eq!(parse_keybind_to_vk("A+Ctrl+unknown"), Some((0x41, 1)));
}

#[test]
fn nothing_is_bound() {
    assert_eq!(parse_keybind_to_vk(""), None);
    assert_eq!(parse_keybind_to_vk("+"), None);
    assert_eq!(parse_keybind_to_vk("   "), None);
    assert_eq!(parse_keybind_to_vk("unknown"), None);
}

#[test]
fn editing_keys() {
    let table: Vec<(&str, u32)> = vec![
        ("tab", 0x09), ("[TAB]", 0x09),
        ("capslock", 0x14), ("Caps Lock", 0x14), ("[CAPSLOCK]", 0x14), ("[CAPS LOCK]", 0x14),
        ("space", 0x20), ("spacebar", 0x20), ("[space]", 0x20),
        ("enter", 0x0D), ("return", 0x0D), ("[enter]", 0x0D), ("[return]", 0x0D),
        ("backspace", 0x08), ("back", 0x08), ("[backspace]", 0x08),
        ("esc", 0x1B), ("escape", 0x1B), ("[esc]", 0x1B), ("[escape]", 0x1B),
        ("insert", 0x2D), ("ins", 0x2D), ("[insert]", 0x2D), ("[ins]", 0x2D),
        ("delete", 0x2E), ("del", 0x2E), ("[delete]", 0x2E), ("[del]", 0x2E),
        ("home", 0x24), ("[home]", 0x24), ("end", 0x23), ("[end]", 0x23),
        ("pageup", 0x21), ("page up", 0x21), ("pgup", 0x21), ("[pageup]", 0x21), ("[pgup]", 0x21),
        ("pagedown", 0x22), ("page down", 0x22), ("pgdn", 0x22), ("[pagedown]", 0x22),
        ("[pgdn]", 0x22),
        ("contextmenu", 0x5D), ("context menu", 0x5D), ("apps", 0x5D), ("[contextmenu]", 0x5D),
        ("[apps]", 0x5D),
    ];
    for (name, code) in table {
        assert_eq!(parse_keybind_to_vk(name), Some((code, 0)), "{}", name);
    }
}

#[test]
fn numpad_keys() {
    for n in 0u32..10 {
        for name in vec![format!("num{}", n), format!("numpad{}", n), format!("[num{}]", n)] {
            assert_eq!(parse_keybind_to_vk(&name), Some((0x60 + n, 0)));
        }
    }
    for (sign, code) in vec![("*", 0x6A), ("-", 0x6D), (".", 0x6E), ("/", 0x6F)] {
        for name in vec![
            format!("num{}", sign),
            format!("numpad{}", sign),
            format!("[num{}]", sign),
        ] {
            assert_eq!(parse_keybind_to_vk(&name), Some((code, 0)));
        }
    }
}

#[test]
fn numpad_plus_is_cut_at_the_plus() {
    // The plus sign separates parts, so its key can be named only after the cut.
    assert_eq!(parse_keybind_to_vk("num+"), None);
    assert_eq!(bind_names(&vec!["NUM+".to_string()]), Some((0x6B, 0)));
    assert_eq!(bind_names(&vec!["NUMPAD+".to_string()]), Some((0x6B, 0)));
    assert_eq!(bind_names(&vec!["[NUM+]".to_string()]), Some((0x6B, 0)));
}

#[test]
fn symbol_keys() {
    let table: Vec<(&str, u32)> = vec![
        ("=", 0xBB), ("[=]", 0xBB), ("-", 0xBD), ("minus", 0xBD), ("[-]", 0xBD),
        ("[minus]", 0xBD), (",", 0xBC), ("[,]", 0xBC), (".", 0xBE), ("[.]", 0xBE), ("/", 0xBF),
        ("[/]", 0xBF), (";", 0xBA), ("[;]", 0xBA), ("'", 0xDE), ("['']", 0xDE), ("[']", 0xDE),
        ("`", 0xC0), ("tilde", 0xC0), ("[`]", 0xC0), ("[tilde]", 0xC0), ("\\", 0xDC),
        ("[\\]", 0xDC), ("[", 0xDB), ("[[]]", 0xDB), ("[[", 0xDB), ("]", 0xDD), ("[]]", 0xDD),
        ("]]", 0xDD),
    ];
    for (name, code) in table {
        assert_eq!(parse_keybind_to_vk(name), Some((code, 0)), "{}", name);
    }
}

#[test]
fn letter_case_is_that_of_unicode() {
    // The long s becomes an S in upper case, the sharp s two of them.
    assert_eq!(parse_keybind_to_vk("\u{17F}"), Some((0x53, 0)));
    assert_eq!(parse_keybind_to_vk("\u{DF}"), None);
    assert_eq!(parse_keybind_to_vk("\u{17F}hift+a"), Some((0x41, 4)));
    assert_eq!(parse_keybind_to_vk("\u{E9}"), None);
}

#[test]
fn white_space_around_parts_is_ignored() {
    assert_eq!(parse_keybind_to_vk("\u{3000}Ctrl\t+\n F5 \u{A0}"), Some((0x74, 1)));
}

#[test]
fn parts_are_classified() {
    assert!(matches!(classify("CTRL"), KeyPart::Modifier { .. }));
    assert!(matches!(classify("Q"), KeyPart::Key(0x51)));
    assert!(matches!(classify("q q"), KeyPart::Unknown));
    assert_eq!((MOD_CTRL, MOD_ALT, MOD_SHIFT, MOD_WIN), (1, 2, 4, 8));
}

#[test]
fn order_of_parts() {
    // Modifiers may come in any order, and letters in either case.
    assert_eq!(parse_keybind_to_vk("Ctrl+Alt+x"), parse_keybind_to_vk("ALT+CTRL+X"));
    assert_eq!(parse_keybind_to_vk("x+Ctrl"), Some((0x58, 1)));
}

#[test]
fn codes_and_masks_stay_in_range() {
    for text in vec!["]", "F12", "a", "Ctrl+Alt+Shift+Win", "Num/", "Win+Esc", "'", "Meta"] {
        let (code, mask) = parse_keybind_to_vk(text).unwrap();
        assert!(code > 0 && code <= 0xDE, "{}", text);
        assert!(mask <= 15, "{}", text);
    }
}

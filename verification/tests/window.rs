use drop_agent::window::{
    debug_list_windows, find_fortnite_window, inspect_window, is_fortnite_foreground, is_game,
    lower_process_name_of, process_name_of, recognise_game, signed_span, span, FoundWindow, Rect,
    WindowInfo,
};

fn utf16(text: &str) -> Vec<u16> {
    text.encode_utf16().collect()
}

fn rect(width: i32, height: i32) -> Option<Rect> {
    Some(Rect { left: -10, top: 20, right: width - 10, bottom: height + 20 })
}

fn game() -> WindowInfo {
    WindowInfo {
        handle: 7,
        visible: true,
        title: utf16("Fortnite  "),
        process_id: 42,
        process_name: Some(utf16("FortniteClient-Win64-Shipping.exe")),
        rect: rect(1920, 1080),
    }
}

fn other() -> WindowInfo {
    WindowInfo {
        handle: 8,
        title: utf16("Editor"),
        process_name: Some(utf16("editor.exe")),
        ..game()
    }
}

#[test]
fn game_window_is_found() {
    let found = FoundWindow { handle: 7, width: 1920, height: 1080 };
    assert_eq!(find_fortnite_window(&vec![other(), game(), other()]), Some(found));
    assert_eq!(find_fortnite_window(&vec![]), None);
    assert_eq!(find_fortnite_window(&vec![other()]), None);
}

#[test]
fn first_game_window_counts() {
    let second = WindowInfo { handle: 9, ..game() };
    assert_eq!(find_fortnite_window(&vec![game(), second.clone()]).map(|w| w.handle), Some(7));
    assert_eq!(find_fortnite_window(&vec![second, game()]).map(|w| w.handle), Some(9));
}

#[test]
fn windows_that_are_passed_over() {
    assert_eq!(inspect_window(&WindowInfo { visible: false, ..game() }), None);
    assert_eq!(inspect_window(&WindowInfo { title: vec![], ..game() }), None);
    assert_eq!(inspect_window(&WindowInfo { title: utf16(" \t "), ..game() }), None);
    assert_eq!(inspect_window(&WindowInfo { process_id: 0, ..game() }), None);
    assert_eq!(inspect_window(&WindowInfo { rect: None, ..game() }), None);
    assert_eq!(inspect_window(&WindowInfo { rect: rect(640, 1080), ..game() }), None);
    assert_eq!(inspect_window(&WindowInfo { rect: rect(1920, 480), ..game() }), None);
    assert!(inspect_window(&WindowInfo { rect: rect(641, 481), ..game() }).is_some());
}

#[test]
fn process_name_is_enough() {
    let odd = WindowInfo { title: utf16("anything"), ..game() };
    assert!(inspect_window(&odd).is_some());
    let loud = WindowInfo {
        title: utf16("x"),
        process_name: Some(utf16("MYFORTNITE.EXE")),
        ..game()
    };
    assert!(inspect_window(&loud).is_some());
    assert_eq!(lower_process_name_of(&loud).unwrap(), "myfortnite.exe");
}

#[test]
fn title_decides_for_protected_processes() {
    for process_name in vec![None, Some(vec![])] {
        let protected = WindowInfo { process_name, ..game() };
        assert!(inspect_window(&protected).is_some());
        for title in vec!["fortnite", "Fortnite - Wiki", "x"] {
            let window = WindowInfo { title: utf16(title), ..protected.clone() };
            assert!(inspect_window(&window).is_none());
        }
    }
}

#[test]
fn title_of_another_program_does_not_count() {
    let browser = WindowInfo {
        title: utf16("Fortnite"),
        process_name: Some(utf16("chrome.exe")),
        ..game()
    };
    assert_eq!(inspect_window(&browser), None);
    assert_eq!(find_fortnite_window(&vec![browser.clone()]), None);
    assert_eq!(find_fortnite_window(&vec![browser, game()]).map(|w| w.handle), Some(7));
}

#[test]
fn names_are_compared_in_lower_case() {
    assert!(recognise_game(&Some("fortnite.exe".to_string()), "x"));
    assert!(!recognise_game(&Some("Fortnite.exe".to_string()), "x"));
    assert!(!recognise_game(&Some("chrome.exe".to_string()), "Fortnite"));
    assert!(recognise_game(&None, "Fortnite"));
    assert!(!recognise_game(&None, "x"));
    assert!(is_game(&Some("fortnite.exe".to_string()), "x"));
    assert!(is_game(&Some("chrome.exe".to_string()), "Fortnite"));
    assert!(is_game(&None, "Fortnite"));
    assert!(!is_game(&None, "x"));
}

#[test]
fn unknown_process_names() {
    assert_eq!(process_name_of(&game()).unwrap(), "FortniteClient-Win64-Shipping.exe");
    assert_eq!(process_name_of(&WindowInfo { process_name: None, ..game() }), None);
    assert_eq!(process_name_of(&WindowInfo { process_name: Some(vec![]), ..game() }), None);
}

#[test]
fn foreground_window() {
    assert!(is_fortnite_foreground(&Some(game())));
    assert!(!is_fortnite_foreground(&Some(other())));
    assert!(!is_fortnite_foreground(&None));
    assert!(!is_fortnite_foreground(&Some(WindowInfo { process_id: 0, ..game() })));
    // Neither its size nor whether it is visible matters.
    assert!(is_fortnite_foreground(&Some(WindowInfo { visible: false, rect: None, ..game() })));
}

#[test]
fn spans_wrap_around() {
    assert_eq!(span(10, 1930), 1920);
    assert_eq!(span(5, 3), u32::MAX - 1);
    assert_eq!(span(i32::MIN, i32::MAX), u32::MAX);
    assert_eq!(signed_span(10, 1930), 1920);
    assert_eq!(signed_span(5, 3), -2);
    assert_eq!(signed_span(i32::MIN, i32::MAX), i32::MAX.wrapping_sub(i32::MIN));
    assert_eq!(signed_span(i32::MAX, i32::MIN), i32::MIN.wrapping_sub(i32::MAX));
}

#[test]
fn listing_of_windows() {
    let nameless = WindowInfo { process_name: None, title: utf16(" Tool "), ..game() };
    let orphan = WindowInfo { process_id: 0, ..game() };
    let blank = WindowInfo { process_name: Some(vec![]), ..game() };
    let small = WindowInfo { rect: rect(640, 480), ..game() };
    let hidden = WindowInfo { visible: false, ..game() };
    let untitled = WindowInfo { title: vec![], ..game() };
    let lines = debug_list_windows(&vec![
        other(), small, nameless, hidden, orphan, untitled, blank,
    ]);
    assert_eq!(
        lines,
        vec![
            "editor.exe | 1920x1080 | Editor",
            "PID:42 | 1920x1080 |  Tool ",
            "Unknown | 1920x1080 | Fortnite  ",
            "PID:42 | 1920x1080 | Fortnite  ",
        ]
    );
    let upside_down = WindowInfo {
        rect: Some(Rect { left: 0, top: 1080, right: 1920, bottom: 0 }),
        ..game()
    };
    assert_eq!(debug_list_windows(&vec![upside_down]).len(), 0);
}

#[test]
fn windows_after_the_game_make_no_difference() {
    let mut windows = vec![other(), game()];
    let found = find_fortnite_window(&windows);
    windows.push(WindowInfo { handle: 99, ..game() });
    assert_eq!(find_fortnite_window(&windows), found);
}

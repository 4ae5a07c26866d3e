use drop_agent::status::{
    handle_health, handle_screen_status, locate, recheck, screen_status, FortniteWindowState,
    ScreenStatusResponse,
};
use drop_agent::window::FoundWindow;

const FOUND: FoundWindow = FoundWindow { handle: 77, width: 1920, height: 1080 };

fn known() -> FortniteWindowState {
    FortniteWindowState { hwnd: Some(5), is_running: true, width: 800, height: 600 }
}

#[test]
fn nothing_is_known_at_first() {
    let state = FortniteWindowState::default();
    assert_eq!(
        state,
        FortniteWindowState { hwnd: None, is_running: false, width: 0, height: 0 }
    );
    let health = handle_health(&state);
    assert_eq!(
        (health.status.as_str(), health.version.as_str(), health.fortnite_running),
        ("ok", "2.3.0", false)
    );
    assert!(handle_health(&known()).fortnite_running);
}

#[test]
fn status_of_a_search() {
    assert_eq!(
        screen_status(&Some(FOUND)),
        ScreenStatusResponse { fortnite_running: true, width: 1920, height: 1080 }
    );
    assert_eq!(
        screen_status(&None),
        ScreenStatusResponse { fortnite_running: false, width: 0, height: 0 }
    );
}

#[test]
fn asked_for_search_keeps_the_handle() {
    let mut state = known();
    assert_eq!(handle_screen_status(&mut state, &None), screen_status(&None));
    assert_eq!(
        state,
        FortniteWindowState { hwnd: Some(5), is_running: false, width: 0, height: 0 }
    );
    handle_screen_status(&mut state, &Some(FOUND));
    assert_eq!(
        state,
        FortniteWindowState { hwnd: Some(5), is_running: true, width: 1920, height: 1080 }
    );
}

#[test]
fn own_search_notes_everything() {
    let mut state = known();
    assert!(!recheck(&mut state, &Some(FOUND)));
    assert_eq!(
        state,
        FortniteWindowState { hwnd: Some(77), is_running: true, width: 1920, height: 1080 }
    );
    assert!(recheck(&mut state, &None));
    assert_eq!(state, FortniteWindowState::default());
    assert!(!recheck(&mut state, &None));
    assert!(recheck(&mut state, &Some(FOUND)));
}

#[test]
fn search_before_a_capture_keeps_the_size() {
    let mut state = known();
    locate(&mut state, &None);
    assert_eq!(
        state,
        FortniteWindowState { hwnd: None, is_running: false, width: 800, height: 600 }
    );
    locate(&mut state, &Some(FOUND));
    assert_eq!(
        state,
        FortniteWindowState { hwnd: Some(77), is_running: true, width: 1920, height: 1080 }
    );
}

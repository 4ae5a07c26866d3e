use drop_agent::capture::{reading_region, Screenshot};
use drop_agent::hotkey::{decide_capture, HotkeyOutcome};
use drop_agent::link::{
    periodic_check, server_url, ws_loop, Agent, Cmd, LinkAction, LinkEvent, LinkPhase,
    CHECK_INTERVAL_SECS, LOCAL_SERVER_PORT, PING_INTERVAL_SECS,
};
use drop_agent::token::TokenInfo;
use drop_agent::window::FoundWindow;

const FOUND: FoundWindow = FoundWindow { handle: 77, width: 1920, height: 1080 };

fn value(text: &str) -> serde_json::Value {
    serde_json::from_str(text).unwrap()
}

fn member(text: &str, key: &str) -> serde_json::Value {
    value(text)[key].clone()
}

fn with_token() -> Agent {
    Agent {
        token: Some(TokenInfo { token: "abc".to_string(), expires_at: 1_000 }),
        ..Agent::default()
    }
}

fn shot() -> Screenshot {
    Screenshot { width: 2, height: 1, rgba: vec![9; 8] }
}

fn step(phase: &mut LinkPhase, agent: &mut Agent, event: LinkEvent) -> LinkAction {
    ws_loop(phase, agent, event)
}

fn text(text: &str) -> LinkEvent {
    LinkEvent::Text(text.to_string())
}

#[test]
fn constants_of_the_link() {
    assert_eq!(server_url(), "wss://api.dropmazter.com:8443/pluto/agent");
    assert_eq!(LOCAL_SERVER_PORT, 30123);
    assert_eq!(PING_INTERVAL_SECS, 30);
    assert_eq!(CHECK_INTERVAL_SECS, 3);
}

#[test]
fn waits_for_a_usable_token() {
    let mut phase = LinkPhase::Token;
    let mut agent = Agent::default();
    let wait = step(&mut phase, &mut agent, LinkEvent::Clock { now_ns: 5 });
    assert!(matches!(wait, LinkAction::Wait { seconds: 2 }));
    let mut agent = with_token();
    let wait = step(&mut phase, &mut agent, LinkEvent::Clock { now_ns: 1_000 });
    assert!(matches!(wait, LinkAction::Wait { seconds: 2 }));
    assert!(matches!(phase, LinkPhase::Token));
    let connect = step(&mut phase, &mut agent, LinkEvent::Clock { now_ns: 999 });
    assert!(matches!(connect, LinkAction::Connect));
    assert!(matches!(phase, LinkPhase::Connecting { .. }));
}

#[test]
fn greets_and_reports() {
    let mut phase = LinkPhase::Token;
    let mut agent = with_token();
    agent.game.is_running = true;
    agent.game.width = 640;
    step(&mut phase, &mut agent, LinkEvent::Clock { now_ns: 0 });
    match step(&mut phase, &mut agent, LinkEvent::Connected) {
        LinkAction::Greet(hello) => {
            assert_eq!(member(&hello, "type"), "hello");
            assert_eq!(member(&hello, "token"), "abc");
            assert_eq!(member(&hello, "fortnite_running"), true);
            assert_eq!(member(&hello, "width"), 640);
        }
        other => panic!("{:?}", other),
    }
    // The report repeats the greeting, whatever has happened in between.
    agent.game.is_running = false;
    match step(&mut phase, &mut agent, LinkEvent::Greeted { sent: true }) {
        LinkAction::Announce(report) => {
            assert_eq!(member(&report, "type"), "screen:status:result");
            assert_eq!(member(&report, "fortnite_running"), true);
        }
        other => panic!("{:?}", other),
    }
    assert!(matches!(phase, LinkPhase::Listening));
    assert!(matches!(step(&mut phase, &mut agent, LinkEvent::Done), LinkAction::Listen));
}

#[test]
fn failed_connections() {
    let mut agent = with_token();
    let mut phase = LinkPhase::Connecting { token: "abc".to_string() };
    let wait = step(&mut phase, &mut agent, LinkEvent::ConnectFailed);
    assert!(matches!(wait, LinkAction::Wait { seconds: 5 }));
    assert!(matches!(phase, LinkPhase::Token));
    step(&mut phase, &mut agent, LinkEvent::Clock { now_ns: 0 });
    step(&mut phase, &mut agent, LinkEvent::Connected);
    let wait = step(&mut phase, &mut agent, LinkEvent::Greeted { sent: false });
    assert!(matches!(wait, LinkAction::Wait { seconds: 0 }));
    assert!(matches!(phase, LinkPhase::Token));
    assert!(agent.token.is_some());
}

#[test]
fn ends_of_a_connection() {
    let events = vec![LinkEvent::Closed, LinkEvent::Command(Cmd::ForceReconnect)];
    for event in events {
        let mut phase = LinkPhase::Listening;
        let mut agent = with_token();
        let end = step(&mut phase, &mut agent, event);
        assert!(matches!(end, LinkAction::HangUp { seconds: 5 }));
        assert!(matches!(phase, LinkPhase::Token));
        assert!(agent.token.is_some());
    }
}

#[test]
fn refused_token_is_forgotten() {
    let mut phase = LinkPhase::Listening;
    let mut agent = with_token();
    let end = step(&mut phase, &mut agent, text(r#"{"type":"error","reason":"auth_failed"}"#));
    assert!(matches!(end, LinkAction::HangUp { seconds: 5 }));
    assert!(agent.token.is_none());
    let wait = step(&mut phase, &mut agent, LinkEvent::Clock { now_ns: 0 });
    assert!(matches!(wait, LinkAction::Wait { seconds: 2 }));
}

#[test]
fn status_request_is_answered() {
    let mut phase = LinkPhase::Listening;
    let mut agent = with_token();
    let search = step(&mut phase, &mut agent, text(r#"{"type":"screen:status"}"#));
    assert!(matches!(search, LinkAction::Search));
    match step(&mut phase, &mut agent, LinkEvent::Searched(Some(FOUND))) {
        LinkAction::Send(report) => {
            assert_eq!(member(&report, "fortnite_running"), true);
            assert_eq!(member(&report, "width"), 1920);
            assert_eq!(member(&report, "height"), 1080);
        }
        other => panic!("{:?}", other),
    }
    assert!(agent.game.is_running);
    assert_eq!(agent.game.hwnd, None);
    assert!(matches!(phase, LinkPhase::Listening));
}

#[test]
fn capture_is_delivered() {
    let asked = vec![
        LinkEvent::Command(Cmd::CaptureFortnite),
        text(r#"{"type":"screen:capture"}"#),
    ];
    for event in asked {
        let mut phase = LinkPhase::Listening;
        let mut agent = with_token();
        assert!(matches!(step(&mut phase, &mut agent, event), LinkAction::Search));
        let capture = step(&mut phase, &mut agent, LinkEvent::Searched(Some(FOUND)));
        match capture {
            LinkAction::Capture { handle, region } => {
                assert_eq!(handle, 77);
                assert_eq!(region, reading_region(1920, 1080));
            }
            other => panic!("{:?}", other),
        }
        assert_eq!(agent.game.hwnd, Some(77));
        let stamp = step(
            &mut phase,
            &mut agent,
            LinkEvent::Captured { shot: Some(shot()), at_ms: 10 },
        );
        assert!(matches!(stamp, LinkAction::Stamp));
        match step(&mut phase, &mut agent, LinkEvent::Stamp { at_ms: 25 }) {
            LinkAction::HandToPage(message) => {
                assert_eq!(member(&message, "type"), "screen:capture:result");
                assert_eq!(member(&message, "width"), 1920);
                assert_eq!(member(&message, "capturedAt"), 10);
                assert_eq!(member(&message, "sentAt"), 25);
                let picture = member(&message, "pngBase64");
                assert!(picture.as_str().unwrap().starts_with("/9j/"));
            }
            other => panic!("{:?}", other),
        }
    }
}

#[test]
fn failed_capture_is_told_to_the_user_only() {
    for by_user in vec![true, false] {
        let mut phase = LinkPhase::Capturing { by_user, width: 1, height: 1 };
        let mut agent = with_token();
        let event = LinkEvent::Captured { shot: None, at_ms: 0 };
        match step(&mut phase, &mut agent, event) {
            LinkAction::Send(message) => {
                assert!(by_user);
                assert_eq!(member(&message, "error"), "Failed to capture window");
            }
            LinkAction::Listen => assert!(!by_user),
            other => panic!("{:?}", other),
        }
        assert!(matches!(phase, LinkPhase::Listening));
    }
}

#[test]
fn picture_that_jpeg_cannot_hold_is_dropped() {
    let mut phase = LinkPhase::Capturing { by_user: true, width: 65536, height: 1 };
    let mut agent = with_token();
    let wide = Screenshot { width: 65536, height: 1, rgba: vec![1; 4 * 65536] };
    let action = step(
        &mut phase,
        &mut agent,
        LinkEvent::Captured { shot: Some(wide), at_ms: 0 },
    );
    assert!(matches!(action, LinkAction::Listen));
}

#[test]
fn capture_without_a_window() {
    let mut phase = LinkPhase::Locating { by_user: true };
    let mut agent = with_token();
    agent.game.is_running = true;
    agent.game.width = 800;
    let action = step(&mut phase, &mut agent, LinkEvent::Searched(None));
    assert!(matches!(action, LinkAction::Listen));
    assert!(!agent.game.is_running);
    assert_eq!(agent.game.width, 800);
}

#[test]
fn keybinds_are_taken_over() {
    let mut phase = LinkPhase::Listening;
    let mut agent = with_token();
    let event = text(
        r#"{"type":"keybinds:update","keybinds":{"captureScreen":"Ctrl+K","clearScreen":"??"}}"#,
    );
    match step(&mut phase, &mut agent, event) {
        LinkAction::RegisterHotkeys { capture, clear } => {
            assert_eq!((capture.as_str(), clear.as_str()), ("Ctrl+K", "??"));
        }
        other => panic!("{:?}", other),
    }
    assert_eq!(agent.keybinds.capture_screen, "Ctrl+K");
    assert_eq!(agent.keybinds.clear_screen, "??");
    assert_eq!((agent.hotkeys.capture_key_code, agent.hotkeys.capture_modifiers), (0x4B, 1));
    assert_eq!((agent.hotkeys.clear_key_code, agent.hotkeys.clear_modifiers), (0x78, 0));
    assert!(agent.token.is_some());
}

#[test]
fn other_requests() {
    let mut phase = LinkPhase::Listening;
    let mut agent = with_token();
    assert!(matches!(
        step(&mut phase, &mut agent, text(r#"{"type":"restart"}"#)),
        LinkAction::Restart
    ));
    assert!(matches!(step(&mut phase, &mut agent, text("no json")), LinkAction::Listen));
    assert!(matches!(step(&mut phase, &mut agent, LinkEvent::OtherMessage), LinkAction::Listen));
    let check = step(&mut phase, &mut agent, LinkEvent::Command(Cmd::CheckFortnite));
    assert!(matches!(check, LinkAction::Search));
    assert!(matches!(phase, LinkPhase::Checking));
    let listen = step(&mut phase, &mut agent, LinkEvent::Searched(Some(FOUND)));
    assert!(matches!(listen, LinkAction::Listen));
    assert!(!agent.game.is_running);
}

#[test]
fn events_out_of_place_change_nothing() {
    let mut phase = LinkPhase::Token;
    let mut agent = with_token();
    let idle = step(&mut phase, &mut agent, LinkEvent::Searched(Some(FOUND)));
    assert!(matches!(idle, LinkAction::Idle));
    assert!(matches!(phase, LinkPhase::Token));
    assert!(!agent.game.is_running);
}

#[test]
fn changes_are_reported() {
    let mut agent = Agent::default();
    assert!(periodic_check(&mut agent, &None).is_none());
    let report = periodic_check(&mut agent, &Some(FOUND)).unwrap();
    assert_eq!(member(&report, "fortnite_running"), true);
    assert_eq!(member(&report, "width"), 1920);
    assert!(periodic_check(&mut agent, &Some(FOUND)).is_none());
    let report = periodic_check(&mut agent, &None).unwrap();
    assert_eq!(member(&report, "fortnite_running"), false);
    assert_eq!(member(&report, "height"), 0);
}

#[test]
fn hotkey_sleeps_without_the_game() {
    let mut agent = Agent::default();
    periodic_check(&mut agent, &Some(FOUND));
    let mut last: u64 = 0;
    let outcome = decide_capture(&mut last, agent.game.is_running, true, 6_000);
    assert_eq!(outcome, HotkeyOutcome::Capture);
    periodic_check(&mut agent, &None);
    let outcome = decide_capture(&mut last, agent.game.is_running, true, 60_000);
    assert_eq!(outcome, HotkeyOutcome::NotInGame);
}

#[test]
fn a_day_without_getting_stuck() {
    let mut phase = LinkPhase::Token;
    let mut agent = with_token();
    let mut event = LinkEvent::Clock { now_ns: 0 };
    let mut heard = 0;
    for _ in 0..60 {
        let action = ws_loop(&mut phase, &mut agent, event);
        // No picture goes to the server.
        if let LinkAction::Greet(text) | LinkAction::Announce(text) | LinkAction::Send(text) =
            &action
        {
            assert!(value(text).get("pngBase64").is_none());
        }
        event = match action {
            LinkAction::Wait { .. } | LinkAction::HangUp { .. } => LinkEvent::Clock { now_ns: 0 },
            LinkAction::Connect => LinkEvent::Connected,
            LinkAction::Greet(_) => LinkEvent::Greeted { sent: true },
            LinkAction::Announce(_)
            | LinkAction::Send(_)
            | LinkAction::HandToPage(_)
            | LinkAction::RegisterHotkeys { .. }
            | LinkAction::Restart => LinkEvent::Done,
            LinkAction::Listen => {
                heard += 1;
                match heard % 6 {
                    0 => LinkEvent::Closed,
                    1 => LinkEvent::Command(Cmd::CaptureFortnite),
                    2 => text(r#"{"type":"screen:status"}"#),
                    3 => text(r#"{"type":"keybinds:update","keybinds":{}}"#),
                    4 => LinkEvent::Command(Cmd::CheckFortnite),
                    _ => text(r#"{"type":"restart"}"#),
                }
            }
            LinkAction::Search => LinkEvent::Searched(Some(FOUND)),
            LinkAction::Capture { .. } => LinkEvent::Captured { shot: Some(shot()), at_ms: 1 },
            LinkAction::Stamp => LinkEvent::Stamp { at_ms: 2 },
            LinkAction::Idle => panic!("stuck in {:?}", phase),
        };
    }
    assert!(heard > 12);
}

use drop_agent::json::{get_text, read_json, ObjectBuilder, Scalar};
use drop_agent::protocol::{
    capture_error_message, capture_message, handle_screen_capture, hello_message, interpret, ping_message, read_document,
    read_request, status_message, ServerDocument, ServerRequest,
};
use drop_agent::status::ScreenStatusResponse;

fn value(text: &str) -> serde_json::Value {
    serde_json::from_str(text).unwrap()
}

#[test]
fn messages_to_the_server() {
    let status = ScreenStatusResponse { fortnite_running: true, width: 1920, height: 1080 };
    assert_eq!(
        value(&ping_message(1_700_000_000_123)),
        value(r#"{"type":"ping","ts":1700000000123}"#)
    );
    assert_eq!(
        value(&status_message(&status)),
        value(
            r#"{"type":"screen:status:result","fortnite_running":true,"width":1920,"height":1080}"#
        )
    );
    assert_eq!(
        value(&hello_message("to\"ken", &status)),
        value(
            r#"{"type":"hello","token":"to\"ken","role":"agent","version":"2.3.0","fortnite_running":true,"width":1920,"height":1080}"#
        )
    );
    assert_eq!(
        value(&capture_message("AAAA", 3, 2, 10, 20)),
        value(
            r#"{"type":"screen:capture:result","pngBase64":"AAAA","width":3,"height":2,"capturedAt":10,"sentAt":20}"#
        )
    );
    assert_eq!(
        value(&capture_error_message()),
        value(r#"{"type":"screen:capture:error","error":"Failed to capture window"}"#)
    );
    assert_eq!(value(&ping_message(u64::MAX as u128))["ts"].as_u64(), Some(u64::MAX));
}

#[test]
fn compact_text() {
    assert_eq!(
        capture_error_message(),
        r#"{"error":"Failed to capture window","type":"screen:capture:error"}"#
    );
}

#[test]
fn requests_of_the_server() {
    assert!(matches!(read_request(r#"{"type":"screen:status"}"#), ServerRequest::Status));
    assert!(matches!(read_request(r#"{"type":"screen:capture","x":1}"#), ServerRequest::Capture));
    assert!(matches!(read_request(r#"{"type":"restart"}"#), ServerRequest::Restart));
    assert!(matches!(read_request(r#"{"type":"force-update"}"#), ServerRequest::Restart));
    assert!(matches!(
        read_request(r#"{"type":"error","reason":"auth_failed"}"#),
        ServerRequest::AuthFailed
    ));
}

#[test]
fn messages_that_ask_for_nothing() {
    for text in vec![
        "",
        "no json",
        "[]",
        "null",
        "\"screen:status\"",
        "{}",
        r#"{"type":7}"#,
        r#"{"type":"SCREEN:STATUS"}"#,
        r#"{"type":"token:update/ok"}"#,
        r#"{"type":"error"}"#,
        r#"{"type":"error","reason":"other"}"#,
        r#"{"type":"error","reason":1}"#,
        r#"{"type":"keybinds:update"}"#,
        r#"{"type":"screen:status"} trailing"#,
    ] {
        assert!(matches!(read_request(text), ServerRequest::Nothing), "{}", text);
    }
}

#[test]
fn keybinds_come_with_defaults() {
    let read = |text: &str| match read_request(text) {
        ServerRequest::Keybinds { capture, clear } => (capture, clear),
        other => panic!("{:?}", other),
    };
    let pair = |a: &str, b: &str| (a.to_string(), b.to_string());
    assert_eq!(
        read(r#"{"type":"keybinds:update","keybinds":{"captureScreen":"Alt+K","clearScreen":"F2"}}"#),
        pair("Alt+K", "F2")
    );
    assert_eq!(read(r#"{"type":"keybinds:update","keybinds":{}}"#), pair("F8", "F9"));
    assert_eq!(read(r#"{"type":"keybinds:update","keybinds":null}"#), pair("F8", "F9"));
    assert_eq!(
        read(r#"{"type":"keybinds:update","keybinds":{"captureScreen":5,"clearScreen":""}}"#),
        pair("F8", "")
    );
}

#[test]
fn documents_are_read() {
    let document = read_document(&value(
        r#"{"type":"error","reason":"auth_failed","keybinds":{"captureScreen":"F1"}}"#,
    ));
    assert_eq!(document.kind.as_deref(), Some("error"));
    assert_eq!(document.reason.as_deref(), Some("auth_failed"));
    let fields = document.keybinds.unwrap();
    assert_eq!(fields.capture_screen.as_deref(), Some("F1"));
    assert_eq!(fields.clear_screen, None);
}

#[test]
fn decisions_on_documents() {
    let document = |kind: Option<&str>, reason: Option<&str>| ServerDocument {
        kind: kind.map(|s| s.to_string()),
        reason: reason.map(|s| s.to_string()),
        keybinds: None,
    };
    assert!(matches!(interpret(document(None, Some("auth_failed"))), ServerRequest::Nothing));
    assert!(matches!(interpret(document(Some("screen:status"), None)), ServerRequest::Status));
    assert!(matches!(
        interpret(document(Some("error"), Some("auth_failed"))),
        ServerRequest::AuthFailed
    ));
}

#[test]
fn own_messages_ask_for_nothing() {
    let status = ScreenStatusResponse { fortnite_running: false, width: 0, height: 0 };
    assert!(matches!(read_request(&status_message(&status)), ServerRequest::Nothing));
}

#[test]
fn greeting_reads_back() {
    let status = ScreenStatusResponse { fortnite_running: false, width: 0, height: 0 };
    let read = read_json(&hello_message("t\u{1F600}\\", &status)).unwrap();
    assert_eq!(get_text(&read, "token").as_deref(), Some("t\u{1F600}\\"));
    assert_eq!(get_text(&read, "version").as_deref(), Some("2.3.0"));
    assert_eq!(get_text(&read, "width"), None);
    assert_eq!(get_text(&read, "missing"), None);
    let picture = read_json(&capture_message("abc=", 1, 1, 0, 0)).unwrap();
    assert_eq!(get_text(&picture, "pngBase64").as_deref(), Some("abc="));
}

#[test]
fn later_member_counts() {
    let mut object = ObjectBuilder::new();
    object.text("a", "first");
    object.push("a", Scalar::Text("second".to_string()));
    object.flag("b", false);
    object.count("c", 7);
    assert_eq!(object.write(), r#"{"a":"second","b":false,"c":7}"#);
    assert!(read_json("{").is_none());
}

#[test]
fn page_asks_for_the_latest_picture() {
    let message = capture_message("AAAA", 3, 2, 10, 20);
    assert_eq!(handle_screen_capture(&Some(message.clone())), message);
    assert_eq!(
        value(&handle_screen_capture(&None)),
        value(r#"{"type":"screen:capture:error","error":"No capture yet"}"#)
    );
}

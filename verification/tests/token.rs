use drop_agent::link::{restored_agent, ws_loop, LinkAction, LinkEvent, LinkPhase};
use drop_agent::token::{
    config_to_write, read_config, receive_token, store_token, usable_token, write_config,
    TokenInfo, TOKEN_LIFETIME_NS,
};

fn body(text: &str) -> serde_json::Value {
    serde_json::from_str(text).unwrap()
}

#[test]
fn token_is_kept_for_ten_minutes() {
    let mut slot: Option<TokenInfo> = None;
    let reply = receive_token(&mut slot, &body(r#"{"token":"abc"}"#), 1_000);
    assert_eq!(reply, r#"{"status":"ok"}"#);
    let info = slot.clone().unwrap();
    assert_eq!(info.token, "abc");
    assert_eq!(info.expires_at, 600_000_001_000);
    assert_eq!(TOKEN_LIFETIME_NS, 600_000_000_000);
    assert_eq!(usable_token(&slot, 1_000).as_deref(), Some("abc"));
    assert_eq!(usable_token(&slot, 600_000_000_999).as_deref(), Some("abc"));
    assert_eq!(usable_token(&slot, 600_000_001_000), None);
    assert_eq!(usable_token(&None, 0), None);
}

#[test]
fn missing_token_changes_nothing() {
    for text in vec!["{}", "[]", "null", r#"{"token":5}"#, r#"{"token":null}"#, r#""token""#] {
        let mut slot = Some(TokenInfo { token: "old".to_string(), expires_at: 5 });
        let reply = receive_token(&mut slot, &body(text), 1);
        assert_eq!(reply, r#"{"error":"missing token"}"#);
        assert_eq!(slot.unwrap().token, "old");
    }
}

#[test]
fn new_token_replaces_the_old() {
    let mut slot: Option<TokenInfo> = None;
    store_token(&mut slot, Some("a".to_string()), 0);
    store_token(&mut slot, Some("".to_string()), 7);
    assert_eq!(usable_token(&slot, 8).as_deref(), Some(""));
    assert_eq!(slot.unwrap().expires_at, 600_000_000_007);
}

#[test]
fn token_survives_a_restart() {
    let mut slot: Option<TokenInfo> = None;
    receive_token(&mut slot, &body(r#"{"token":"a\"b\u00e9"}"#), 1_000);
    let config = write_config(&slot);
    assert_eq!(config, r#"{"expiresAt":"600000001000","token":"a\"bé"}"#);
    let restored = read_config(&config).unwrap();
    assert_eq!(restored.token, "a\"bé");
    assert_eq!(restored.expires_at, 600_000_001_000);

    let mut phase = LinkPhase::Token;
    let mut agent = restored_agent(&config);
    let late = ws_loop(&mut phase, &mut agent, LinkEvent::Clock { now_ns: 600_000_001_000 });
    assert!(matches!(late, LinkAction::Wait { seconds: 2 }));
    let early = ws_loop(&mut phase, &mut agent, LinkEvent::Clock { now_ns: 5 });
    assert!(matches!(early, LinkAction::Connect));
}

#[test]
fn forgotten_token_stays_forgotten() {
    let config = write_config(&None);
    assert_eq!(config, "{}");
    assert!(read_config(&config).is_none());
    assert!(restored_agent(&config).token.is_none());
}

#[test]
fn damaged_config_holds_no_token() {
    for config in vec![
        "",
        "{",
        "[]",
        r#"{"token":"a"}"#,
        r#"{"expiresAt":"5"}"#,
        r#"{"token":"a","expiresAt":5}"#,
        r#"{"token":"a","expiresAt":"soon"}"#,
        r#"{"token":1,"expiresAt":"5"}"#,
    ] {
        assert!(read_config(config).is_none(), "{}", config);
    }
}

#[test]
fn config_is_written_when_it_changes() {
    let slot = Some(TokenInfo { token: "a".to_string(), expires_at: -5 });
    let config = config_to_write("", &slot).unwrap();
    assert_eq!(config, write_config(&slot));
    assert_eq!(config_to_write(&config, &slot), None);
    assert_eq!(config_to_write(&config, &None).as_deref(), Some("{}"));
}

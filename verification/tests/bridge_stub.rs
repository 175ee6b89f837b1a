use crosstown::bridge::{
    decode_bridge_packet, handle_bls_stub, redact_pubkey, reducer_keeps_char, sanitize_reducer,
    BridgeDecodeError, BridgeOutcome,
};
use crosstown::dispatch::{handle_frame, PropagationMode};
use crosstown::event::NostrEvent;
use crosstown::limiter::RateLimiter;
use crosstown::store::EventStore;
use crosstown::wire::Response;

fn trigger_event(content: &str) -> NostrEvent {
    NostrEvent {
        id: "b1".to_string(),
        pubkey: "pubkey1234567890".to_string(),
        kind: 30078,
        content: content.to_string(),
        created_at: 1,
        tags: Vec::new(),
        sig: "sig".to_string(),
    }
}

#[test]
fn bridge_stub_decodes_and_logs_trigger_event() {
    let mut lim = RateLimiter::new(100, 60);
    let mut store = EventStore::new();
    let frame = r#"["EVENT",{"id":"b1","pubkey":"pubkey1234567890","kind":30078,"content":"{\"reducer\":\"drop_item!\",\"args\":[1,2],\"fee\":0.5}","created_at":1,"tags":[],"sig":"sig"}]"#;
    let (resp, bridge) = handle_frame(frame, &mut lim, &mut store, PropagationMode::Stub, 0);
    assert!(matches!(resp, Some(Response::Accepted { .. })));
    assert!(store.get("b1").is_some());
    match bridge.expect("the bridge runs for an admitted trigger-kind event in stub mode") {
        BridgeOutcome::Forwarded { info, line } => {
            assert_eq!(info.reducer, "drop_item!");
            assert_eq!(info.args_count, 2);
            assert_eq!(info.fee_text, "0.5");
            assert_eq!(
                line,
                "[BLS STUB] Received kind 30078 from pubkey12...: reducer=drop_item, args_count=2, fee=0.5"
            );
        },
        other => panic!("expected a forwarded outcome, got {:?}", other),
    }
}

#[test]
fn bridge_is_skipped_when_mode_is_not_stub() {
    let mut lim = RateLimiter::new(100, 60);
    let mut store = EventStore::new();
    let frame = r#"["EVENT",{"id":"b1","pubkey":"pk","kind":30078,"content":"{\"reducer\":\"r\",\"args\":[],\"fee\":1}","created_at":1,"tags":[],"sig":"s"}]"#;
    let (resp, bridge) = handle_frame(frame, &mut lim, &mut store, PropagationMode::Disabled, 0);
    assert!(matches!(resp, Some(Response::Accepted { .. })));
    assert!(bridge.is_none());
    assert!(store.get("b1").is_some());
}

#[test]
fn bridge_is_skipped_for_other_kinds() {
    let mut lim = RateLimiter::new(100, 60);
    let mut store = EventStore::new();
    let frame = r#"["EVENT",{"id":"n1","pubkey":"pk","kind":1,"content":"{\"reducer\":\"r\",\"args\":[],\"fee\":1}","created_at":1,"tags":[],"sig":"s"}]"#;
    let (_, bridge) = handle_frame(frame, &mut lim, &mut store, PropagationMode::Stub, 0);
    assert!(bridge.is_none());
}

#[test]
fn bridge_decode_failure_still_stores_and_acknowledges() {
    let mut lim = RateLimiter::new(100, 60);
    let mut store = EventStore::new();
    let frame = r#"["EVENT",{"id":"b2","pubkey":"pk","kind":30078,"content":"oops","created_at":1,"tags":[],"sig":"s"}]"#;
    let (resp, bridge) = handle_frame(frame, &mut lim, &mut store, PropagationMode::Stub, 0);
    assert!(matches!(resp, Some(Response::Accepted { .. })));
    assert!(store.get("b2").is_some());
    match bridge.expect("the bridge still reports on a packet that does not decode") {
        BridgeOutcome::Rejected { error, line } => {
            assert_eq!(error, BridgeDecodeError::NotJson);
            assert_eq!(
                line,
                "[BLS STUB] Failed to decode ILP packet from kind 30078 event from pk: content is not valid JSON"
            );
        },
        other => panic!("expected a rejected outcome, got {:?}", other),
    }
}

#[test]
fn bridge_outcome_reports_redacted_key() {
    let ev = trigger_event("oops");
    match handle_bls_stub(&ev) {
        BridgeOutcome::Rejected { line, .. } => {
            assert!(line.contains("pubkey12..."));
            assert!(!line.contains("pubkey1234567890"));
        },
        other => panic!("expected a rejected outcome, got {:?}", other),
    }
}

#[test]
fn decode_error_variants() {
    assert_eq!(decode_bridge_packet("not json").unwrap_err(), BridgeDecodeError::NotJson);
    assert_eq!(decode_bridge_packet("{}").unwrap_err(), BridgeDecodeError::BadReducer);
    assert_eq!(decode_bridge_packet("[1,2]").unwrap_err(), BridgeDecodeError::BadReducer);
    assert_eq!(
        decode_bridge_packet(r#"{"reducer":5,"args":[],"fee":1}"#).unwrap_err(),
        BridgeDecodeError::BadReducer
    );
    assert_eq!(
        decode_bridge_packet(r#"{"reducer":"r","fee":1}"#).unwrap_err(),
        BridgeDecodeError::BadArgs
    );
    assert_eq!(
        decode_bridge_packet(r#"{"reducer":"r","args":5,"fee":1}"#).unwrap_err(),
        BridgeDecodeError::BadArgs
    );
    assert_eq!(
        decode_bridge_packet(r#"{"reducer":"r","args":[]}"#).unwrap_err(),
        BridgeDecodeError::BadFee
    );
    assert_eq!(
        decode_bridge_packet(r#"{"reducer":"r","args":[],"fee":"x"}"#).unwrap_err(),
        BridgeDecodeError::BadFee
    );
    let ok = decode_bridge_packet(r#"{"reducer":"r","args":[1],"fee":2}"#).unwrap();
    assert_eq!(ok.reducer, "r");
    assert_eq!(ok.args_count, 1);
    assert_eq!(ok.fee_text, "2");
}

#[test]
fn long_publisher_key_is_redacted() {
    assert_eq!(redact_pubkey("pubkey1234567890"), "pubkey12...");
}

#[test]
fn short_publisher_key_is_unchanged() {
    assert_eq!(redact_pubkey("abc123"), "abc123");
    assert_eq!(redact_pubkey("12345678"), "12345678");
    assert_eq!(redact_pubkey("123456789"), "12345678...");
}

#[test]
fn sanitizing_decision_per_character() {
    assert!(reducer_keeps_char('a'));
    assert!(reducer_keeps_char('Z'));
    assert!(reducer_keeps_char('7'));
    assert!(reducer_keeps_char('_'));
    assert!(!reducer_keeps_char('!'));
    assert!(!reducer_keeps_char(' '));
    assert!(!reducer_keeps_char('-'));
    assert!(!reducer_keeps_char(';'));
}

#[test]
fn sanitize_keeps_alphanumerics_and_underscore() {
    assert_eq!(sanitize_reducer("drop_item!"), "drop_item");
    assert_eq!(sanitize_reducer("rm -rf;/"), "rmrf");
    assert_eq!(sanitize_reducer(""), "");
    assert_eq!(sanitize_reducer("Abc_09"), "Abc_09");
}

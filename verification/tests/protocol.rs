use crosstown::dispatch::{handle_frame, mode_from_setting, PropagationMode};
use crosstown::limiter::RateLimiter;
use crosstown::store::EventStore;
use crosstown::wire::{render, Response};

fn fresh() -> (RateLimiter, EventStore) {
    (RateLimiter::new(100, 60), EventStore::new())
}

fn event_frame(id: &str, content: &str) -> String {
    format!(
        r#"["EVENT",{{"id":"{}","pubkey":"pk","kind":1,"content":"{}","created_at":10,"tags":[["t","v"]],"sig":"s"}}]"#,
        id, content
    )
}

#[test]
fn admitted_event_is_stored_and_acknowledged() {
    let (mut lim, mut store) = fresh();
    let frame = event_frame("e1", "hello");
    let (resp, bridge) = handle_frame(&frame, &mut lim, &mut store, PropagationMode::Stub, 0);
    let resp = resp.expect("an admitted event is acknowledged");
    match &resp {
        Response::Accepted { id } => assert_eq!(id, "e1"),
        other => panic!("expected an acknowledgment, got {:?}", other),
    }
    assert_eq!(render(&resp), "[\"OK\",\"e1\",true,\"\"]");
    assert!(bridge.is_none());
    let got = store.get("e1").expect("the event is stored under its identifier");
    assert_eq!(got.id, "e1");
    assert_eq!(got.pubkey, "pk");
    assert_eq!(got.kind, 1);
    assert_eq!(got.content, "hello");
    assert_eq!(got.created_at, 10);
    assert_eq!(got.tags, vec![vec!["t".to_string(), "v".to_string()]]);
    assert_eq!(got.sig, "s");
}

#[test]
fn hundred_first_event_inside_window_is_refused() {
    let (mut lim, mut store) = fresh();
    for i in 0..100u64 {
        let frame = event_frame(&format!("e{}", i), "x");
        let (resp, _) = handle_frame(&frame, &mut lim, &mut store, PropagationMode::Stub, i);
        assert!(matches!(resp, Some(Response::Accepted { .. })));
    }
    let frame = event_frame("late", "x");
    let (resp, bridge) = handle_frame(&frame, &mut lim, &mut store, PropagationMode::Stub, 59_000);
    let resp = resp.expect("a rate-limited event draws a notice");
    assert_eq!(
        render(&resp),
        "[\"NOTICE\",\"Rate limit exceeded. Max 100 events per 60 seconds.\"]"
    );
    assert!(bridge.is_none());
    assert!(store.get("late").is_none());
    assert_eq!(store.len(), 100);
}

#[test]
fn hundred_first_event_after_window_is_admitted() {
    let (mut lim, mut store) = fresh();
    for i in 0..100u64 {
        let frame = event_frame(&format!("e{}", i), "x");
        let (resp, _) = handle_frame(&frame, &mut lim, &mut store, PropagationMode::Stub, i);
        assert!(matches!(resp, Some(Response::Accepted { .. })));
    }
    let frame = event_frame("late", "x");
    let (resp, _) = handle_frame(&frame, &mut lim, &mut store, PropagationMode::Stub, 61_000);
    assert!(matches!(resp, Some(Response::Accepted { .. })));
    assert!(store.get("late").is_some());
}

#[test]
fn req_yields_eose_on_empty_store() {
    let (mut lim, mut store) = fresh();
    let (resp, bridge) =
        handle_frame(r#"["REQ","sub1",{"kinds":[1]}]"#, &mut lim, &mut store, PropagationMode::Stub, 0);
    let resp = resp.expect("a subscription request is acknowledged");
    assert_eq!(render(&resp), "[\"EOSE\",\"sub1\"]");
    assert!(bridge.is_none());
    assert_eq!(store.len(), 0);
}

#[test]
fn req_yields_eose_regardless_of_store_contents() {
    let (mut lim, mut store) = fresh();
    let frame = event_frame("e1", "hello");
    handle_frame(&frame, &mut lim, &mut store, PropagationMode::Stub, 0);
    let (resp, _) = handle_frame(r#"["REQ","sub2"]"#, &mut lim, &mut store, PropagationMode::Stub, 1);
    assert_eq!(render(&resp.unwrap()), "[\"EOSE\",\"sub2\"]");
    assert_eq!(store.len(), 1);
}

#[test]
fn malformed_json_is_silent() {
    let (mut lim, mut store) = fresh();
    let (resp, bridge) =
        handle_frame("this is not json", &mut lim, &mut store, PropagationMode::Stub, 0);
    assert!(resp.is_none());
    assert!(bridge.is_none());
    assert_eq!(store.len(), 0);
    let frame = event_frame("e1", "still alive");
    let (resp, _) = handle_frame(&frame, &mut lim, &mut store, PropagationMode::Stub, 1);
    assert!(matches!(resp, Some(Response::Accepted { .. })));
}

#[test]
fn unknown_command_is_silent() {
    let (mut lim, mut store) = fresh();
    let (resp, bridge) = handle_frame(r#"["PING","x"]"#, &mut lim, &mut store, PropagationMode::Stub, 0);
    assert!(resp.is_none());
    assert!(bridge.is_none());
    assert_eq!(store.len(), 0);
}

#[test]
fn close_is_silent() {
    let (mut lim, mut store) = fresh();
    let (resp, bridge) =
        handle_frame(r#"["CLOSE","sub1"]"#, &mut lim, &mut store, PropagationMode::Stub, 0);
    assert!(resp.is_none());
    assert!(bridge.is_none());
}

#[test]
fn event_missing_required_fields_is_silent() {
    let (mut lim, mut store) = fresh();
    let (resp, bridge) =
        handle_frame(r#"["EVENT",{"id":"x"}]"#, &mut lim, &mut store, PropagationMode::Stub, 0);
    assert!(resp.is_none());
    assert!(bridge.is_none());
    assert_eq!(store.len(), 0);
}

#[test]
fn event_without_payload_is_silent() {
    let (mut lim, mut store) = fresh();
    let (resp, _) = handle_frame(r#"["EVENT"]"#, &mut lim, &mut store, PropagationMode::Stub, 0);
    assert!(resp.is_none());
}

#[test]
fn req_without_subscription_id_is_silent() {
    let (mut lim, mut store) = fresh();
    let (resp, _) = handle_frame(r#"["REQ"]"#, &mut lim, &mut store, PropagationMode::Stub, 0);
    assert!(resp.is_none());
    let (resp, _) = handle_frame(r#"["REQ",5]"#, &mut lim, &mut store, PropagationMode::Stub, 0);
    assert!(resp.is_none());
}

#[test]
fn non_string_first_element_is_silent() {
    let (mut lim, mut store) = fresh();
    let (resp, _) = handle_frame(r#"[5,"x"]"#, &mut lim, &mut store, PropagationMode::Stub, 0);
    assert!(resp.is_none());
    let (resp, _) = handle_frame(r#"[]"#, &mut lim, &mut store, PropagationMode::Stub, 0);
    assert!(resp.is_none());
}

#[test]
fn undecodable_event_does_not_consume_rate_budget() {
    let mut lim = RateLimiter::new(1, 60);
    let mut store = EventStore::new();
    let (resp, _) = handle_frame(r#"["EVENT",{"id":"x"}]"#, &mut lim, &mut store, PropagationMode::Stub, 0);
    assert!(resp.is_none());
    let frame = event_frame("e1", "x");
    let (resp, _) = handle_frame(&frame, &mut lim, &mut store, PropagationMode::Stub, 1);
    assert!(matches!(resp, Some(Response::Accepted { .. })));
}

#[test]
fn duplicate_identifier_last_write_wins() {
    let (mut lim, mut store) = fresh();
    let first = event_frame("dup", "one");
    let second = event_frame("dup", "two");
    let (resp, _) = handle_frame(&first, &mut lim, &mut store, PropagationMode::Stub, 0);
    assert_eq!(render(&resp.unwrap()), "[\"OK\",\"dup\",true,\"\"]");
    let (resp, _) = handle_frame(&second, &mut lim, &mut store, PropagationMode::Stub, 1);
    assert_eq!(render(&resp.unwrap()), "[\"OK\",\"dup\",true,\"\"]");
    assert_eq!(store.len(), 1);
    assert_eq!(store.get("dup").unwrap().content, "two");
}

#[test]
fn mode_selection_from_setting() {
    assert_eq!(mode_from_setting("stub"), PropagationMode::Stub);
    assert_eq!(mode_from_setting("real"), PropagationMode::Disabled);
    assert_eq!(mode_from_setting(""), PropagationMode::Disabled);
}

use qq_gateway::errors::ChannelError;
use qq_gateway::frames::RawFrame;
use qq_gateway::session::SessionState;

fn raw_dispatch(s: Option<u64>, t: Option<&str>) -> RawFrame {
    RawFrame {
        op: Some(0),
        s,
        event_type: t.map(|x| x.to_string()),
        heartbeat_interval: None,
        content: None,
        channel_id: None,
        id: None,
    }
}

#[test]
fn fresh_session_defaults() {
    let s = SessionState::new();
    assert_eq!(s.heartbeat_ms, 40000);
    assert_eq!(s.last_seq, None);
    assert_eq!(s.on_tick(), "{\"d\":null,\"op\":1}");
}

#[test]
fn hello_replaces_the_timer() {
    // A hello with heartbeat_interval = 30000 replaces the active timer:
    // the next heartbeat is measured from its arrival at the new period.
    let mut s = SessionState::new();
    let eff = s
        .on_text("{\"op\":10,\"d\":{\"heartbeat_interval\":30000}}", 1)
        .unwrap();
    assert_eq!(s.heartbeat_ms, 30000);
    assert_eq!(eff.reset_timer_ms, Some(30000));
    assert!(eff.deliver.is_none());
    assert_eq!(s.last_seq, None);
}

#[test]
fn hello_without_interval_changes_nothing() {
    let mut s = SessionState::new();
    let eff = s.on_text("{\"op\":10,\"d\":{}}", 1).unwrap();
    assert_eq!(s.heartbeat_ms, 40000);
    assert_eq!(eff.reset_timer_ms, None);
}

#[test]
fn hello_renegotiates_again_later() {
    let mut s = SessionState::new();
    s.on_text("{\"op\":10,\"d\":{\"heartbeat_interval\":30000}}", 1)
        .unwrap();
    let eff = s
        .on_text("{\"op\":10,\"d\":{\"heartbeat_interval\":5000}}", 2)
        .unwrap();
    assert_eq!(s.heartbeat_ms, 5000);
    assert_eq!(eff.reset_timer_ms, Some(5000));
}

#[test]
fn dispatch_sequence_is_last_write() {
    // Sequence values 5, 3, 9, 7 in that arrival order: the last-seen
    // sequence follows the literal last-write rule, so it ends at 7 and
    // the next heartbeat reports 7.
    let mut s = SessionState::new();
    for v in [5u64, 3, 9, 7] {
        let mut text = String::from("{\"op\":0,\"s\":");
        text.push_str(&v.to_string());
        text.push('}');
        s.on_text(&text, 1).unwrap();
    }
    assert_eq!(s.last_seq, Some(7));
    assert_eq!(s.on_tick(), "{\"d\":7,\"op\":1}");
}

#[test]
fn oversized_sequence_is_ignored() {
    let mut s = SessionState::new();
    s.on_text("{\"op\":0,\"s\":9}", 1).unwrap();
    s.on_text("{\"op\":0,\"s\":4294967296}", 1).unwrap();
    assert_eq!(s.last_seq, Some(9));
    s.on_text("{\"op\":0,\"s\":4294967295}", 1).unwrap();
    assert_eq!(s.last_seq, Some(u32::MAX));
}

#[test]
fn message_create_delivers_one_message() {
    // A dispatch of type AT_MESSAGE_CREATE with content "hi" on channel
    // "c1" with id "m1" produces exactly one normalized message.
    let mut s = SessionState::new();
    let eff = s
        .on_text(
            "{\"op\":0,\"s\":1,\"t\":\"AT_MESSAGE_CREATE\",\"d\":{\"content\":\"hi\",\"channel_id\":\"c1\",\"id\":\"m1\"}}",
            123,
        )
        .unwrap();
    let m = eff.deliver.expect("one message");
    assert_eq!(m.content, "hi");
    assert_eq!(m.sender, "c1");
    assert_eq!(m.id, "m1");
    assert_eq!(m.channel, "qq");
    assert_eq!(m.timestamp, 123);
}

#[test]
fn message_create_alias_also_delivers() {
    let mut s = SessionState::new();
    let eff = s
        .on_text(
            "{\"op\":0,\"t\":\"MESSAGE_CREATE\",\"d\":{\"content\":\"x\",\"channel_id\":\"c\",\"id\":\"i\"}}",
            5,
        )
        .unwrap();
    assert!(eff.deliver.is_some());
}

#[test]
fn missing_payload_fields_get_placeholders() {
    let mut s = SessionState::new();
    let eff = s
        .on_text("{\"op\":0,\"t\":\"AT_MESSAGE_CREATE\",\"d\":{}}", 9)
        .unwrap();
    let m = eff.deliver.expect("one message");
    assert_eq!(m.content, "");
    assert_eq!(m.sender, "unknown");
    assert_eq!(m.id, "unknown");
}

#[test]
fn other_event_types_deliver_nothing() {
    let mut s = SessionState::new();
    let eff = s
        .on_text("{\"op\":0,\"t\":\"GUILD_CREATE\",\"d\":{\"content\":\"x\"}}", 9)
        .unwrap();
    assert!(eff.deliver.is_none());
}

#[test]
fn other_opcodes_are_ignored() {
    let mut s = SessionState::new();
    let eff = s.on_text("{\"op\":11,\"d\":{}}", 9).unwrap();
    assert!(eff.deliver.is_none());
    assert_eq!(eff.reset_timer_ms, None);
    assert_eq!(s.heartbeat_ms, 40000);
    assert_eq!(s.last_seq, None);
}

#[test]
fn malformed_text_is_a_fatal_parse_failure() {
    // A non-JSON text frame terminates the session with a parse failure,
    // not a silently skipped frame, and leaves the state untouched.
    let mut s = SessionState::new();
    s.on_text("{\"op\":0,\"s\":4}", 1).unwrap();
    let r = s.on_text("{oops", 2);
    assert_eq!(r.unwrap_err(), ChannelError::Parse);
    assert_eq!(s.last_seq, Some(4));
    assert_eq!(s.heartbeat_ms, 40000);
}

#[test]
fn non_object_json_does_nothing() {
    let mut s = SessionState::new();
    let eff = s.on_text("5", 1).unwrap();
    assert!(eff.deliver.is_none());
    assert_eq!(eff.reset_timer_ms, None);
}

#[test]
fn apply_frame_directly_follows_the_same_rules() {
    let mut s = SessionState::new();
    let eff = s.apply_frame(&raw_dispatch(Some(42), Some("AT_MESSAGE_CREATE")), 77);
    assert_eq!(s.last_seq, Some(42));
    let m = eff.deliver.expect("one message");
    assert_eq!(m.timestamp, 77);
    assert_eq!(m.channel, "qq");
    let eff2 = s.apply_frame(&raw_dispatch(None, None), 78);
    assert_eq!(s.last_seq, Some(42));
    assert!(eff2.deliver.is_none());
}

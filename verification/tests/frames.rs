use qq_gateway::frames::{heartbeat_frame, identify_frame, INTENTS};
use qq_gateway::textfmt::{json_escape, u64_to_dec};

#[test]
fn decimal_rendering() {
    assert_eq!(u64_to_dec(0), "0");
    assert_eq!(u64_to_dec(7), "7");
    assert_eq!(u64_to_dec(10), "10");
    assert_eq!(u64_to_dec(1073745920), "1073745920");
    assert_eq!(u64_to_dec(u64::MAX), "18446744073709551615");
}

#[test]
fn escape_leaves_plain_text_alone() {
    assert_eq!(json_escape("hello"), "hello");
    assert_eq!(json_escape(""), "");
    assert_eq!(json_escape("héllo ✓"), "héllo ✓");
}

#[test]
fn escape_quotes_and_backslashes() {
    assert_eq!(json_escape("a\"b\\c"), "a\\\"b\\\\c");
}

#[test]
fn escape_control_characters() {
    assert_eq!(json_escape("a\nb\tc\rd"), "a\\nb\\tc\\rd");
    assert_eq!(json_escape("\u{8}\u{c}"), "\\b\\f");
    assert_eq!(json_escape("\u{1}\u{1f}"), "\\u0001\\u001f");
}

#[test]
fn intents_mask_value() {
    // Public guild messages (bit 30) together with direct messages (bit 12).
    assert_eq!(INTENTS, 1073745920);
}

#[test]
fn heartbeat_with_no_sequence_yet() {
    assert_eq!(heartbeat_frame(None), "{\"d\":null,\"op\":1}");
}

#[test]
fn heartbeat_carries_sequence() {
    assert_eq!(heartbeat_frame(Some(7)), "{\"d\":7,\"op\":1}");
    assert_eq!(heartbeat_frame(Some(u32::MAX)), "{\"d\":4294967295,\"op\":1}");
}

#[test]
fn identify_frame_text() {
    let expected = "{\"d\":{\"intents\":1073745920,\"properties\":{\"$browser\":\"zeroclaw\",\"$device\":\"zeroclaw\",\"$os\":\"linux\"},\"shard\":[0,1],\"token\":\"QQBot abc123\"},\"op\":2}";
    assert_eq!(identify_frame("abc123"), expected);
}

#[test]
fn identify_frame_escapes_the_token() {
    let frame = identify_frame("a\"b");
    assert!(frame.contains("\"token\":\"QQBot a\\\"b\""));
}

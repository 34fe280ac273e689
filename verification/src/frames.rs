//! The gateway's frame vocabulary: what this client reads out of an
//! inbound frame document, and the exact text of the frames it sends.
//!
//! An object's members are written in the serializer's sorted key order,
//! which the platform accepts like any other.

use serde_json::Value;
use vstd::prelude::*;
use vstd::string::StringExecFns;
use crate::json::is_json;
use crate::textfmt::{dec_str, json_escape, json_escaped, u64_to_dec};

verus! {

/// The event categories this client subscribes to: public guild messages
/// and direct messages.
pub const INTENTS: u64 = (1u64 << 30) | (1u64 << 12);

/// The fields this client reads out of one inbound frame document: the
/// opcode `op`, the sequence `s`, the event type `t`, and from the payload
/// `d` the heartbeat interval and the message fields. Every absence is kept
/// as `None`; the session's rules decide the defaults.
pub struct RawFrame {
    pub op: Option<u64>,
    pub s: Option<u64>,
    pub event_type: Option<String>,
    pub heartbeat_interval: Option<u64>,
    pub content: Option<String>,
    pub channel_id: Option<String>,
    pub id: Option<String>,
}

/// The `op` member of the document a frame text denotes, when it is an
/// unsigned 64-bit integer.
pub uninterp spec fn op_of(s: Seq<char>) -> Option<u64>;

/// The `s` member of the document a frame text denotes, when it is an
/// unsigned 64-bit integer.
pub uninterp spec fn seq_of(s: Seq<char>) -> Option<u64>;

/// The `t` member of the document a frame text denotes, when it is a
/// string.
pub uninterp spec fn event_type_of(s: Seq<char>) -> Option<Seq<char>>;

/// The `heartbeat_interval` member of the `d` payload of the document a
/// frame text denotes, when it is an unsigned 64-bit integer.
pub uninterp spec fn interval_of(s: Seq<char>) -> Option<u64>;

/// The `content` member of the `d` payload of the document a frame text
/// denotes, when it is a string.
pub uninterp spec fn content_of(s: Seq<char>) -> Option<Seq<char>>;

/// The `channel_id` member of the `d` payload of the document a frame
/// text denotes, when it is a string.
pub uninterp spec fn channel_id_of(s: Seq<char>) -> Option<Seq<char>>;

/// The `id` member of the `d` payload of the document a frame text
/// denotes, when it is a string.
pub uninterp spec fn message_id_of(s: Seq<char>) -> Option<Seq<char>>;

/// The view of an optional string field.
pub open spec fn opt_view(o: Option<String>) -> Option<Seq<char>> {
    match o {
        Some(s) => Some(s@),
        None => None,
    }
}

/// `f` holds exactly the envelope fields of the document `text` denotes:
/// each field is the corresponding named member, absent where the document
/// lacks it or holds it with another type.
pub open spec fn denotes_frame(text: Seq<char>, f: RawFrame) -> bool {
    &&& f.op == op_of(text)
    &&& f.s == seq_of(text)
    &&& opt_view(f.event_type) == event_type_of(text)
    &&& f.heartbeat_interval == interval_of(text)
    &&& opt_view(f.content) == content_of(text)
    &&& opt_view(f.channel_id) == channel_id_of(text)
    &&& opt_view(f.id) == message_id_of(text)
}

/// Relies on serde_json::from_str::<Value>, which accepts exactly the
/// texts that parse as one JSON document, by the text alone, and on
/// Value::get / as_u64 / as_str, which read the named member of the
/// decoded document when it is there with the named type — so each
/// extracted field is a function of the text, stated here through the
/// named members.
#[verifier::external_body]
pub(crate) fn read_frame(text: &str) -> (r: Option<RawFrame>)
    ensures
        r is Some <==> is_json(text@),
        r matches Some(f) ==> (f.op == op_of(text@) && f.s == seq_of(text@) && opt_view(
            f.event_type,
        ) == event_type_of(text@) && f.heartbeat_interval == interval_of(text@) && opt_view(
            f.content,
        ) == content_of(text@) && opt_view(f.channel_id) == channel_id_of(text@) && opt_view(f.id)
            == message_id_of(text@)),
{
    let v: Value = match serde_json::from_str(text) {
        Ok(x) => x,
        Err(_) => return None,
    };
    let null = Value::Null;
    let d = v.get("d").unwrap_or(&null);
    Some(RawFrame {
        op: v.get("op").and_then(Value::as_u64),
        s: v.get("s").and_then(Value::as_u64),
        event_type: v.get("t").and_then(Value::as_str).map(str::to_owned),
        heartbeat_interval: d.get("heartbeat_interval").and_then(Value::as_u64),
        content: d.get("content").and_then(Value::as_str).map(str::to_owned),
        channel_id: d.get("channel_id").and_then(Value::as_str).map(str::to_owned),
        id: d.get("id").and_then(Value::as_str).map(str::to_owned),
    })
}

/// The text of a heartbeat frame: opcode 1, carrying the last-seen
/// sequence number, or null when none has been seen yet.
pub open spec fn heartbeat_text(last_seq: Option<u32>) -> Seq<char> {
    "{\"d\":"@ + (match last_seq {
        Some(n) => dec_str(n as nat),
        None => "null"@,
    }) + ",\"op\":1}"@
}

/// Renders the heartbeat frame carrying `last_seq`.
pub fn heartbeat_frame(last_seq: Option<u32>) -> (r: String)
    ensures
        r@ == heartbeat_text(last_seq),
{
    let mut out = String::from_str("{\"d\":");
    match last_seq {
        Some(n) => {
            let ds = u64_to_dec(n as u64);
            out.append(ds.as_str());
        },
        None => {
            out.append("null");
        },
    }
    out.append(",\"op\":1}");
    proof {
        assert(out@ =~= heartbeat_text(last_seq));
    }
    out
}

/// The text of the identify frame: opcode 2, carrying the fresh credential
/// under the transport's scheme prefix, the fixed subscription bit-mask,
/// the single-shard descriptor, and the client identification metadata.
pub open spec fn identify_text(token: Seq<char>) -> Seq<char> {
    "{\"d\":{\"intents\":"@ + dec_str(INTENTS as nat)
        + ",\"properties\":{\"$browser\":\"zeroclaw\",\"$device\":\"zeroclaw\",\"$os\":\"linux\"},\"shard\":[0,1],\"token\":\"QQBot "@
        + json_escaped(token) + "\"},\"op\":2}"@
}

/// Renders the identify frame for a freshly acquired token.
pub fn identify_frame(token: &str) -> (r: String)
    ensures
        r@ == identify_text(token@),
{
    let mut out = String::from_str("{\"d\":{\"intents\":");
    let i = u64_to_dec(INTENTS);
    out.append(i.as_str());
    out.append(
        ",\"properties\":{\"$browser\":\"zeroclaw\",\"$device\":\"zeroclaw\",\"$os\":\"linux\"},\"shard\":[0,1],\"token\":\"QQBot ",
    );
    let e = json_escape(token);
    out.append(e.as_str());
    out.append("\"},\"op\":2}");
    proof {
        assert(out@ =~= identify_text(token@));
    }
    out
}

} // verus!

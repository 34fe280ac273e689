//! The gateway session's state machine.
//!
//! The long-running loop itself waits on two event sources — a periodic
//! heartbeat timer and the next inbound frame — and performs the sends and
//! the sink delivery. Every decision it takes is made here: what a timer
//! fire emits, and what one inbound text frame does to the session's state
//! and to the consumer.

use vstd::prelude::*;
use vstd::string::StringExecFns;
use crate::errors::ChannelError;
use crate::frames::{RawFrame, denotes_frame, heartbeat_frame, heartbeat_text, read_frame};
use crate::json::is_json;
use crate::message::ChannelMessage;

verus! {

/// The connection state owned by the event loop: the current heartbeat
/// period in milliseconds and the last-seen sequence number, unset until
/// the first dispatch frame carries one.
#[derive(Debug)]
pub struct SessionState {
    pub heartbeat_ms: u64,
    pub last_seq: Option<u32>,
}

/// What one inbound frame asks the loop to do besides updating the state:
/// restart the heartbeat timer at a new period, and deliver one normalized
/// message to the consumer sink.
#[derive(Debug)]
pub struct FrameEffect {
    pub reset_timer_ms: Option<u64>,
    pub deliver: Option<ChannelMessage>,
}

/// The opcode of a frame; a frame that carries none counts as a dispatch.
pub open spec fn frame_op(f: RawFrame) -> u64 {
    match f.op {
        Some(o) => o,
        None => 0,
    }
}

/// The frame's event type names a message-creation event, under either of
/// the platform's two aliases.
pub open spec fn is_message_event(f: RawFrame) -> bool {
    f.event_type matches Some(t) && (t@ == "AT_MESSAGE_CREATE"@ || t@ == "MESSAGE_CREATE"@)
}

/// An optional payload field, defaulting to empty when absent.
pub open spec fn str_or_empty(o: Option<String>) -> Seq<char> {
    match o {
        Some(s) => s@,
        None => Seq::<char>::empty(),
    }
}

/// An optional payload field, defaulting to the "unknown" placeholder when
/// absent.
pub open spec fn str_or_unknown(o: Option<String>) -> Seq<char> {
    match o {
        Some(s) => s@,
        None => "unknown"@,
    }
}

/// The last-seen sequence after one frame: a dispatch frame whose `s` fits
/// the unsigned 32-bit range overwrites it — the literal last-write rule —
/// and every other frame leaves it alone.
pub open spec fn seq_after(pre: Option<u32>, f: RawFrame) -> Option<u32> {
    match f.s {
        Some(s) => if frame_op(f) == 0 && s <= u32::MAX {
            Some(s as u32)
        } else {
            pre
        },
        None => pre,
    }
}

/// `m` is the one normalized message a qualifying dispatch frame produces:
/// content defaulting to empty, channel and message identifiers defaulting
/// to the "unknown" placeholder, the fixed channel tag, and the instant the
/// frame was processed.
pub open spec fn delivers_message(f: RawFrame, now: u64, m: ChannelMessage) -> bool {
    &&& m.id@ == str_or_unknown(f.id)
    &&& m.sender@ == str_or_unknown(f.channel_id)
    &&& m.content@ == str_or_empty(f.content)
    &&& m.channel@ == "qq"@
    &&& m.timestamp == now
}

/// Everything one inbound frame does: how the state moves and what effect
/// the loop is asked to perform.
pub open spec fn apply_rel(
    pre: SessionState,
    f: RawFrame,
    now: u64,
    post: SessionState,
    eff: FrameEffect,
) -> bool {
    &&& post.last_seq == seq_after(pre.last_seq, f)
    &&& post.heartbeat_ms == (match f.heartbeat_interval {
        Some(ms) => if frame_op(f) == 10 {
            ms
        } else {
            pre.heartbeat_ms
        },
        None => pre.heartbeat_ms,
    })
    &&& eff.reset_timer_ms == (if frame_op(f) == 10 {
        f.heartbeat_interval
    } else {
        None::<u64>
    })
    &&& (if frame_op(f) == 0 && is_message_event(f) {
        eff.deliver matches Some(m) && delivers_message(f, now, m)
    } else {
        eff.deliver is None
    })
}

impl SessionState {
    /// A fresh connection: the conservative 40-second placeholder period,
    /// no sequence seen yet.
    pub fn new() -> (r: Self)
        ensures
            r.heartbeat_ms == 40000,
            r.last_seq is None,
    {
        SessionState { heartbeat_ms: 40000, last_seq: None }
    }

    /// What a timer fire sends: a heartbeat frame carrying the most
    /// recently observed sequence number at that moment.
    pub fn on_tick(&self) -> (r: String)
        ensures
            r@ == heartbeat_text(self.last_seq),
    {
        heartbeat_frame(self.last_seq)
    }

    /// Applies one inbound frame's fields to the session.
    pub fn apply_frame(&mut self, f: &RawFrame, now: u64) -> (eff: FrameEffect)
        ensures
            apply_rel(*old(self), *f, now, *final(self), eff),
    {
        let op = match f.op {
            Some(o) => o,
            None => 0,
        };
        let mut reset: Option<u64> = None;
        if op == 10 {
            match f.heartbeat_interval {
                Some(ms) => {
                    self.heartbeat_ms = ms;
                    reset = Some(ms);
                },
                None => {},
            }
        }
        let mut deliver: Option<ChannelMessage> = None;
        if op == 0 {
            match f.s {
                Some(s) => {
                    if s <= 0xFFFF_FFFF {
                        self.last_seq = Some(s as u32);
                    }
                },
                None => {},
            }
            let is_msg = match &f.event_type {
                Some(t) => *t == String::from_str("AT_MESSAGE_CREATE") || *t == String::from_str(
                    "MESSAGE_CREATE",
                ),
                None => false,
            };
            if is_msg {
                let id = match &f.id {
                    Some(s) => s.clone(),
                    None => String::from_str("unknown"),
                };
                let sender = match &f.channel_id {
                    Some(s) => s.clone(),
                    None => String::from_str("unknown"),
                };
                let content = match &f.content {
                    Some(s) => s.clone(),
                    None => String::new(),
                };
                deliver = Some(
                    ChannelMessage {
                        id,
                        sender,
                        content,
                        channel: String::from_str("qq"),
                        timestamp: now,
                    },
                );
            }
        }
        FrameEffect { reset_timer_ms: reset, deliver }
    }

    /// Handles one inbound text frame: decodes it, and applies it. A text
    /// that is not JSON is fatal — the session ends with a parse failure,
    /// not a silently skipped frame — and leaves the state untouched. A
    /// JSON text moves the state and yields the effect that `apply_rel`
    /// fixes for the envelope fields the text denotes.
    pub fn on_text(&mut self, text: &str, now: u64) -> (r: Result<FrameEffect, ChannelError>)
        ensures
            !is_json(text@) ==> (r == Err::<FrameEffect, ChannelError>(ChannelError::Parse)
                && *final(self) == *old(self)),
            is_json(text@) ==> (r matches Ok(eff) && exists|f: RawFrame|
                denotes_frame(text@, f) && apply_rel(*old(self), f, now, *final(self), eff)),
    {
        match read_frame(text) {
            Some(f) => {
                let eff = self.apply_frame(&f, now);
                proof {
                    assert(denotes_frame(text@, f) && apply_rel(*old(self), f, now, *self, eff));
                }
                Ok(eff)
            },
            None => Err(ChannelError::Parse),
        }
    }
}

/// Law: a hello frame carrying a heartbeat interval replaces the active
/// timer — the session's period becomes the announced interval and the
/// loop is told to restart its timer at that period, so the next heartbeat
/// is measured from the hello's arrival — and nothing else changes.
pub proof fn lemma_hello_resets_timer(
    pre: SessionState,
    f: RawFrame,
    now: u64,
    post: SessionState,
    eff: FrameEffect,
    ms: u64,
)
    requires
        apply_rel(pre, f, now, post, eff),
        f.op == Some(10u64),
        f.heartbeat_interval == Some(ms),
    ensures
        post.heartbeat_ms == ms,
        eff.reset_timer_ms == Some(ms),
        post.last_seq == pre.last_seq,
        eff.deliver is None,
{
}

/// Law: a dispatch frame whose sequence number fits the unsigned 32-bit
/// range always overwrites the last-seen sequence — the literal last-write
/// rule, whatever was seen before — and the next heartbeat carries exactly
/// that number.
pub proof fn lemma_dispatch_last_write(
    pre: SessionState,
    f: RawFrame,
    now: u64,
    post: SessionState,
    eff: FrameEffect,
    s: u64,
)
    requires
        apply_rel(pre, f, now, post, eff),
        f.op == Some(0u64) || f.op is None,
        f.s == Some(s),
        s <= u32::MAX,
    ensures
        post.last_seq == Some(s as u32),
        post.heartbeat_ms == pre.heartbeat_ms,
        heartbeat_text(post.last_seq) == heartbeat_text(Some(s as u32)),
{
}

/// Law: a dispatch frame named as a message-creation event yields exactly
/// one normalized message, with the documented defaults for absent payload
/// fields, the fixed channel tag, and the instant it was processed; a
/// dispatch frame named otherwise yields none.
pub proof fn lemma_message_event_delivers(
    pre: SessionState,
    f: RawFrame,
    now: u64,
    post: SessionState,
    eff: FrameEffect,
)
    requires
        apply_rel(pre, f, now, post, eff),
        frame_op(f) == 0,
    ensures
        is_message_event(f) ==> (eff.deliver matches Some(m) && delivers_message(f, now, m)),
        !is_message_event(f) ==> eff.deliver is None,
{
}

} // verus!

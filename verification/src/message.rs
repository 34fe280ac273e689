//! The normalized message handed to the consumer sink.

use vstd::prelude::*;

verus! {

/// One inbound platform event, normalized: produced once per qualifying
/// dispatch frame, immutable after creation, handed off by value.
#[derive(Clone, Debug, PartialEq)]
pub struct ChannelMessage {
    /// The platform's message identifier.
    pub id: String,
    /// The channel the message arrived on, used as the reply recipient.
    pub sender: String,
    /// The textual content of the message.
    pub content: String,
    /// The fixed tag of this channel implementation.
    pub channel: String,
    /// Seconds since the epoch at the moment the frame was processed.
    pub timestamp: u64,
}

} // verus!

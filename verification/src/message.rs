//! An older message shape kept for callers that only track a streamer's
//! login name rather than the full id/login pair.

use vstd::prelude::*;

verus! {

/// The kind of stream-status change a message reports.
#[derive(Debug, Clone, Copy, PartialEq, Eq, Structural)]
pub enum MessageType {
    TwitchStreamOnline,
    TwitchStreamOffline,
}

/// A stream-status event identified by the streamer's login name alone.
#[derive(Debug, Clone)]
pub struct Message {
    pub message_type: MessageType,
    pub streamer: String,
}

} // verus!

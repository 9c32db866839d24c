//! Messages carried from the event-feed task to the chat-side reconciler.

use vstd::prelude::*;

verus! {

/// The kind of stream-status change a message reports.
#[derive(Debug, Clone, Copy, PartialEq, Eq, Structural)]
pub enum MessageType {
    TwitchStreamOnline,
    TwitchStreamOffline,
}

/// One stream-status event, produced once per feed notification and
/// consumed exactly once by the reconciler.
#[derive(Debug, Clone)]
pub struct InterComm {
    pub message_type: MessageType,
    pub streamer_user_id: String,
    pub streamer_user_login: String,
}

/// Mathematical image of an [`InterComm`]: the same fields with strings
/// taken as character sequences.
pub struct InterCommView {
    pub message_type: MessageType,
    pub streamer_user_id: Seq<char>,
    pub streamer_user_login: Seq<char>,
}

impl View for InterComm {
    type V = InterCommView;

    open spec fn view(&self) -> InterCommView {
        InterCommView {
            message_type: self.message_type,
            streamer_user_id: self.streamer_user_id@,
            streamer_user_login: self.streamer_user_login@,
        }
    }
}

} // verus!

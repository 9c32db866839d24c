//! Static configuration: which chat accounts pair with which streaming
//! accounts, where the watcher operates, and the "live" room name.
//!
//! Account ids are held as plain integers; both must be non-zero in a
//! well-formed configuration.

use vstd::prelude::*;

verus! {

/// One monitored pairing of a streaming account and a chat account.
#[derive(Debug, Clone, Copy)]
pub struct TwitchUser {
    pub twitch_channel_id: u64,
    pub discord_id: u64,
}

impl TwitchUser {
    /// Account ids are never zero.
    pub open spec fn wf(&self) -> bool {
        self.twitch_channel_id != 0 && self.discord_id != 0
    }
}

/// Settings of the stream watcher: where it operates, whom it monitors,
/// and the name given to a room while a stream is live.
#[derive(Debug, Clone)]
pub struct TwitchWatcher {
    pub servers: Vec<u64>,
    pub channels: Vec<TwitchUser>,
    pub renamed_channel_name: String,
    pub enabled: bool,
}

impl TwitchWatcher {
    /// Every monitored pairing is well formed.
    pub open spec fn wf(&self) -> bool {
        forall|i: int| 0 <= i < self.channels@.len() ==> (#[trigger] self.channels@[i]).wf()
    }
}

/// Full static configuration of the bot.
#[derive(Debug, Clone)]
pub struct Config {
    pub activity_messages: Vec<String>,
    pub question_answers: Vec<String>,
    pub random_answers: Vec<String>,
    pub trusted_users: Vec<u64>,
    pub twitch_watcher: TwitchWatcher,
}

} // verus!

//! The shared presence store: the monitored users, what is known of their
//! voice rooms and live status, and the record of rooms the bot has renamed.
//!
//! Every component reaches this state only through the operations here;
//! at run time one writer at a time holds the store (the caller's lock
//! discipline), so each operation is one atomic step. Each operation is
//! specified against [`StoreModel`], the mathematical image of the store.

use vstd::prelude::*;

use crate::config::{TwitchUser, TwitchWatcher};

verus! {

/// One monitored user and what is currently known about them.
#[derive(Debug, Clone, Copy)]
pub struct User {
    pub discord_id: u64,
    /// The room the user was last seen in, if any.
    pub current_channel_id: Option<u64>,
    /// Set once a voice-presence event (or a successful scan) has placed
    /// the user; afterwards `current_channel_id` is authoritative.
    pub has_been_part_of_voice_state_event: bool,
    pub twitch_id: u64,
    /// `None` until the first status event arrives.
    pub twitch_is_streaming: Option<bool>,
}

/// The record of a room the bot has renamed: its id and the name to
/// restore. At most one record per room exists at any time, and its
/// presence means the room currently carries the live name.
#[derive(Debug, Clone)]
pub struct Channel {
    pub channel_id: u64,
    pub original_name: String,
}

/// Mathematical image of a rename record.
#[verifier::ext_equal]
pub struct ChannelView {
    pub channel_id: u64,
    pub original_name: Seq<char>,
}

impl View for Channel {
    type V = ChannelView;

    open spec fn view(&self) -> ChannelView {
        ChannelView { channel_id: self.channel_id, original_name: self.original_name@ }
    }
}

/// Whether some user in `s` carries this streaming id.
pub open spec fn has_twitch(s: Seq<User>, twitch_id: u64) -> bool {
    exists|i: int| 0 <= i < s.len() && (#[trigger] s[i]).twitch_id == twitch_id
}

/// The index of the user carrying this streaming id (unique in a
/// well-formed store).
pub open spec fn twitch_index(s: Seq<User>, twitch_id: u64) -> int {
    choose|i: int| 0 <= i < s.len() && (#[trigger] s[i]).twitch_id == twitch_id
}

/// Whether some user in `s` carries this chat id.
pub open spec fn has_discord(s: Seq<User>, discord_id: u64) -> bool {
    exists|i: int| 0 <= i < s.len() && (#[trigger] s[i]).discord_id == discord_id
}

/// The index of the user carrying this chat id (unique in a well-formed
/// store).
pub open spec fn discord_index(s: Seq<User>, discord_id: u64) -> int {
    choose|i: int| 0 <= i < s.len() && (#[trigger] s[i]).discord_id == discord_id
}

/// Whether a rename record exists for this room.
pub open spec fn has_channel(s: Seq<ChannelView>, channel_id: u64) -> bool {
    exists|i: int| 0 <= i < s.len() && (#[trigger] s[i]).channel_id == channel_id
}

/// The index of the rename record for this room (unique in a well-formed
/// store).
pub open spec fn channel_index(s: Seq<ChannelView>, channel_id: u64) -> int {
    choose|i: int| 0 <= i < s.len() && (#[trigger] s[i]).channel_id == channel_id
}

/// Whether some user known to be in this room is live.
pub open spec fn has_live_in(s: Seq<User>, channel_id: u64) -> bool {
    exists|i: int|
        0 <= i < s.len() && (#[trigger] s[i]).current_channel_id == Some(channel_id)
            && s[i].twitch_is_streaming == Some(true)
}

/// The users of `s` known to be in this room, in store order.
pub open spec fn users_in(s: Seq<User>, channel_id: u64) -> Seq<User>
    decreases s.len(),
{
    if s.len() == 0 {
        Seq::empty()
    } else {
        let prev = users_in(s.drop_last(), channel_id);
        if s.last().current_channel_id == Some(channel_id) {
            prev.push(s.last())
        } else {
            prev
        }
    }
}

/// How many users of `s` are currently live.
pub open spec fn live_count(s: Seq<User>) -> nat
    decreases s.len(),
{
    if s.len() == 0 {
        0
    } else {
        live_count(s.drop_last()) + if s.last().twitch_is_streaming == Some(true) {
            1nat
        } else {
            0nat
        }
    }
}

/// The users the watcher starts with, built from the configured pairings
/// left to right. A pairing whose chat id or streaming id was already
/// taken by an earlier pairing is skipped: the store keys users by both
/// ids, so the first pairing wins (the configuration is assumed to map
/// one streaming account to one chat account).
pub open spec fn initial_users(cfg: Seq<TwitchUser>) -> Seq<User>
    decreases cfg.len(),
{
    if cfg.len() == 0 {
        Seq::empty()
    } else {
        let prev = initial_users(cfg.drop_last());
        let c = cfg.last();
        if has_discord(prev, c.discord_id) || has_twitch(prev, c.twitch_channel_id) {
            prev
        } else {
            prev.push(
                User {
                    discord_id: c.discord_id,
                    current_channel_id: None,
                    has_been_part_of_voice_state_event: false,
                    twitch_id: c.twitch_channel_id,
                    twitch_is_streaming: None,
                },
            )
        }
    }
}

/// What `set_live` reports of its atomic check-and-set.
#[derive(Debug, Clone, Copy, PartialEq, Eq, Structural)]
pub enum SetLiveOutcome {
    /// No monitored user carries the streaming id; nothing was touched.
    Unknown,
    /// The user already had this live status; nothing was touched.
    Unchanged,
    /// The live flag was flipped; the user's chat id is reported so the
    /// caller can go on to the rename decision.
    Changed { discord_id: u64 },
}

/// Mathematical image of the whole store.
#[verifier::ext_equal]
pub struct StoreModel {
    pub channels: Seq<ChannelView>,
    pub users: Seq<User>,
    pub renamed_channel_name: Seq<char>,
    pub enabled: bool,
    pub servers: Seq<u64>,
}

impl StoreModel {
    /// Users are keyed by chat id and by streaming id, and rooms carry at
    /// most one rename record.
    pub open spec fn wf(&self) -> bool {
        &&& forall|i: int, j: int|
            #![trigger self.users[i], self.users[j]]
            0 <= i < j < self.users.len() ==> self.users[i].discord_id != self.users[j].discord_id
        &&& forall|i: int, j: int|
            #![trigger self.users[i], self.users[j]]
            0 <= i < j < self.users.len() ==> self.users[i].twitch_id != self.users[j].twitch_id
        &&& forall|i: int, j: int|
            #![trigger self.channels[i], self.channels[j]]
            0 <= i < j < self.channels.len() ==> self.channels[i].channel_id
                != self.channels[j].channel_id
    }

    /// The check-and-set of a user's live flag: what state it leaves and
    /// what it reports.
    pub open spec fn set_live(self, twitch_id: u64, is_live: bool) -> (Self, SetLiveOutcome) {
        if !has_twitch(self.users, twitch_id) {
            (self, SetLiveOutcome::Unknown)
        } else {
            let idx = twitch_index(self.users, twitch_id);
            if self.users[idx].twitch_is_streaming == Some(is_live) {
                (self, SetLiveOutcome::Unchanged)
            } else {
                (
                    StoreModel {
                        users: self.users.update(
                            idx,
                            User { twitch_is_streaming: Some(is_live), ..self.users[idx] },
                        ),
                        ..self
                    },
                    SetLiveOutcome::Changed { discord_id: self.users[idx].discord_id },
                )
            }
        }
    }

    /// Placing a user in a room (or in no room), with the placed mark set.
    pub open spec fn mark_presence(self, discord_id: u64, channel_id: Option<u64>) -> Self {
        if !has_discord(self.users, discord_id) {
            self
        } else {
            let idx = discord_index(self.users, discord_id);
            StoreModel {
                users: self.users.update(
                    idx,
                    User {
                        current_channel_id: channel_id,
                        has_been_part_of_voice_state_event: true,
                        ..self.users[idx]
                    },
                ),
                ..self
            }
        }
    }

    /// Storing a rename record (replacing the room's previous one, if any).
    pub open spec fn record_rename(self, channel_id: u64, original_name: Seq<char>) -> Self {
        let record = ChannelView { channel_id, original_name };
        if has_channel(self.channels, channel_id) {
            StoreModel {
                channels: self.channels.update(channel_index(self.channels, channel_id), record),
                ..self
            }
        } else {
            StoreModel { channels: self.channels.push(record), ..self }
        }
    }

    /// Taking a room's rename record out.
    pub open spec fn clear_rename(self, channel_id: u64) -> (Self, Option<Seq<char>>) {
        if has_channel(self.channels, channel_id) {
            let idx = channel_index(self.channels, channel_id);
            (
                StoreModel { channels: self.channels.remove(idx), ..self },
                Some(self.channels[idx].original_name),
            )
        } else {
            (self, None)
        }
    }
}

/// The shared state of the stream watcher.
#[derive(Debug, Clone)]
pub struct DiscordTwitchWatcher {
    /// Rooms currently renamed by the bot, with their original names.
    pub channels: Vec<Channel>,
    /// The monitored users; fixed set after startup, mutable fields.
    pub users: Vec<User>,
    /// The name given to a room while an occupant streams.
    pub renamed_channel_name: String,
    pub enabled: bool,
    /// The chat servers whose voice occupancy may be scanned.
    pub servers: Vec<u64>,
}

impl View for DiscordTwitchWatcher {
    type V = StoreModel;

    open spec fn view(&self) -> StoreModel {
        StoreModel {
            channels: self.channels@.map_values(|c: Channel| c@),
            users: self.users@,
            renamed_channel_name: self.renamed_channel_name@,
            enabled: self.enabled,
            servers: self.servers@,
        }
    }
}

impl DiscordTwitchWatcher {
    /// Builds the startup state from the static configuration: every
    /// configured pairing becomes a user with nothing yet observed, no
    /// room is renamed.
    pub fn new(watcher: &TwitchWatcher) -> (w: Self)
        ensures
            w@.users == initial_users(watcher.channels@),
            w@.channels =~= Seq::<ChannelView>::empty(),
            w@.renamed_channel_name == watcher.renamed_channel_name@,
            w@.enabled == watcher.enabled,
            w@.servers == watcher.servers@,
            w@.wf(),
    {
        let n = watcher.channels.len();
        let mut users: Vec<User> = Vec::new();
        let mut i: usize = 0;
        while i < n
            invariant
                0 <= i <= n == watcher.channels@.len(),
                users@ == initial_users(watcher.channels@.take(i as int)),
                forall|a: int, b: int|
                    #![trigger users@[a], users@[b]]
                    0 <= a < b < users@.len() ==> users@[a].discord_id != users@[b].discord_id,
                forall|a: int, b: int|
                    #![trigger users@[a], users@[b]]
                    0 <= a < b < users@.len() ==> users@[a].twitch_id != users@[b].twitch_id,
            decreases n - i,
        {
            let c = watcher.channels[i];
            proof {
                assert(watcher.channels@.take(i + 1).drop_last() =~= watcher.channels@.take(
                    i as int,
                ));
                assert(watcher.channels@.take(i + 1).last() == watcher.channels@[i as int]);
            }
            if !vec_has_discord(&users, c.discord_id) && !vec_has_twitch(
                &users,
                c.twitch_channel_id,
            ) {
                users.push(
                    User {
                        discord_id: c.discord_id,
                        current_channel_id: None,
                        has_been_part_of_voice_state_event: false,
                        twitch_id: c.twitch_channel_id,
                        twitch_is_streaming: None,
                    },
                );
            }
            i = i + 1;
        }
        proof {
            assert(watcher.channels@.take(n as int) =~= watcher.channels@);
        }
        let servers = copy_ids(&watcher.servers);
        let w = DiscordTwitchWatcher {
            channels: Vec::new(),
            users,
            renamed_channel_name: watcher.renamed_channel_name.clone(),
            enabled: watcher.enabled,
            servers,
        };
        proof {
            assert(w@.channels =~= Seq::<ChannelView>::empty());
        }
        w
    }

    /// Looks a user up by streaming id.
    pub fn find_user_by_twitch_id(&self, twitch_id: u64) -> (r: Option<&User>)
        requires
            self@.wf(),
        ensures
            r is Some <==> has_twitch(self@.users, twitch_id),
            r matches Some(u) ==> {
                &&& 0 <= twitch_index(self@.users, twitch_id) < self@.users.len()
                &&& *u == self@.users[twitch_index(self@.users, twitch_id)]
                &&& u.twitch_id == twitch_id
            },
    {
        let n = self.users.len();
        let mut i: usize = 0;
        while i < n
            invariant
                0 <= i <= n == self.users@.len(),
                forall|k: int| 0 <= k < i ==> (#[trigger] self.users@[k]).twitch_id != twitch_id,
                self@.wf(),
            decreases n - i,
        {
            if self.users[i].twitch_id == twitch_id {
                proof {
                    let ch = twitch_index(self@.users, twitch_id);
                    assert(0 <= ch < self@.users.len() && self@.users[ch].twitch_id == twitch_id);
                }
                return Some(&self.users[i]);
            }
            i = i + 1;
        }
        None
    }

    /// Looks a user up by chat id.
    pub fn find_user_by_discord_id(&self, discord_id: u64) -> (r: Option<&User>)
        requires
            self@.wf(),
        ensures
            r is Some <==> has_discord(self@.users, discord_id),
            r matches Some(u) ==> {
                &&& 0 <= discord_index(self@.users, discord_id) < self@.users.len()
                &&& *u == self@.users[discord_index(self@.users, discord_id)]
                &&& u.discord_id == discord_id
            },
    {
        let n = self.users.len();
        let mut i: usize = 0;
        while i < n
            invariant
                0 <= i <= n == self.users@.len(),
                forall|k: int| 0 <= k < i ==> (#[trigger] self.users@[k]).discord_id != discord_id,
                self@.wf(),
            decreases n - i,
        {
            if self.users[i].discord_id == discord_id {
                proof {
                    let ch = discord_index(self@.users, discord_id);
                    assert(0 <= ch < self@.users.len() && self@.users[ch].discord_id == discord_id);
                }
                return Some(&self.users[i]);
            }
            i = i + 1;
        }
        None
    }

    /// The users known to be in the given room, in store order.
    pub fn find_user_in_channel(&self, channel_id: u64) -> (r: Vec<User>)
        ensures
            r@ == users_in(self@.users, channel_id),
    {
        let n = self.users.len();
        let mut found: Vec<User> = Vec::new();
        let mut i: usize = 0;
        while i < n
            invariant
                0 <= i <= n == self.users@.len(),
                found@ == users_in(self.users@.take(i as int), channel_id),
            decreases n - i,
        {
            proof {
                assert(self.users@.take(i + 1).drop_last() =~= self.users@.take(i as int));
                assert(self.users@.take(i + 1).last() == self.users@[i as int]);
            }
            let u = self.users[i];
            match u.current_channel_id {
                Some(c) if c == channel_id => found.push(u),
                _ => (),
            }
            i = i + 1;
        }
        proof {
            assert(self.users@.take(n as int) =~= self.users@);
        }
        found
    }

    /// Whether some user known to be in the room is live right now.
    pub fn has_live_user_in_channel(&self, channel_id: u64) -> (r: bool)
        ensures
            r == has_live_in(self@.users, channel_id),
    {
        let n = self.users.len();
        let mut i: usize = 0;
        while i < n
            invariant
                0 <= i <= n == self.users@.len(),
                forall|k: int|
                    0 <= k < i ==> !((#[trigger] self.users@[k]).current_channel_id == Some(
                        channel_id,
                    ) && self.users@[k].twitch_is_streaming == Some(true)),
            decreases n - i,
        {
            let u = &self.users[i];
            let in_room = match u.current_channel_id {
                Some(c) => c == channel_id,
                None => false,
            };
            let live = match u.twitch_is_streaming {
                Some(l) => l,
                None => false,
            };
            if in_room && live {
                return true;
            }
            i = i + 1;
        }
        false
    }

    /// How many monitored users are live right now.
    pub fn streaming_user_count(&self) -> (n: usize)
        ensures
            n == live_count(self@.users),
    {
        let len = self.users.len();
        let mut count: usize = 0;
        let mut i: usize = 0;
        while i < len
            invariant
                0 <= i <= len == self.users@.len(),
                count == live_count(self.users@.take(i as int)),
                count <= i,
            decreases len - i,
        {
            proof {
                assert(self.users@.take(i + 1).drop_last() =~= self.users@.take(i as int));
                assert(self.users@.take(i + 1).last() == self.users@[i as int]);
            }
            let live = match self.users[i].twitch_is_streaming {
                Some(l) => l,
                None => false,
            };
            if live {
                count = count + 1;
            }
            i = i + 1;
        }
        proof {
            assert(self.users@.take(len as int) =~= self.users@);
        }
        count
    }

    /// Records where a user is: sets the room and marks the user as
    /// placed. Reports whether the chat id is monitored at all; an
    /// unmonitored id changes nothing.
    pub fn mark_presence(&mut self, discord_id: u64, channel_id: Option<u64>) -> (known: bool)
        requires
            old(self)@.wf(),
        ensures
            final(self)@.wf(),
            known == has_discord(old(self)@.users, discord_id),
            final(self)@ == old(self)@.mark_presence(discord_id, channel_id),
    {
        let n = self.users.len();
        let mut i: usize = 0;
        while i < n
            invariant
                0 <= i <= n == self.users@.len(),
                forall|k: int| 0 <= k < i ==> (#[trigger] self.users@[k]).discord_id != discord_id,
                self@.wf(),
                *self == *old(self),
            decreases n - i,
        {
            if self.users[i].discord_id == discord_id {
                proof {
                    let ch = discord_index(self@.users, discord_id);
                    assert(0 <= ch < self@.users.len() && self@.users[ch].discord_id == discord_id);
                }
                let updated = User {
                    current_channel_id: channel_id,
                    has_been_part_of_voice_state_event: true,
                    ..self.users[i]
                };
                self.users.set(i, updated);
                proof {
                    assert(self@ =~= old(self)@.mark_presence(discord_id, channel_id));
                }
                return true;
            }
            i = i + 1;
        }
        false
    }

    /// The atomic check-and-set of a user's live status, keyed by
    /// streaming id. Flips the flag only when it actually changes, so a
    /// duplicate notification reports `Unchanged` and mutates nothing.
    pub fn set_live(&mut self, twitch_id: u64, is_live: bool) -> (r: SetLiveOutcome)
        requires
            old(self)@.wf(),
        ensures
            final(self)@.wf(),
            (final(self)@, r) == old(self)@.set_live(twitch_id, is_live),
    {
        let n = self.users.len();
        let mut i: usize = 0;
        while i < n
            invariant
                0 <= i <= n == self.users@.len(),
                forall|k: int| 0 <= k < i ==> (#[trigger] self.users@[k]).twitch_id != twitch_id,
                self@.wf(),
                *self == *old(self),
            decreases n - i,
        {
            if self.users[i].twitch_id == twitch_id {
                proof {
                    let ch = twitch_index(self@.users, twitch_id);
                    assert(0 <= ch < self@.users.len() && self@.users[ch].twitch_id == twitch_id);
                }
                let u = self.users[i];
                let same = match u.twitch_is_streaming {
                    Some(l) => l == is_live,
                    None => false,
                };
                if same {
                    return SetLiveOutcome::Unchanged;
                }
                let updated = User { twitch_is_streaming: Some(is_live), ..u };
                self.users.set(i, updated);
                proof {
                    assert(self@ =~= old(self)@.set_live(twitch_id, is_live).0);
                }
                return SetLiveOutcome::Changed { discord_id: u.discord_id };
            }
            i = i + 1;
        }
        SetLiveOutcome::Unknown
    }

    /// Whether the room currently carries a rename record.
    pub fn has_renamed_channel(&self, channel_id: u64) -> (r: bool)
        ensures
            r == has_channel(self@.channels, channel_id),
    {
        let n = self.channels.len();
        let mut i: usize = 0;
        while i < n
            invariant
                0 <= i <= n == self.channels@.len(),
                forall|k: int|
                    0 <= k < i ==> (#[trigger] self.channels@[k]).channel_id != channel_id,
            decreases n - i,
        {
            if self.channels[i].channel_id == channel_id {
                proof {
                    assert(self@.channels[i as int].channel_id == channel_id);
                }
                return true;
            }
            i = i + 1;
        }
        proof {
            if has_channel(self@.channels, channel_id) {
                let k = channel_index(self@.channels, channel_id);
                assert(0 <= k < self@.channels.len() && self@.channels[k].channel_id == channel_id);
                assert(self.channels@[k].channel_id == channel_id);
            }
        }
        false
    }

    /// Stores the rename record for a room; a record already present for
    /// the room is replaced (the room keeps one record at most).
    pub fn record_rename(&mut self, channel_id: u64, original_name: String)
        requires
            old(self)@.wf(),
        ensures
            final(self)@.wf(),
            final(self)@ == old(self)@.record_rename(channel_id, original_name@),
    {
        let n = self.channels.len();
        let mut i: usize = 0;
        while i < n
            invariant
                0 <= i <= n == self.channels@.len(),
                forall|k: int|
                    0 <= k < i ==> (#[trigger] self.channels@[k]).channel_id != channel_id,
                self@.wf(),
                *self == *old(self),
            decreases n - i,
        {
            if self.channels[i].channel_id == channel_id {
                proof {
                    assert(self@.channels[i as int].channel_id == channel_id);
                    let ch = channel_index(self@.channels, channel_id);
                    assert(0 <= ch < self@.channels.len() && self@.channels[ch].channel_id
                        == channel_id);
                }
                self.channels.set(i, Channel { channel_id, original_name });
                proof {
                    assert(self@ =~= old(self)@.record_rename(channel_id, original_name@));
                }
                return ;
            }
            i = i + 1;
        }
        proof {
            if has_channel(self@.channels, channel_id) {
                let k = channel_index(self@.channels, channel_id);
                assert(0 <= k < self@.channels.len() && self@.channels[k].channel_id == channel_id);
                assert(self.channels@[k].channel_id == channel_id);
            }
        }
        self.channels.push(Channel { channel_id, original_name });
        proof {
            assert(self@ =~= old(self)@.record_rename(channel_id, original_name@));
        }
    }

    /// Takes the rename record of a room out, handing back the name to
    /// restore; `None` when the room was not renamed.
    pub fn clear_rename(&mut self, channel_id: u64) -> (r: Option<String>)
        requires
            old(self)@.wf(),
        ensures
            final(self)@.wf(),
            final(self)@ == old(self)@.clear_rename(channel_id).0,
            match r {
                Some(name) => old(self)@.clear_rename(channel_id).1 == Some(name@),
                None => old(self)@.clear_rename(channel_id).1 is None,
            },
    {
        let n = self.channels.len();
        let mut i: usize = 0;
        while i < n
            invariant
                0 <= i <= n == self.channels@.len(),
                forall|k: int|
                    0 <= k < i ==> (#[trigger] self.channels@[k]).channel_id != channel_id,
                self@.wf(),
                *self == *old(self),
            decreases n - i,
        {
            if self.channels[i].channel_id == channel_id {
                proof {
                    assert(self@.channels[i as int].channel_id == channel_id);
                    let ch = channel_index(self@.channels, channel_id);
                    assert(0 <= ch < self@.channels.len() && self@.channels[ch].channel_id
                        == channel_id);
                }
                let c = self.channels.remove(i);
                proof {
                    assert(self@ =~= old(self)@.clear_rename(channel_id).0);
                }
                return Some(c.original_name);
            }
            i = i + 1;
        }
        proof {
            if has_channel(self@.channels, channel_id) {
                let k = channel_index(self@.channels, channel_id);
                assert(0 <= k < self@.channels.len() && self@.channels[k].channel_id == channel_id);
                assert(self.channels@[k].channel_id == channel_id);
            }
        }
        None
    }
}

/// Whether some already-collected user carries this chat id.
fn vec_has_discord(users: &Vec<User>, discord_id: u64) -> (r: bool)
    ensures
        r == has_discord(users@, discord_id),
{
    let n = users.len();
    let mut i: usize = 0;
    while i < n
        invariant
            0 <= i <= n == users@.len(),
            forall|k: int| 0 <= k < i ==> (#[trigger] users@[k]).discord_id != discord_id,
        decreases n - i,
    {
        if users[i].discord_id == discord_id {
            return true;
        }
        i = i + 1;
    }
    false
}

/// Whether some already-collected user carries this streaming id.
fn vec_has_twitch(users: &Vec<User>, twitch_id: u64) -> (r: bool)
    ensures
        r == has_twitch(users@, twitch_id),
{
    let n = users.len();
    let mut i: usize = 0;
    while i < n
        invariant
            0 <= i <= n == users@.len(),
            forall|k: int| 0 <= k < i ==> (#[trigger] users@[k]).twitch_id != twitch_id,
        decreases n - i,
    {
        if users[i].twitch_id == twitch_id {
            return true;
        }
        i = i + 1;
    }
    false
}

/// Copies a list of plain ids.
fn copy_ids(ids: &Vec<u64>) -> (r: Vec<u64>)
    ensures
        r@ == ids@,
{
    let n = ids.len();
    let mut out: Vec<u64> = Vec::new();
    let mut i: usize = 0;
    while i < n
        invariant
            0 <= i <= n == ids@.len(),
            out@ == ids@.take(i as int),
        decreases n - i,
    {
        out.push(ids[i]);
        proof {
            assert(out@ =~= ids@.take(i + 1));
        }
        i = i + 1;
    }
    proof {
        assert(ids@.take(n as int) =~= ids@);
    }
    out
}

} // verus!

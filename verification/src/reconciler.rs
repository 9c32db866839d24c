//! The rename-decision reconciler: how a stream-status change or a voice
//! move turns into at most one room edit, serialized by the caller (one
//! decision runs at a time against the store).
//!
//! The chat platform's cache lookups (where is the user, what is the
//! room's display name) are inputs here: the caller reads its caches and
//! passes what it found, the decision and all bookkeeping are done and
//! verified here.

use vstd::prelude::*;

use crate::discord::{
    ChannelView, DiscordTwitchWatcher, SetLiveOutcome, StoreModel, User, channel_index,
    discord_index, has_channel, has_discord, has_live_in, has_twitch, twitch_index,
};
use crate::inter_comm::{InterComm, MessageType};
use crate::text::{all_dec_digits, concat3, dec_digits_of, dec_value, parse_u64, u64_to_string};

verus! {

/// Why a rename decision failed.
#[derive(Debug, Clone, Copy, PartialEq, Eq, Structural)]
pub enum RenameError {
    /// The room is not in the chat platform's cache: its display name
    /// cannot be read, so nothing can be recorded or restored.
    UnknownChannel,
}

/// One room edit the caller should request from the chat platform.
#[derive(Debug, Clone)]
pub struct ChannelEdit {
    pub channel_id: u64,
    pub new_name: String,
    /// Human-readable audit reason handed along with the edit.
    pub reason: String,
}

/// Mathematical image of a room edit.
#[verifier::ext_equal]
pub struct EditView {
    pub channel_id: u64,
    pub new_name: Seq<char>,
    pub reason: Seq<char>,
}

impl View for ChannelEdit {
    type V = EditView;

    open spec fn view(&self) -> EditView {
        EditView {
            channel_id: self.channel_id,
            new_name: self.new_name@,
            reason: self.reason@,
        }
    }
}

/// The decision's result seen mathematically.
pub open spec fn edit_result_view(r: Result<Option<ChannelEdit>, RenameError>) -> Result<
    Option<EditView>,
    RenameError,
> {
    match r {
        Ok(None) => Ok(None),
        Ok(Some(e)) => Ok(Some(e@)),
        Err(e) => Err(e),
    }
}

/// The audit reason attached to a rename.
pub open spec fn streaming_reason(discord_user_id: u64) -> Seq<char> {
    "User "@ + dec_digits_of(discord_user_id as nat) + " is streaming"@
}

/// The audit reason attached to a restore.
pub open spec fn stopped_reason(discord_user_id: u64) -> Seq<char> {
    "User "@ + dec_digits_of(discord_user_id as nat) + " has stopped his stream"@
}

/// The rename/restore decision, in order:
/// a room that is already renamed while some occupant is live is left
/// alone; a room that is already renamed is not renamed again; a room
/// whose display name cannot be read is an error; going live records the
/// current name and asks for the live name; going offline with a record
/// hands the recorded name back; anything else is a no-op (in particular
/// a restore for a room that was never renamed).
pub open spec fn rename_decision(
    m: StoreModel,
    discord_user_id: u64,
    channel_id: u64,
    current_name: Option<Seq<char>>,
    is_streaming: bool,
) -> (StoreModel, Result<Option<EditView>, RenameError>) {
    let renamed = has_channel(m.channels, channel_id);
    if has_live_in(m.users, channel_id) && renamed {
        (m, Ok(None))
    } else if is_streaming && renamed {
        (m, Ok(None))
    } else {
        match current_name {
            None => (m, Err(RenameError::UnknownChannel)),
            Some(name) => {
                if is_streaming {
                    (
                        m.record_rename(channel_id, name),
                        Ok(
                            Some(
                                EditView {
                                    channel_id,
                                    new_name: m.renamed_channel_name,
                                    reason: streaming_reason(discord_user_id),
                                },
                            ),
                        ),
                    )
                } else if renamed {
                    (
                        m.clear_rename(channel_id).0,
                        Ok(
                            Some(
                                EditView {
                                    channel_id,
                                    new_name: m.channels[channel_index(
                                        m.channels,
                                        channel_id,
                                    )].original_name,
                                    reason: stopped_reason(discord_user_id),
                                },
                            ),
                        ),
                    )
                } else {
                    (m, Ok(None))
                }
            },
        }
    }
}

/// Decides whether and how a room is renamed or restored, and keeps the
/// rename records in step with the decision. `current_name` is the room's
/// display name as the caller read it from the chat platform's cache
/// (`None` when the cache has no such room). The caller performs the
/// returned edit; the records here reflect the decision whether or not
/// that remote edit later succeeds.
pub fn get_channel_new_name(
    w: &mut DiscordTwitchWatcher,
    discord_user_id: u64,
    channel_id: u64,
    current_name: Option<String>,
    is_streaming: bool,
) -> (r: Result<Option<ChannelEdit>, RenameError>)
    requires
        old(w)@.wf(),
    ensures
        final(w)@.wf(),
        ({
            let (m2, decision) = rename_decision(
                old(w)@,
                discord_user_id,
                channel_id,
                match current_name {
                    Some(n) => Some(n@),
                    None => None,
                },
                is_streaming,
            );
            final(w)@ == m2 && edit_result_view(r) == decision
        }),
{
    let renamed = w.has_renamed_channel(channel_id);
    if w.has_live_user_in_channel(channel_id) && renamed {
        // the room is already carrying the live name for someone live in
        // it: leave it alone
        return Ok(None);
    }
    if is_streaming && renamed {
        return Ok(None);
    }
    let name = match current_name {
        Some(n) => n,
        None => {
            return Err(RenameError::UnknownChannel);
        },
    };
    if is_streaming {
        w.record_rename(channel_id, name);
        let new_name = w.renamed_channel_name.clone();
        let id_text = u64_to_string(discord_user_id);
        let reason = concat3("User ", id_text.as_str(), " is streaming");
        Ok(Some(ChannelEdit { channel_id, new_name, reason }))
    } else {
        match w.clear_rename(channel_id) {
            Some(original) => {
                let id_text = u64_to_string(discord_user_id);
                let reason = concat3("User ", id_text.as_str(), " has stopped his stream");
                Ok(Some(ChannelEdit { channel_id, new_name: original, reason }))
            },
            None => Ok(None),
        }
    }
}

/// Where a user's room is found from: the cached room once a presence
/// event placed the user, else whatever the caller's slow scan of the
/// guild caches turned up.
pub open spec fn find_channel(
    m: StoreModel,
    discord_user_id: u64,
    scanned: Option<u64>,
) -> (StoreModel, Option<u64>) {
    if !has_discord(m.users, discord_user_id) {
        (m, None)
    } else {
        let u = m.users[discord_index(m.users, discord_user_id)];
        let found = if u.has_been_part_of_voice_state_event {
            u.current_channel_id
        } else {
            scanned
        };
        match found {
            Some(c) => (m.mark_presence(discord_user_id, Some(c)), Some(c)),
            None => (m, None),
        }
    }
}

/// Finds the room a user is in. Once the user has been placed by a real
/// presence event the cached room is used; until then the caller's scan
/// result `scanned` stands in, and a hit is memoized so the scan runs at
/// most once per user.
pub fn find_current_user_voice_channel(
    w: &mut DiscordTwitchWatcher,
    discord_user_id: u64,
    scanned: Option<u64>,
) -> (r: Option<u64>)
    requires
        old(w)@.wf(),
    ensures
        final(w)@.wf(),
        ({
            let (m2, found) = find_channel(old(w)@, discord_user_id, scanned);
            final(w)@ == m2 && r == found
        }),
{
    let found = match w.find_user_by_discord_id(discord_user_id) {
        Some(u) => {
            if u.has_been_part_of_voice_state_event {
                u.current_channel_id
            } else {
                scanned
            }
        },
        None => None,
    };
    match found {
        Some(c) => {
            w.mark_presence(discord_user_id, Some(c));
            Some(c)
        },
        None => None,
    }
}

/// What the stream-status handler decided for one message.
#[derive(Debug, Clone, Copy, PartialEq, Eq, Structural)]
pub enum StreamEventStep {
    /// No monitored user carries the streaming id: the event is dropped
    /// and nothing in the store was touched.
    UnknownUser,
    /// The user already had this status: a duplicate notification, also
    /// dropped without touching a room.
    Unchanged,
    /// The status flipped; the rename decision should now run for this
    /// chat user.
    Proceed { discord_id: u64 },
}

/// The status-change step seen mathematically.
pub open spec fn stream_event_step(m: StoreModel, twitch_id: u64, is_streaming: bool) -> (
    StoreModel,
    StreamEventStep,
) {
    let (m2, outcome) = m.set_live(twitch_id, is_streaming);
    (
        m2,
        match outcome {
            SetLiveOutcome::Unknown => StreamEventStep::UnknownUser,
            SetLiveOutcome::Unchanged => StreamEventStep::Unchanged,
            SetLiveOutcome::Changed { discord_id } => StreamEventStep::Proceed { discord_id },
        },
    )
}

/// Applies one stream-status change: the atomic check-and-set of the live
/// flag, reporting whether the rename decision should follow. An unknown
/// streaming id or an unchanged status touches nothing.
pub fn handle_stream_event(
    w: &mut DiscordTwitchWatcher,
    streamer_user_id: u64,
    is_streaming: bool,
) -> (r: StreamEventStep)
    requires
        old(w)@.wf(),
    ensures
        final(w)@.wf(),
        (final(w)@, r) == stream_event_step(old(w)@, streamer_user_id, is_streaming),
{
    match w.set_live(streamer_user_id, is_streaming) {
        SetLiveOutcome::Unknown => StreamEventStep::UnknownUser,
        SetLiveOutcome::Unchanged => StreamEventStep::Unchanged,
        SetLiveOutcome::Changed { discord_id } => StreamEventStep::Proceed { discord_id },
    }
}

/// What a voice-presence update asks the caller to do next: restore the
/// room the user left, then rename the room the user entered, in that
/// order, each through the rename decision.
#[derive(Debug, Clone, Copy, PartialEq, Eq, Structural)]
pub struct VoicePlan {
    /// Whether the chat user is monitored at all.
    pub known: bool,
    pub restore_old: Option<u64>,
    pub rename_new: Option<u64>,
}

/// The voice-update step seen mathematically.
pub open spec fn voice_update(
    m: StoreModel,
    user_id: u64,
    old_channel: Option<u64>,
    new_channel: Option<u64>,
) -> (StoreModel, VoicePlan) {
    if !has_discord(m.users, user_id) {
        (m, VoicePlan { known: false, restore_old: None, rename_new: None })
    } else {
        let m2 = m.mark_presence(user_id, new_channel);
        let live = m.users[discord_index(m.users, user_id)].twitch_is_streaming == Some(true);
        if live {
            (m2, VoicePlan { known: true, restore_old: old_channel, rename_new: new_channel })
        } else {
            (m2, VoicePlan { known: true, restore_old: None, rename_new: None })
        }
    }
}

/// Applies a voice-presence update: the user's room is recorded, and if
/// the user is live the caller is asked to run the restore decision on
/// the room left and the rename decision on the room entered, in that
/// order. An unmonitored user is ignored.
pub fn plan_voice_update(
    w: &mut DiscordTwitchWatcher,
    user_id: u64,
    old_channel: Option<u64>,
    new_channel: Option<u64>,
) -> (plan: VoicePlan)
    requires
        old(w)@.wf(),
    ensures
        final(w)@.wf(),
        (final(w)@, plan) == voice_update(old(w)@, user_id, old_channel, new_channel),
{
    let known = w.mark_presence(user_id, new_channel);
    if !known {
        return VoicePlan { known: false, restore_old: None, rename_new: None };
    }
    let live = match w.find_user_by_discord_id(user_id) {
        Some(u) => match u.twitch_is_streaming {
            Some(l) => l,
            None => false,
        },
        None => false,
    };
    proof {
        let idx = discord_index(old(w)@.users, user_id);
        assert(0 <= idx < old(w)@.users.len() && old(w)@.users[idx].discord_id == user_id);
        let idx2 = discord_index(w@.users, user_id);
        assert(w@.users[idx].discord_id == user_id);
        assert(has_discord(w@.users, user_id));
        assert(0 <= idx2 < w@.users.len() && w@.users[idx2].discord_id == user_id);
        assert(idx2 == idx);
        assert(w@.users[idx].twitch_is_streaming == old(w)@.users[idx].twitch_is_streaming);
    }
    if live {
        VoicePlan { known: true, restore_old: old_channel, rename_new: new_channel }
    } else {
        VoicePlan { known: true, restore_old: None, rename_new: None }
    }
}

/// Reads a queued stream-status message: the broadcaster id as a number,
/// and whether it reports going live. A message whose id is not a decimal
/// number that fits is unusable and dropped by the caller.
pub fn classify_stream_message(m: &InterComm) -> (r: Option<(u64, bool)>)
    ensures
        r matches Some(p) ==> {
            &&& all_dec_digits(m.streamer_user_id@)
            &&& p.0 == dec_value(m.streamer_user_id@)
            &&& p.1 == (m.message_type is TwitchStreamOnline)
        },
        r is None ==> !(all_dec_digits(m.streamer_user_id@) && dec_value(m.streamer_user_id@)
            <= u64::MAX),
{
    match parse_u64(m.streamer_user_id.as_str()) {
        Some(uid) => {
            let online = match m.message_type {
                MessageType::TwitchStreamOnline => true,
                MessageType::TwitchStreamOffline => false,
            };
            Some((uid, online))
        },
        None => None,
    }
}

/// Law: a status change already applied is not applied again. After a
/// check-and-set that flipped (or found) a status, the same check-and-set
/// reports `Unchanged` and leaves the store exactly as it was — a
/// duplicate "online" can never yield a second rename decision.
pub proof fn lemma_set_live_idempotent(m: StoreModel, twitch_id: u64, is_live: bool)
    requires
        m.wf(),
    ensures
        ({
            let (m1, o1) = m.set_live(twitch_id, is_live);
            let (m2, o2) = m1.set_live(twitch_id, is_live);
            &&& m2 == m1
            &&& !(o1 is Unknown) ==> o2 is Unchanged
            &&& o1 is Unknown ==> o2 is Unknown
        }),
{
    let (m1, o1) = m.set_live(twitch_id, is_live);
    if has_twitch(m.users, twitch_id) {
        let idx = twitch_index(m.users, twitch_id);
        assert(0 <= idx < m.users.len() && m.users[idx].twitch_id == twitch_id);
        assert(m1.users[idx].twitch_id == twitch_id);
        assert(has_twitch(m1.users, twitch_id));
        let idx2 = twitch_index(m1.users, twitch_id);
        assert(0 <= idx2 < m1.users.len() && m1.users[idx2].twitch_id == twitch_id);
        assert(idx2 == idx);
        assert(m1.users[idx].twitch_is_streaming == Some(is_live));
    }
}

/// Law: two users sharing one room exclude each other's room edits.
/// With users A and B in room R, nobody live in R and R not renamed:
/// A going live renames R (recording R's name); B going live is a no-op;
/// A going offline is a no-op (B is still live); B going offline restores
/// the name recorded before the first edit. Exactly two room edits come
/// out of the four status changes, and the rename records end as they
/// began.
pub proof fn lemma_co_occupancy_mutual_exclusion(
    m0: StoreModel,
    a_twitch: u64,
    b_twitch: u64,
    room: u64,
    name0: Seq<char>,
    name_b_on: Option<Seq<char>>,
    name_a_off: Option<Seq<char>>,
    name_b_off: Seq<char>,
)
    requires
        m0.wf(),
        a_twitch != b_twitch,
        has_twitch(m0.users, a_twitch),
        has_twitch(m0.users, b_twitch),
        m0.users[twitch_index(m0.users, a_twitch)].current_channel_id == Some(room),
        m0.users[twitch_index(m0.users, b_twitch)].current_channel_id == Some(room),
        !has_live_in(m0.users, room),
        !has_channel(m0.channels, room),
    ensures
        ({
            let ia = twitch_index(m0.users, a_twitch);
            let ib = twitch_index(m0.users, b_twitch);
            let a_did = m0.users[ia].discord_id;
            let b_did = m0.users[ib].discord_id;
            let (m1, o1) = m0.set_live(a_twitch, true);
            let (m2, d1) = rename_decision(m1, a_did, room, Some(name0), true);
            let (m3, o2) = m2.set_live(b_twitch, true);
            let (m4, d2) = rename_decision(m3, b_did, room, name_b_on, true);
            let (m5, o3) = m4.set_live(a_twitch, false);
            let (m6, d3) = rename_decision(m5, a_did, room, name_a_off, false);
            let (m7, o4) = m6.set_live(b_twitch, false);
            let (m8, d4) = rename_decision(m7, b_did, room, Some(name_b_off), false);
            &&& o1 == (SetLiveOutcome::Changed { discord_id: a_did })
            &&& d1 == Ok::<_, RenameError>(
                Some(
                    EditView {
                        channel_id: room,
                        new_name: m0.renamed_channel_name,
                        reason: streaming_reason(a_did),
                    },
                ),
            )
            &&& o2 == (SetLiveOutcome::Changed { discord_id: b_did })
            &&& d2 == Ok::<Option<EditView>, RenameError>(None)
            &&& o3 == (SetLiveOutcome::Changed { discord_id: a_did })
            &&& d3 == Ok::<Option<EditView>, RenameError>(None)
            &&& o4 == (SetLiveOutcome::Changed { discord_id: b_did })
            &&& d4 == Ok::<_, RenameError>(
                Some(
                    EditView {
                        channel_id: room,
                        new_name: name0,
                        reason: stopped_reason(b_did),
                    },
                ),
            )
            &&& m8.channels =~= m0.channels
        }),
{
    let ia = twitch_index(m0.users, a_twitch);
    let ib = twitch_index(m0.users, b_twitch);
    assert(0 <= ia < m0.users.len() && m0.users[ia].twitch_id == a_twitch);
    assert(0 <= ib < m0.users.len() && m0.users[ib].twitch_id == b_twitch);
    assert(ia != ib);
    let a_did = m0.users[ia].discord_id;
    let b_did = m0.users[ib].discord_id;

    // A goes live: the flag flips.
    assert(m0.users[ia].twitch_is_streaming != Some(true));
    let (m1, o1) = m0.set_live(a_twitch, true);
    assert(m1.users == m0.users.update(ia, User { twitch_is_streaming: Some(true), ..m0.users[ia] }));
    assert(o1 == (SetLiveOutcome::Changed { discord_id: a_did }));
    assert(m1.channels == m0.channels);

    // R is not renamed, so the decision renames it and records name0.
    let (m2, d1) = rename_decision(m1, a_did, room, Some(name0), true);
    assert(!has_channel(m1.channels, room));
    assert(m2.channels == m1.channels.push(ChannelView { channel_id: room, original_name: name0 }));
    assert(m2.users == m1.users);

    // B goes live: the flag flips, B's slot is untouched so far.
    assert(m2.users[ib].twitch_id == b_twitch);
    assert(has_twitch(m2.users, b_twitch));
    let ib2 = twitch_index(m2.users, b_twitch);
    assert(0 <= ib2 < m2.users.len() && m2.users[ib2].twitch_id == b_twitch);
    assert(forall|i: int, j: int|
        #![trigger m2.users[i], m2.users[j]]
        0 <= i < j < m2.users.len() ==> m2.users[i].twitch_id != m2.users[j].twitch_id);
    assert(ib2 == ib);
    assert(m2.users[ib].twitch_is_streaming == m0.users[ib].twitch_is_streaming);
    let (m3, o2) = m2.set_live(b_twitch, true);
    assert(o2 == (SetLiveOutcome::Changed { discord_id: b_did }));
    assert(m3.users == m2.users.update(ib, User { twitch_is_streaming: Some(true), ..m2.users[ib] }));
    assert(m3.channels == m2.channels);

    // R is renamed and A is live in it: B's rename is a no-op.
    let last = m0.channels.len() as int;
    assert(m3.channels[last].channel_id == room);
    assert(has_channel(m3.channels, room));
    assert(m3.users[ia].current_channel_id == Some(room));
    assert(m3.users[ia].twitch_is_streaming == Some(true));
    assert(has_live_in(m3.users, room));
    let (m4, d2) = rename_decision(m3, b_did, room, name_b_on, true);
    assert(m4 == m3);
    assert(d2 == Ok::<Option<EditView>, RenameError>(None));

    // A goes offline: the flag flips back.
    assert(m4.users[ia].twitch_id == a_twitch);
    assert(has_twitch(m4.users, a_twitch));
    let ia4 = twitch_index(m4.users, a_twitch);
    assert(0 <= ia4 < m4.users.len() && m4.users[ia4].twitch_id == a_twitch);
    assert(forall|i: int, j: int|
        #![trigger m4.users[i], m4.users[j]]
        0 <= i < j < m4.users.len() ==> m4.users[i].twitch_id != m4.users[j].twitch_id);
    assert(ia4 == ia);
    let (m5, o3) = m4.set_live(a_twitch, false);
    assert(o3 == (SetLiveOutcome::Changed { discord_id: a_did }));
    assert(m5.users == m4.users.update(ia, User { twitch_is_streaming: Some(false), ..m4.users[ia] }));
    assert(m5.channels == m4.channels);

    // R is renamed and B is still live in it: A's restore is a no-op.
    assert(m5.channels[last].channel_id == room);
    assert(has_channel(m5.channels, room));
    assert(m5.users[ib].current_channel_id == Some(room));
    assert(m5.users[ib].twitch_is_streaming == Some(true));
    assert(has_live_in(m5.users, room));
    let (m6, d3) = rename_decision(m5, a_did, room, name_a_off, false);
    assert(m6 == m5);
    assert(d3 == Ok::<Option<EditView>, RenameError>(None));

    // B goes offline: the flag flips back.
    assert(m6.users[ib].twitch_id == b_twitch);
    assert(has_twitch(m6.users, b_twitch));
    let ib6 = twitch_index(m6.users, b_twitch);
    assert(0 <= ib6 < m6.users.len() && m6.users[ib6].twitch_id == b_twitch);
    assert(forall|i: int, j: int|
        #![trigger m6.users[i], m6.users[j]]
        0 <= i < j < m6.users.len() ==> m6.users[i].twitch_id != m6.users[j].twitch_id);
    assert(ib6 == ib);
    let (m7, o4) = m6.set_live(b_twitch, false);
    assert(o4 == (SetLiveOutcome::Changed { discord_id: b_did }));
    assert(m7.users == m6.users.update(ib, User { twitch_is_streaming: Some(false), ..m6.users[ib] }));
    assert(m7.channels == m6.channels);

    // Nobody is live in R any more: B's restore hands name0 back.
    assert(!has_live_in(m7.users, room)) by {
        assert forall|i: int|
            0 <= i < m7.users.len() && (#[trigger] m7.users[i]).current_channel_id == Some(room)
            implies m7.users[i].twitch_is_streaming != Some(true) by {
            if i != ia && i != ib {
                assert(m7.users[i] == m0.users[i]);
                assert(!(m0.users[i].current_channel_id == Some(room)
                    && m0.users[i].twitch_is_streaming == Some(true)));
            }
        }
    }
    assert(m7.channels[last].channel_id == room);
    assert(has_channel(m7.channels, room));
    let ir = channel_index(m7.channels, room);
    assert(0 <= ir < m7.channels.len() && m7.channels[ir].channel_id == room);
    assert(forall|i: int, j: int|
        #![trigger m7.channels[i], m7.channels[j]]
        0 <= i < j < m7.channels.len() ==> m7.channels[i].channel_id != m7.channels[j].channel_id)
        by {
        assert(forall|i: int| 0 <= i < last ==> (#[trigger] m7.channels[i]) == m0.channels[i]);
        if has_channel(m0.channels, room) {
            let w = channel_index(m0.channels, room);
            assert(0 <= w < m0.channels.len() && m0.channels[w].channel_id == room);
        }
    }
    assert(ir == last) by {
        if ir != last {
            assert(m7.channels[ir].channel_id != m7.channels[last].channel_id);
        }
    }
    let (m8, d4) = rename_decision(m7, b_did, room, Some(name_b_off), false);
    assert(m7.channels[ir].original_name == name0);
    assert(m8.channels == m7.channels.remove(last));
    assert(m8.channels =~= m0.channels);
}

/// Law: a live user moving from room A to room B triggers a restore
/// decision for A and then a rename decision for B. The restore fires
/// exactly when A carries a rename record and no one live remains in A;
/// the rename of B fires exactly when B carries no rename record yet;
/// in the other cases the respective edit is skipped.
pub proof fn lemma_room_move(
    m0: StoreModel,
    discord_user_id: u64,
    a_room: u64,
    b_room: u64,
    name_a: Option<Seq<char>>,
    name_b: Option<Seq<char>>,
)
    requires
        m0.wf(),
        a_room != b_room,
        has_discord(m0.users, discord_user_id),
        m0.users[discord_index(m0.users, discord_user_id)].twitch_is_streaming == Some(true),
        name_a is Some,
        name_b is Some,
    ensures
        ({
            let (m1, plan) = voice_update(m0, discord_user_id, Some(a_room), Some(b_room));
            let (m2, r1) = rename_decision(m1, discord_user_id, a_room, name_a, false);
            let (m3, r2) = rename_decision(m2, discord_user_id, b_room, name_b, true);
            &&& plan == (VoicePlan {
                known: true,
                restore_old: Some(a_room),
                rename_new: Some(b_room),
            })
            &&& (has_channel(m1.channels, a_room) && !has_live_in(m1.users, a_room)) ==> r1
                == Ok::<_, RenameError>(
                Some(
                    EditView {
                        channel_id: a_room,
                        new_name: m1.channels[channel_index(m1.channels, a_room)].original_name,
                        reason: stopped_reason(discord_user_id),
                    },
                ),
            )
            &&& (has_live_in(m1.users, a_room) || !has_channel(m1.channels, a_room)) ==> r1
                == Ok::<Option<EditView>, RenameError>(None)
            &&& !has_channel(m2.channels, b_room) ==> r2 == Ok::<_, RenameError>(
                Some(
                    EditView {
                        channel_id: b_room,
                        new_name: m0.renamed_channel_name,
                        reason: streaming_reason(discord_user_id),
                    },
                ),
            )
            &&& has_channel(m2.channels, b_room) ==> r2 == Ok::<Option<EditView>, RenameError>(
                None,
            )
        }),
{
    let iu = discord_index(m0.users, discord_user_id);
    assert(0 <= iu < m0.users.len() && m0.users[iu].discord_id == discord_user_id);
    let (m1, plan) = voice_update(m0, discord_user_id, Some(a_room), Some(b_room));
    assert(m1.users == m0.users.update(
        iu,
        User {
            current_channel_id: Some(b_room),
            has_been_part_of_voice_state_event: true,
            ..m0.users[iu]
        },
    ));
    assert(m1.channels == m0.channels);
    assert(plan == (VoicePlan { known: true, restore_old: Some(a_room), rename_new: Some(b_room) }));

    // The restore decision on A.
    let (m2, r1) = rename_decision(m1, discord_user_id, a_room, name_a, false);
    if has_channel(m1.channels, a_room) && !has_live_in(m1.users, a_room) {
        assert(r1 == Ok::<_, RenameError>(
            Some(
                EditView {
                    channel_id: a_room,
                    new_name: m1.channels[channel_index(m1.channels, a_room)].original_name,
                    reason: stopped_reason(discord_user_id),
                },
            ),
        ));
    }
    if has_live_in(m1.users, a_room) || !has_channel(m1.channels, a_room) {
        assert(r1 == Ok::<Option<EditView>, RenameError>(None));
    }
    assert(m2.users == m1.users);

    // The rename decision on B: the mover is live in B, so B being
    // renamed already (by whoever) skips the edit, and an unrenamed B is
    // renamed for the mover.
    let (m3, r2) = rename_decision(m2, discord_user_id, b_room, name_b, true);
    assert(m2.users[iu].current_channel_id == Some(b_room));
    assert(m2.users[iu].twitch_is_streaming == Some(true));
    assert(has_live_in(m2.users, b_room));
    if !has_channel(m2.channels, b_room) {
        assert(m2.renamed_channel_name == m0.renamed_channel_name);
        assert(r2 == Ok::<_, RenameError>(
            Some(
                EditView {
                    channel_id: b_room,
                    new_name: m0.renamed_channel_name,
                    reason: streaming_reason(discord_user_id),
                },
            ),
        ));
    }
}

} // verus!

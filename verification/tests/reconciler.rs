use samousse::config::{TwitchUser, TwitchWatcher};
use samousse::discord::DiscordTwitchWatcher;
use samousse::inter_comm::{InterComm, MessageType};
use samousse::reconciler::{
    classify_stream_message, find_current_user_voice_channel, get_channel_new_name,
    handle_stream_event, plan_voice_update, ChannelEdit, RenameError, StreamEventStep, VoicePlan,
};

fn watcher(pairs: &[(u64, u64)]) -> DiscordTwitchWatcher {
    let channels = pairs
        .iter()
        .map(|&(twitch_channel_id, discord_id)| TwitchUser { twitch_channel_id, discord_id })
        .collect();
    DiscordTwitchWatcher::new(&TwitchWatcher {
        servers: vec![],
        channels,
        renamed_channel_name: "LIVE NOW".to_string(),
        enabled: true,
    })
}

/// Runs one full status change as the feed loop would: flip the flag,
/// find the room, decide the edit.
fn deliver(w: &mut DiscordTwitchWatcher, twitch_id: u64, live: bool, room_name: &str) -> Option<ChannelEdit> {
    let discord_id = match handle_stream_event(w, twitch_id, live) {
        StreamEventStep::Proceed { discord_id } => discord_id,
        StreamEventStep::Unchanged | StreamEventStep::UnknownUser => return None,
    };
    let room = find_current_user_voice_channel(w, discord_id, None)?;
    get_channel_new_name(w, discord_id, room, Some(room_name.to_string()), live).unwrap()
}

#[test]
fn duplicate_online_renames_once() {
    let mut w = watcher(&[(100, 1)]);
    w.mark_presence(1, Some(50));
    let first = deliver(&mut w, 100, true, "general").expect("first online renames");
    assert_eq!(first.channel_id, 50);
    assert_eq!(first.new_name, "LIVE NOW");
    assert_eq!(first.reason, "User 1 is streaming");
    // the same notification again is swallowed by the check-and-set
    assert!(deliver(&mut w, 100, true, "general").is_none());
    assert_eq!(w.channels.len(), 1);
}

#[test]
fn co_occupancy_two_edits_total() {
    let mut w = watcher(&[(100, 1), (200, 2)]);
    w.mark_presence(1, Some(50));
    w.mark_presence(2, Some(50));
    // A goes live: the room is renamed and its name recorded
    let e1 = deliver(&mut w, 100, true, "general").expect("rename for A");
    assert_eq!(e1.new_name, "LIVE NOW");
    // B goes live in the same room: no call
    assert!(deliver(&mut w, 200, true, "general").is_none());
    // A goes offline: B is still live, no call
    assert!(deliver(&mut w, 100, false, "LIVE NOW").is_none());
    // B goes offline: the room is restored to the name recorded first
    let e2 = deliver(&mut w, 200, false, "LIVE NOW").expect("restore for B");
    assert_eq!(e2.channel_id, 50);
    assert_eq!(e2.new_name, "general");
    assert_eq!(e2.reason, "User 2 has stopped his stream");
    assert_eq!(w.channels.len(), 0);
}

#[test]
fn room_move_restores_then_renames() {
    let mut w = watcher(&[(100, 1)]);
    w.mark_presence(1, Some(50));
    deliver(&mut w, 100, true, "old room").expect("rename on going live");
    // the live user moves room 50 -> 60
    let plan = plan_voice_update(&mut w, 1, Some(50), Some(60));
    assert_eq!(plan, VoicePlan { known: true, restore_old: Some(50), rename_new: Some(60) });
    // no other live occupant remains in 50: restore fires
    let r = get_channel_new_name(&mut w, 1, 50, Some("whatever".to_string()), false)
        .unwrap()
        .expect("restore of the old room");
    assert_eq!(r.channel_id, 50);
    assert_eq!(r.new_name, "old room");
    // 60 carries no record yet: rename fires
    let n = get_channel_new_name(&mut w, 1, 60, Some("new room".to_string()), true)
        .unwrap()
        .expect("rename of the new room");
    assert_eq!(n.channel_id, 60);
    assert_eq!(n.new_name, "LIVE NOW");
}

#[test]
fn room_move_skips_when_another_streamer_holds_rooms() {
    let mut w = watcher(&[(100, 1), (200, 2)]);
    w.mark_presence(1, Some(50));
    w.mark_presence(2, Some(50));
    // both go live in room 50; only the first renames
    deliver(&mut w, 100, true, "general").expect("first rename");
    assert!(deliver(&mut w, 200, true, "general").is_none());
    // user 1 moves to room 60, where nothing is renamed yet
    let plan = plan_voice_update(&mut w, 1, Some(50), Some(60));
    assert_eq!(plan.restore_old, Some(50));
    assert_eq!(plan.rename_new, Some(60));
    // user 2 is still live in 50: the restore is skipped
    assert!(get_channel_new_name(&mut w, 1, 50, Some("x".to_string()), false)
        .unwrap()
        .is_none());
    // 60 is unrenamed: the rename fires
    assert!(get_channel_new_name(&mut w, 1, 60, Some("y".to_string()), true)
        .unwrap()
        .is_some());
    // user 2 now moves into 60 as well: 60 is already renamed, skip
    let plan2 = plan_voice_update(&mut w, 2, Some(50), Some(60));
    assert_eq!(plan2.rename_new, Some(60));
    assert!(get_channel_new_name(&mut w, 2, 50, Some("general".to_string()), false)
        .unwrap()
        .is_some());
    assert!(get_channel_new_name(&mut w, 2, 60, Some("z".to_string()), true)
        .unwrap()
        .is_none());
}

#[test]
fn unknown_user_touches_nothing() {
    let mut w = watcher(&[(100, 1)]);
    w.mark_presence(1, Some(50));
    let before_users: Vec<_> = w.users.clone();
    assert_eq!(handle_stream_event(&mut w, 999, true), StreamEventStep::UnknownUser);
    assert_eq!(w.users.len(), before_users.len());
    assert_eq!(w.users[0].twitch_is_streaming, None);
    assert_eq!(w.channels.len(), 0);
}

#[test]
fn unmonitored_voice_update_ignored() {
    let mut w = watcher(&[(100, 1)]);
    let plan = plan_voice_update(&mut w, 42, Some(1), Some(2));
    assert_eq!(plan, VoicePlan { known: false, restore_old: None, rename_new: None });
    assert!(!w.users[0].has_been_part_of_voice_state_event);
}

#[test]
fn missing_room_name_is_an_error() {
    let mut w = watcher(&[(100, 1)]);
    w.mark_presence(1, Some(50));
    handle_stream_event(&mut w, 100, true);
    let r = get_channel_new_name(&mut w, 1, 50, None, true);
    assert_eq!(r.unwrap_err(), RenameError::UnknownChannel);
    // nothing was recorded for the room
    assert!(!w.has_renamed_channel(50));
}

#[test]
fn restore_without_record_is_a_no_op() {
    let mut w = watcher(&[(100, 1)]);
    w.mark_presence(1, Some(50));
    handle_stream_event(&mut w, 100, false);
    let r = get_channel_new_name(&mut w, 1, 50, Some("general".to_string()), false);
    assert!(r.unwrap().is_none());
}

#[test]
fn slow_scan_memoized() {
    let mut w = watcher(&[(100, 1)]);
    // nothing observed yet: the scan result is used and memoized
    assert_eq!(find_current_user_voice_channel(&mut w, 1, Some(50)), Some(50));
    let u = w.find_user_by_discord_id(1).unwrap();
    assert!(u.has_been_part_of_voice_state_event);
    assert_eq!(u.current_channel_id, Some(50));
    // from now on the cache wins over any scan
    assert_eq!(find_current_user_voice_channel(&mut w, 1, Some(60)), Some(50));
    // an unknown user is never placed
    assert_eq!(find_current_user_voice_channel(&mut w, 9, Some(50)), None);
}

#[test]
fn scan_miss_leaves_user_unplaced() {
    let mut w = watcher(&[(100, 1)]);
    assert_eq!(find_current_user_voice_channel(&mut w, 1, None), None);
    assert!(!w.find_user_by_discord_id(1).unwrap().has_been_part_of_voice_state_event);
}

#[test]
fn queued_message_classified() {
    let m = InterComm {
        message_type: MessageType::TwitchStreamOnline,
        streamer_user_id: "100".to_string(),
        streamer_user_login: "somebody".to_string(),
    };
    assert_eq!(classify_stream_message(&m), Some((100, true)));
    let m2 = InterComm { message_type: MessageType::TwitchStreamOffline, ..m.clone() };
    assert_eq!(classify_stream_message(&m2), Some((100, false)));
    let bad = InterComm { streamer_user_id: "not-a-number".to_string(), ..m };
    assert_eq!(classify_stream_message(&bad), None);
}

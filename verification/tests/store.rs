use samousse::config::{TwitchUser, TwitchWatcher};
use samousse::discord::{DiscordTwitchWatcher, SetLiveOutcome};

fn watcher(pairs: &[(u64, u64)]) -> DiscordTwitchWatcher {
    let channels = pairs
        .iter()
        .map(|&(twitch_channel_id, discord_id)| TwitchUser { twitch_channel_id, discord_id })
        .collect();
    DiscordTwitchWatcher::new(&TwitchWatcher {
        servers: vec![77],
        channels,
        renamed_channel_name: "LIVE NOW".to_string(),
        enabled: true,
    })
}

#[test]
fn startup_state_from_config() {
    let w = watcher(&[(100, 1), (200, 2)]);
    assert_eq!(w.users.len(), 2);
    assert_eq!(w.channels.len(), 0);
    assert_eq!(w.renamed_channel_name, "LIVE NOW");
    assert!(w.enabled);
    assert_eq!(w.servers, vec![77]);
    let u = w.find_user_by_twitch_id(100).unwrap();
    assert_eq!(u.discord_id, 1);
    assert_eq!(u.twitch_id, 100);
    assert_eq!(u.current_channel_id, None);
    assert!(!u.has_been_part_of_voice_state_event);
    assert_eq!(u.twitch_is_streaming, None);
}

#[test]
fn duplicate_config_pairing_first_wins() {
    let w = watcher(&[(100, 1), (100, 2), (300, 1), (400, 4)]);
    assert_eq!(w.users.len(), 2);
    assert_eq!(w.find_user_by_twitch_id(100).unwrap().discord_id, 1);
    assert!(w.find_user_by_twitch_id(300).is_none());
    assert_eq!(w.find_user_by_twitch_id(400).unwrap().discord_id, 4);
}

#[test]
fn lookups_by_either_id() {
    let w = watcher(&[(100, 1), (200, 2)]);
    assert_eq!(w.find_user_by_discord_id(2).unwrap().twitch_id, 200);
    assert!(w.find_user_by_discord_id(9).is_none());
    assert!(w.find_user_by_twitch_id(9).is_none());
}

#[test]
fn presence_and_room_queries() {
    let mut w = watcher(&[(100, 1), (200, 2), (300, 3)]);
    assert!(w.mark_presence(1, Some(50)));
    assert!(w.mark_presence(2, Some(50)));
    assert!(w.mark_presence(3, Some(60)));
    assert!(!w.mark_presence(9, Some(50)));
    let in_fifty = w.find_user_in_channel(50);
    assert_eq!(in_fifty.len(), 2);
    assert_eq!(in_fifty[0].discord_id, 1);
    assert_eq!(in_fifty[1].discord_id, 2);
    assert!(!w.has_live_user_in_channel(50));
    w.set_live(100, true);
    assert!(w.has_live_user_in_channel(50));
    assert!(!w.has_live_user_in_channel(60));
    assert_eq!(w.streaming_user_count(), 1);
}

#[test]
fn set_live_is_an_atomic_check_and_set() {
    let mut w = watcher(&[(100, 1)]);
    assert_eq!(w.set_live(100, true), SetLiveOutcome::Changed { discord_id: 1 });
    // the same status again flips nothing
    assert_eq!(w.set_live(100, true), SetLiveOutcome::Unchanged);
    assert_eq!(w.find_user_by_twitch_id(100).unwrap().twitch_is_streaming, Some(true));
    assert_eq!(w.set_live(100, false), SetLiveOutcome::Changed { discord_id: 1 });
    assert_eq!(w.set_live(100, false), SetLiveOutcome::Unchanged);
    assert_eq!(w.set_live(999, true), SetLiveOutcome::Unknown);
}

#[test]
fn rename_records_kept_one_per_room() {
    let mut w = watcher(&[(100, 1)]);
    assert!(!w.has_renamed_channel(50));
    w.record_rename(50, "general".to_string());
    assert!(w.has_renamed_channel(50));
    // a second record for the same room replaces the first
    w.record_rename(50, "general-2".to_string());
    assert_eq!(w.channels.len(), 1);
    w.record_rename(60, "music".to_string());
    assert_eq!(w.channels.len(), 2);
    assert_eq!(w.clear_rename(50), Some("general-2".to_string()));
    assert!(!w.has_renamed_channel(50));
    assert_eq!(w.clear_rename(50), None);
    assert_eq!(w.clear_rename(60), Some("music".to_string()));
    assert_eq!(w.channels.len(), 0);
}

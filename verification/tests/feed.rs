use samousse::auth::TwitchToken;
use samousse::inter_comm::MessageType;
use samousse::websocket::{
    classify_frame, on_transport_error, EventType, Frame, FeedAction, ReconnectAction, RemoteSub,
    WebsocketClient, RECONNECT_DELAY_SECS,
};

fn client(ids: &[u64]) -> WebsocketClient {
    WebsocketClient::new(&ids.to_vec(), "wss://eventsub.example/ws".to_string())
}

fn remote(id: &str, event_type: EventType, user_id: Option<u64>) -> RemoteSub {
    RemoteSub { id: id.to_string(), event_type, user_id }
}

#[test]
fn new_client_dedups_broadcasters() {
    let c = client(&[100, 200, 100]);
    assert_eq!(c.user_ids, vec![100, 200]);
    assert!(c.session_id.is_none());
    assert!(c.event_sub_id.is_empty());
}

#[test]
fn welcome_deletes_extras_and_keeps_matches() {
    let mut c = client(&[100, 200]);
    let remote_subs = vec![
        remote("keep1", EventType::StreamOnline, Some(100)),
        remote("del1", EventType::Other, Some(100)),
        remote("del2", EventType::StreamOnline, Some(999)),
        remote("del3", EventType::StreamOffline, None),
    ];
    let to_delete = c.process_welcome_message("sess-1".to_string(), None, &remote_subs);
    assert_eq!(to_delete, vec!["del1".to_string(), "del2".to_string(), "del3".to_string()]);
    assert_eq!(c.session_id.as_deref(), Some("sess-1"));
    // the desired list: online+offline per broadcaster, in order
    assert_eq!(c.event_sub_id.len(), 4);
    assert_eq!(c.event_sub_id[0].user_id, 100);
    assert_eq!(c.event_sub_id[0].event_type, EventType::StreamOnline);
    assert_eq!(c.event_sub_id[0].event_id.as_deref(), Some("keep1"));
    assert_eq!(c.event_sub_id[1].event_id, None);
    assert_eq!(c.event_sub_id[2].event_id, None);
    assert_eq!(c.event_sub_id[3].event_id, None);
    // exactly the unmatched entries remain to create
    let pending = c.pending_subscriptions();
    assert_eq!(pending.len(), 3);
    assert_eq!(pending[0].index, 1);
    assert_eq!(pending[0].user_id, 100);
    assert_eq!(pending[0].event_type, EventType::StreamOffline);
    assert_eq!(pending[1].index, 2);
    assert_eq!(pending[2].index, 3);
    // the create calls report back
    c.mark_subscribed(1, "new1".to_string());
    assert_eq!(c.event_sub_id[1].event_id.as_deref(), Some("new1"));
    assert_eq!(c.pending_subscriptions().len(), 2);
}

#[test]
fn welcome_on_converged_remote_makes_no_calls() {
    let mut c = client(&[100]);
    let remote_subs = vec![
        remote("a", EventType::StreamOnline, Some(100)),
        remote("b", EventType::StreamOffline, Some(100)),
    ];
    let to_delete = c.process_welcome_message("sess-2".to_string(), None, &remote_subs);
    assert!(to_delete.is_empty());
    assert!(c.pending_subscriptions().is_empty());
    assert_eq!(c.event_sub_id[0].event_id.as_deref(), Some("a"));
    assert_eq!(c.event_sub_id[1].event_id.as_deref(), Some("b"));
}

#[test]
fn duplicate_remote_entries_for_one_key_both_survive() {
    let mut c = client(&[100]);
    let remote_subs = vec![
        remote("first", EventType::StreamOnline, Some(100)),
        remote("second", EventType::StreamOnline, Some(100)),
    ];
    let to_delete = c.process_welcome_message("sess-3".to_string(), None, &remote_subs);
    // both carry a desired key: neither is deleted, the later binding wins
    assert!(to_delete.is_empty());
    assert_eq!(c.event_sub_id[0].event_id.as_deref(), Some("second"));
}

#[test]
fn reconnect_retargets_future_connects() {
    let mut c = client(&[100]);
    c.process_welcome_message("sess-a".to_string(), None, &vec![]);
    assert_eq!(c.connect_url, "wss://eventsub.example/ws");
    let to_delete = c.process_welcome_message(
        "sess-b".to_string(),
        Some("wss://eventsub.example/ws?resume=1".to_string()),
        &vec![],
    );
    assert!(to_delete.is_empty());
    assert_eq!(c.session_id.as_deref(), Some("sess-b"));
    assert_eq!(c.connect_url, "wss://eventsub.example/ws?resume=1");
    // the fresh pass still wants the same desired set
    assert_eq!(c.pending_subscriptions().len(), 2);
}

#[test]
fn reset_mid_stream_is_transparent() {
    let mut c = client(&[100, 200]);
    // first session: everything gets created
    let to_delete = c.process_welcome_message("sess-1".to_string(), None, &vec![]);
    assert!(to_delete.is_empty());
    for req in c.pending_subscriptions() {
        let id = format!("id-{}", req.index);
        c.mark_subscribed(req.index, id);
    }
    assert!(c.pending_subscriptions().is_empty());
    // the transport resets without a close: reconnect at once
    assert_eq!(on_transport_error(true), ReconnectAction::ReconnectNow);
    // the new session's pass re-derives the full diff from whatever the
    // interruption left behind: one sub gone, one stale extra appeared
    let leftover = vec![
        remote("id-0", EventType::StreamOnline, Some(100)),
        remote("id-2", EventType::StreamOnline, Some(200)),
        remote("stale", EventType::StreamOnline, Some(999)),
    ];
    let to_delete = c.process_welcome_message("sess-2".to_string(), None, &leftover);
    assert_eq!(c.session_id.as_deref(), Some("sess-2"));
    assert_eq!(c.user_ids, vec![100, 200]);
    assert_eq!(to_delete, vec!["stale".to_string()]);
    let pending = c.pending_subscriptions();
    assert_eq!(pending.len(), 2);
    assert_eq!((pending[0].user_id, pending[0].event_type), (100, EventType::StreamOffline));
    assert_eq!((pending[1].user_id, pending[1].event_type), (200, EventType::StreamOffline));
    // messages arriving after resumption flow exactly as before
    match c.process_message(Frame::Online {
        user_id: "100".to_string(),
        user_login: "someone".to_string(),
    }) {
        FeedAction::Emit(m) => assert_eq!(m.streamer_user_id, "100"),
        _ => panic!("a notification after resumption must still be queued"),
    }
}

#[test]
fn frame_dispatch() {
    let c = client(&[100]);
    match c.process_message(Frame::Welcome {
        session_id: "s".to_string(),
        reconnect_url: None,
    }) {
        FeedAction::Reconcile { session_id, reconnect_url } => {
            assert_eq!(session_id, "s");
            assert_eq!(reconnect_url, None);
        }
        _ => panic!("welcome must ask for a reconciliation pass"),
    }
    match c.process_message(Frame::Online {
        user_id: "100".to_string(),
        user_login: "someone".to_string(),
    }) {
        FeedAction::Emit(m) => {
            assert!(matches!(m.message_type, MessageType::TwitchStreamOnline));
            assert_eq!(m.streamer_user_id, "100");
            assert_eq!(m.streamer_user_login, "someone");
        }
        _ => panic!("a status notification must be queued"),
    }
    assert!(matches!(c.process_message(Frame::Keepalive), FeedAction::Nothing));
    assert!(matches!(c.process_message(Frame::Revocation), FeedAction::Nothing));
    assert!(matches!(c.process_message(Frame::Unknown), FeedAction::Nothing));
}

#[test]
fn transport_errors_pick_the_policy() {
    assert_eq!(on_transport_error(true), ReconnectAction::ReconnectNow);
    assert_eq!(
        on_transport_error(false),
        ReconnectAction::WaitThenReconnect { delay_secs: 30 }
    );
    assert_eq!(RECONNECT_DELAY_SECS, 30);
}

#[test]
fn classify_welcome_frame() {
    let text = r#"{
        "metadata": {
            "message_id": "m1",
            "message_type": "session_welcome",
            "message_timestamp": "2023-07-19T14:56:51.634234626Z"
        },
        "payload": {
            "session": {
                "id": "AQoQexAWVYKSTIu4ec_2VAxyuhAB",
                "status": "connected",
                "connected_at": "2023-07-19T14:56:51.616329898Z",
                "keepalive_timeout_seconds": 10,
                "reconnect_url": null
            }
        }
    }"#;
    match classify_frame(text) {
        Frame::Welcome { session_id, reconnect_url } => {
            assert_eq!(session_id, "AQoQexAWVYKSTIu4ec_2VAxyuhAB");
            assert_eq!(reconnect_url, None);
        }
        _ => panic!("a welcome frame must classify as Welcome"),
    }
}

#[test]
fn classify_reconnect_frame() {
    let text = r#"{
        "metadata": {
            "message_id": "m2",
            "message_type": "session_reconnect",
            "message_timestamp": "2023-07-19T14:56:51.634234626Z"
        },
        "payload": {
            "session": {
                "id": "AQoQexAWVYKSTIu4ec_2VAxyuhAB",
                "status": "reconnecting",
                "connected_at": "2023-07-19T14:56:51.616329898Z",
                "keepalive_timeout_seconds": null,
                "reconnect_url": "wss://eventsub.example/ws?challenge=xyz"
            }
        }
    }"#;
    match classify_frame(text) {
        Frame::Reconnect { session_id, reconnect_url } => {
            assert_eq!(session_id, "AQoQexAWVYKSTIu4ec_2VAxyuhAB");
            assert_eq!(reconnect_url.as_deref(), Some("wss://eventsub.example/ws?challenge=xyz"));
        }
        _ => panic!("a reconnect frame must classify as Reconnect"),
    }
}

#[test]
fn classify_keepalive_frame() {
    let text = r#"{
        "metadata": {
            "message_id": "m3",
            "message_type": "session_keepalive",
            "message_timestamp": "2023-07-19T14:56:51.634234626Z"
        },
        "payload": {}
    }"#;
    assert!(matches!(classify_frame(text), Frame::Keepalive));
}

#[test]
fn classify_stream_online_notification() {
    let text = r#"{
        "metadata": {
            "message_id": "m4",
            "message_type": "notification",
            "message_timestamp": "2023-07-19T14:56:51.634234626Z",
            "subscription_type": "stream.online",
            "subscription_version": "1"
        },
        "payload": {
            "subscription": {
                "id": "f1c2a387-161a-49f9-a165-0f21d7a4e1c4",
                "status": "enabled",
                "type": "stream.online",
                "version": "1",
                "cost": 0,
                "condition": { "broadcaster_user_id": "53102824" },
                "transport": { "method": "websocket", "session_id": "AQoQ" },
                "created_at": "2023-07-19T14:56:51.634234626Z"
            },
            "event": {
                "id": "9001",
                "broadcaster_user_id": "53102824",
                "broadcaster_user_login": "samoth691",
                "broadcaster_user_name": "Samoth691",
                "type": "live",
                "started_at": "2023-07-19T14:56:51.634234626Z"
            }
        }
    }"#;
    match classify_frame(text) {
        Frame::Online { user_id, user_login } => {
            assert_eq!(user_id, "53102824");
            assert_eq!(user_login, "samoth691");
        }
        _ => panic!("a stream.online notification must classify as Online"),
    }
}

#[test]
fn classify_stream_offline_notification() {
    let text = r#"{
        "metadata": {
            "message_id": "m5",
            "message_type": "notification",
            "message_timestamp": "2023-07-19T14:56:51.634234626Z",
            "subscription_type": "stream.offline",
            "subscription_version": "1"
        },
        "payload": {
            "subscription": {
                "id": "f1c2a387-161a-49f9-a165-0f21d7a4e1c4",
                "status": "enabled",
                "type": "stream.offline",
                "version": "1",
                "cost": 0,
                "condition": { "broadcaster_user_id": "53102824" },
                "transport": { "method": "websocket", "session_id": "AQoQ" },
                "created_at": "2023-07-19T14:56:51.634234626Z"
            },
            "event": {
                "broadcaster_user_id": "53102824",
                "broadcaster_user_login": "samoth691",
                "broadcaster_user_name": "Samoth691"
            }
        }
    }"#;
    match classify_frame(text) {
        Frame::Offline { user_id, user_login } => {
            assert_eq!(user_id, "53102824");
            assert_eq!(user_login, "samoth691");
        }
        _ => panic!("a stream.offline notification must classify as Offline"),
    }
}

#[test]
fn classify_garbage_is_unknown() {
    assert!(matches!(classify_frame("not even json"), Frame::Unknown));
    assert!(matches!(classify_frame("{}"), Frame::Unknown));
}

#[test]
fn token_env_fallback() {
    let stored = TwitchToken {
        access_token: String::new(),
        refresh_token: "keepme".to_string(),
    };
    let filled = stored.with_env_fallback(
        Some("from-env".to_string()),
        Some("ignored".to_string()),
    );
    assert_eq!(filled.access_token, "from-env");
    assert_eq!(filled.refresh_token, "keepme");
    assert!(filled.is_complete());
    let empty = TwitchToken { access_token: String::new(), refresh_token: String::new() };
    let still_empty = empty.with_env_fallback(None, None);
    assert!(!still_empty.is_complete());
}

use samousse::inter_comm::{InterComm, MessageType};
use samousse::queue::IngestQueue;

fn online(id: &str) -> InterComm {
    InterComm {
        message_type: MessageType::TwitchStreamOnline,
        streamer_user_id: id.to_string(),
        streamer_user_login: format!("login_{id}"),
    }
}

#[test]
fn fifo_order_kept() {
    let mut q = IngestQueue::new(4);
    assert_eq!(q.len(), 0);
    q.push(online("1")).unwrap();
    q.push(online("2")).unwrap();
    q.push(online("3")).unwrap();
    assert_eq!(q.len(), 3);
    assert_eq!(q.pop().unwrap().streamer_user_id, "1");
    assert_eq!(q.pop().unwrap().streamer_user_id, "2");
    q.push(online("4")).unwrap();
    assert_eq!(q.pop().unwrap().streamer_user_id, "3");
    assert_eq!(q.pop().unwrap().streamer_user_id, "4");
    assert!(q.pop().is_none());
}

#[test]
fn full_queue_hands_message_back() {
    let mut q = IngestQueue::new(2);
    assert_eq!(q.capacity(), 2);
    q.push(online("1")).unwrap();
    q.push(online("2")).unwrap();
    let rejected = q.push(online("3"));
    let back = rejected.unwrap_err();
    assert_eq!(back.streamer_user_id, "3");
    // nothing was dropped or reordered
    assert_eq!(q.len(), 2);
    assert_eq!(q.pop().unwrap().streamer_user_id, "1");
    // after draining one, the producer's retry goes through
    q.push(back).unwrap();
    assert_eq!(q.pop().unwrap().streamer_user_id, "2");
    assert_eq!(q.pop().unwrap().streamer_user_id, "3");
}

#[test]
fn pop_on_empty_is_none() {
    let mut q = IngestQueue::new(1);
    assert!(q.pop().is_none());
    assert!(q.pop().is_none());
}

use peer_session::directory::{
    count_messages, peer_key, store_path, touch_peer, PeerConnection, RELAY_ADDRESS,
};

fn record(id: &str, last_seen: u64, count: u64) -> PeerConnection {
    PeerConnection {
        node_id: id.to_string(),
        address: "10.0.0.7:4433".to_string(),
        last_seen,
        message_count: count,
    }
}

#[test]
fn key_is_prefixed_identifier() {
    assert_eq!(peer_key("abc123"), "peer:abc123");
    assert_eq!(peer_key(""), "peer:");
}

#[test]
fn store_lives_under_data_dir() {
    assert_eq!(store_path("/var/lib/app"), "/var/lib/app/peers");
}

#[test]
fn first_contact_creates_relay_record() {
    let r = touch_peer(None, "peerA".to_string(), 1000);
    assert_eq!(r.node_id, "peerA");
    assert_eq!(r.address, RELAY_ADDRESS);
    assert_eq!(r.address, "<relay>");
    assert_eq!(r.last_seen, 1000);
    assert_eq!(r.message_count, 0);
}

#[test]
fn later_contact_keeps_fields_and_moves_last_seen() {
    let r = touch_peer(Some(record("peerA", 500, 7)), "peerA".to_string(), 900);
    assert_eq!(r.address, "10.0.0.7:4433");
    assert_eq!(r.message_count, 7);
    assert_eq!(r.last_seen, 900);
}

#[test]
fn last_seen_never_goes_back() {
    let r = touch_peer(Some(record("peerA", 500, 7)), "peerA".to_string(), 100);
    assert_eq!(r.last_seen, 500);
    let c = count_messages(Some(record("peerA", 500, 7)), 1, 100).unwrap();
    assert_eq!(c.last_seen, 500);
}

#[test]
fn one_message_counts_one() {
    let start = touch_peer(None, "peerA".to_string(), 10);
    let after = count_messages(Some(start), 1, 20).unwrap();
    assert_eq!(after.message_count, 1);
    assert_eq!(after.last_seen, 20);
    assert_eq!(after.node_id, "peerA");
}

#[test]
fn unknown_peer_gets_no_record_from_a_message() {
    assert!(count_messages(None, 1, 20).is_none());
}

#[test]
fn counter_saturates_at_largest_value() {
    let c = count_messages(Some(record("peerA", 1, u64::MAX - 1)), 5, 2).unwrap();
    assert_eq!(c.message_count, u64::MAX);
}

#[test]
fn n_messages_in_any_order_count_n() {
    let mut times: Vec<u64> = (0..50u64).map(|i| (i * 37) % 50 + 100).collect();
    let mut a = Some(touch_peer(None, "peerA".to_string(), 1));
    for t in &times {
        a = count_messages(a, 1, *t);
    }
    times.reverse();
    let mut b = Some(touch_peer(None, "peerA".to_string(), 1));
    for t in &times {
        b = count_messages(b, 1, *t);
    }
    let (a, b) = (a.unwrap(), b.unwrap());
    assert_eq!(a.message_count, 50);
    assert_eq!(b.message_count, 50);
    assert_eq!(a.last_seen, 149);
    assert_eq!(b.last_seen, 149);
}

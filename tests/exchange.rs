use peer_session::events::DeliveryMode;
use peer_session::exchange::{ack_text, BiAction, BiEvent, BiExchange, BiPhase};

#[test]
fn ack_carries_own_identifier() {
    assert_eq!(ack_text("nodeB"), "ACK from nodeB!");
}

#[test]
fn ping_is_recorded_then_acknowledged() {
    let mut x = BiExchange::new("nodeA".to_string(), "nodeB".to_string());
    assert_eq!(x.phase(), BiPhase::Reading);
    match x.on_event(BiEvent::RequestRead(b"ping".to_vec())) {
        BiAction::Record(m) => {
            assert_eq!(m.sender, "nodeA");
            assert_eq!(m.content, "ping");
            assert_eq!(m.mode, DeliveryMode::Bi);
        }
        _ => panic!("request not recorded"),
    }
    assert_eq!(x.phase(), BiPhase::Recording);
    match x.on_event(BiEvent::Recorded) {
        BiAction::WriteAck(t) => assert_eq!(t, "ACK from nodeB!"),
        _ => panic!("no acknowledgement"),
    }
    assert_eq!(x.phase(), BiPhase::Acknowledging);
    assert!(matches!(x.on_event(BiEvent::AckSent), BiAction::Stop));
    assert_eq!(x.phase(), BiPhase::Done);
}

#[test]
fn failed_ack_leaves_receipt_recorded() {
    let mut x = BiExchange::new("nodeA".to_string(), "nodeB".to_string());
    let first = x.on_event(BiEvent::RequestRead(b"ping".to_vec()));
    assert!(matches!(first, BiAction::Record(_)));
    assert!(matches!(x.on_event(BiEvent::Recorded), BiAction::WriteAck(_)));
    assert!(matches!(x.on_event(BiEvent::AckFailed), BiAction::Stop));
    assert_eq!(x.phase(), BiPhase::Done);
}

#[test]
fn failed_read_ends_without_ack() {
    let mut x = BiExchange::new("nodeA".to_string(), "nodeB".to_string());
    assert!(matches!(x.on_event(BiEvent::ReadFailed), BiAction::Stop));
    assert_eq!(x.phase(), BiPhase::Done);
    assert!(matches!(x.on_event(BiEvent::Recorded), BiAction::Stop));
}

#[test]
fn failed_record_is_not_acknowledged() {
    let mut x = BiExchange::new("nodeA".to_string(), "nodeB".to_string());
    assert!(matches!(x.on_event(BiEvent::RequestRead(b"ping".to_vec())), BiAction::Record(_)));
    assert!(matches!(x.on_event(BiEvent::RecordFailed), BiAction::Stop));
    assert_eq!(x.phase(), BiPhase::Done);
}

#[test]
fn ack_before_request_is_ignored() {
    let mut x = BiExchange::new("nodeA".to_string(), "nodeB".to_string());
    assert!(matches!(x.on_event(BiEvent::Recorded), BiAction::Stop));
    assert_eq!(x.phase(), BiPhase::Done);
}

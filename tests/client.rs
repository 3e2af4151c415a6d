use peer_session::client::{error_event, ClientSlot, ClientState, InitError, SendError, SendStep};
use peer_session::events::SessionEvent;
use peer_session::identity::{public_key_hex, NodeInfo};

#[test]
fn second_initialize_is_refused() {
    let mut slot = ClientSlot::new();
    assert_eq!(slot.state(), ClientState::Uninitialized);
    assert_eq!(slot.claim(), Ok(()));
    assert_eq!(slot.state(), ClientState::Starting);
    assert_eq!(slot.claim(), Err(InitError::AlreadyInitialized));
    assert_eq!(slot.started(Ok(())), Ok(()));
    assert_eq!(slot.state(), ClientState::Running);
    assert_eq!(slot.claim(), Err(InitError::AlreadyInitialized));
}

#[test]
fn close_is_idempotent() {
    let mut slot = ClientSlot::new();
    assert!(!slot.close());
    slot.claim().unwrap();
    slot.started(Ok(())).unwrap();
    assert!(slot.close());
    assert_eq!(slot.state(), ClientState::Closed);
    assert!(!slot.close());
    assert_eq!(slot.state(), ClientState::Closed);
    assert_eq!(slot.claim(), Ok(()));
}

#[test]
fn failed_start_frees_the_slot() {
    let mut slot = ClientSlot::new();
    slot.claim().unwrap();
    assert_eq!(slot.started(Err(InitError::Bind)), Err(InitError::Bind));
    assert_eq!(slot.state(), ClientState::Uninitialized);
    slot.claim().unwrap();
    assert_eq!(slot.started(Err(InitError::Storage)), Err(InitError::Storage));
    assert_eq!(slot.claim(), Ok(()));
}

#[test]
fn send_errors_by_step() {
    assert_eq!(SendError::at(SendStep::Connect), SendError::Unreachable);
    assert_eq!(SendError::at(SendStep::OpenStream), SendError::StreamFailure);
    assert_eq!(SendError::at(SendStep::Write), SendError::StreamFailure);
    assert_eq!(SendError::at(SendStep::Finish), SendError::StreamFailure);
}

#[test]
fn error_event_carries_description() {
    assert!(matches!(error_event("accept failed".to_string()), SessionEvent::Error { ref description } if description == "accept failed"));
}

#[test]
fn public_key_in_lower_hex() {
    assert_eq!(public_key_hex(&[0xab, 0x01, 0xff, 0x00]), "ab01ff00");
    assert_eq!(public_key_hex(&[]), "");
    let info = NodeInfo::new("nodeB".to_string(), &[0x0f, 0xa0]);
    assert_eq!(info.node_id, "nodeB");
    assert_eq!(info.public_key, "0fa0");
}

use vstd::prelude::*;
use crate::payload::{decode_text, lossy_text, all_ascii, ascii_chars};

verus! {

/// Whether a connection with a peer began or ended.
#[derive(Clone, Copy, Debug, PartialEq, Eq, Structural)]
pub enum ConnectionStatus {
    Connected,
    Disconnected,
}

impl ConnectionStatus {
    pub open spec fn text(self) -> Seq<char> {
        match self {
            ConnectionStatus::Connected => "connected"@,
            ConnectionStatus::Disconnected => "disconnected"@,
        }
    }

    /// The name under which the status is reported.
    pub fn as_str(&self) -> (r: &'static str)
        ensures
            r@ == self.text(),
    {
        match self {
            ConnectionStatus::Connected => "connected",
            ConnectionStatus::Disconnected => "disconnected",
        }
    }
}

/// How a message reached this node.
#[derive(Clone, Copy, Debug, PartialEq, Eq, Structural)]
pub enum DeliveryMode {
    Uni,
    Bi,
    Datagram,
}

/// A message received from a peer.
pub struct InboundMessage {
    pub sender: String,
    pub content: String,
    pub mode: DeliveryMode,
}

/// What the session reports to its consumer.
pub enum SessionEvent {
    Connection { peer_id: String, status: ConnectionStatus },
    Message { sender: String, content: String },
    Error { description: String },
}

impl InboundMessage {
    /// The message received from `sender` with payload `payload`.
    pub fn decode(sender: &String, payload: &[u8], mode: DeliveryMode) -> (r: InboundMessage)
        ensures
            r.sender@ == sender@,
            r.content@ == lossy_text(payload@),
            all_ascii(payload@) ==> r.content@ == ascii_chars(payload@),
            r.mode == mode,
    {
        InboundMessage { sender: sender.clone(), content: decode_text(payload), mode }
    }

    /// The event that reports this message.
    pub fn to_event(&self) -> (r: SessionEvent)
        ensures
            reports_message(r, self.sender@, self.content@),
    {
        SessionEvent::Message { sender: self.sender.clone(), content: self.content.clone() }
    }
}

/// `e` reports that the connection with `peer` reached `status`.
pub open spec fn reports_connection(e: SessionEvent, peer: Seq<char>, status: ConnectionStatus) -> bool {
    match e {
        SessionEvent::Connection { peer_id, status: s } => peer_id@ == peer && s == status,
        _ => false,
    }
}

/// `e` reports a message from `sender` whose text is `content`.
pub open spec fn reports_message(e: SessionEvent, sender: Seq<char>, content: Seq<char>) -> bool {
    match e {
        SessionEvent::Message { sender: s, content: c } => s@ == sender && c@ == content,
        _ => false,
    }
}

/// The event that reports a connection with `peer_id` beginning or ending.
pub fn connection_event(peer_id: &String, status: ConnectionStatus) -> (r: SessionEvent)
    ensures
        r matches SessionEvent::Connection { peer_id: p, status: s }
            && p@ == peer_id@ && s == status,
{
    SessionEvent::Connection { peer_id: peer_id.clone(), status }
}

} // verus!

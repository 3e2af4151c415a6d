use vstd::prelude::*;
use crate::events::{DeliveryMode, InboundMessage};
use crate::payload::lossy_text;

verus! {

/// The acknowledgement a node writes back on a bidirectional stream: its own
/// identifier, as text.
pub open spec fn ack_of(local_id: Seq<char>) -> Seq<char> {
    "ACK from "@ + local_id + "!"@
}

/// The acknowledgement that the node `local_id` writes back.
pub fn ack_text(local_id: &str) -> (r: String)
    ensures
        r@ == ack_of(local_id@),
{
    let head = String::from_str("ACK from ");
    let with_id = head.concat(local_id);
    with_id.concat("!")
}

/// Where a request/acknowledge exchange on one bidirectional stream stands.
#[derive(Clone, Copy, Debug, PartialEq, Eq, Structural)]
pub enum BiPhase {
    /// The request is being read.
    Reading,
    /// The request was read; its receipt is being recorded.
    Recording,
    /// The receipt is recorded; the acknowledgement is being written.
    Acknowledging,
    /// Nothing more happens on the stream.
    Done,
}

/// What the caller observed while running the exchange.
pub enum BiEvent {
    /// The request payload was read in full (or up to the size bound).
    RequestRead(Vec<u8>),
    /// Reading the request failed.
    ReadFailed,
    /// The message was reported and counted.
    Recorded,
    /// Counting the message in the directory failed.
    RecordFailed,
    /// The acknowledgement was written and the send half finished.
    AckSent,
    /// Writing the acknowledgement failed.
    AckFailed,
}

/// What the caller is to do next.
pub enum BiAction {
    /// Report the message and count it for the peer.
    Record(InboundMessage),
    /// Write this text on the send half, then finish it.
    WriteAck(String),
    /// The exchange is over.
    Stop,
}

#[derive(Clone, Copy, Debug, PartialEq, Eq, Structural)]
pub enum BiActionKind {
    Record,
    WriteAck,
    Stop,
}

pub open spec fn bi_kind_of(a: BiAction) -> BiActionKind {
    match a {
        BiAction::Record(_) => BiActionKind::Record,
        BiAction::WriteAck(_) => BiActionKind::WriteAck,
        BiAction::Stop => BiActionKind::Stop,
    }
}

/// The phase after `ev` in phase `p`.
pub open spec fn bi_next(p: BiPhase, ev: BiEvent) -> BiPhase {
    match (p, ev) {
        (BiPhase::Reading, BiEvent::RequestRead(_)) => BiPhase::Recording,
        (BiPhase::Recording, BiEvent::Recorded) => BiPhase::Acknowledging,
        _ => BiPhase::Done,
    }
}

/// The kind of action for `ev` in phase `p`.
pub open spec fn bi_action(p: BiPhase, ev: BiEvent) -> BiActionKind {
    match (p, ev) {
        (BiPhase::Reading, BiEvent::RequestRead(_)) => BiActionKind::Record,
        (BiPhase::Recording, BiEvent::Recorded) => BiActionKind::WriteAck,
        _ => BiActionKind::Stop,
    }
}

pub open spec fn bi_phase_after(p: BiPhase, evs: Seq<BiEvent>) -> BiPhase
    decreases evs.len(),
{
    if evs.len() == 0 {
        p
    } else {
        bi_next(bi_phase_after(p, evs.drop_last()), evs.last())
    }
}

/// The kinds of the actions handed out for `evs`, one for each.
pub open spec fn bi_actions(p: BiPhase, evs: Seq<BiEvent>) -> Seq<BiActionKind>
    decreases evs.len(),
{
    if evs.len() == 0 {
        Seq::empty()
    } else {
        bi_actions(p, evs.drop_last()).push(bi_action(bi_phase_after(p, evs.drop_last()), evs.last()))
    }
}

/// One request/acknowledge exchange on a bidirectional stream opened by
/// `peer_id`, answered by the node `local_id`.
pub struct BiExchange {
    peer_id: String,
    local_id: String,
    phase: BiPhase,
}

impl BiExchange {
    pub closed spec fn peer(&self) -> Seq<char> {
        self.peer_id@
    }

    pub closed spec fn local(&self) -> Seq<char> {
        self.local_id@
    }

    pub closed spec fn at(&self) -> BiPhase {
        self.phase
    }

    /// An exchange about to read the request.
    pub fn new(peer_id: String, local_id: String) -> (r: BiExchange)
        ensures
            r.peer() == peer_id@,
            r.local() == local_id@,
            r.at() == BiPhase::Reading,
    {
        BiExchange { peer_id, local_id, phase: BiPhase::Reading }
    }

    /// Where the exchange stands.
    pub fn phase(&self) -> (r: BiPhase)
        ensures
            r == self.at(),
    {
        self.phase
    }

    /// Decides the next step: a request read is recorded first, and only a
    /// recorded one is acknowledged; any failure ends the exchange without
    /// undoing what was recorded.
    pub fn on_event(&mut self, ev: BiEvent) -> (r: BiAction)
        ensures
            final(self).peer() == old(self).peer(),
            final(self).local() == old(self).local(),
            final(self).at() == bi_next(old(self).at(), ev),
            bi_kind_of(r) == bi_action(old(self).at(), ev),
            r matches BiAction::Record(m) ==> (ev matches BiEvent::RequestRead(b)
                && m.sender@ == old(self).peer() && m.content@ == lossy_text(b@)
                && m.mode == DeliveryMode::Bi),
            r matches BiAction::WriteAck(t) ==> t@ == ack_of(old(self).local()),
    {
        match (self.phase, ev) {
            (BiPhase::Reading, BiEvent::RequestRead(b)) => {
                self.phase = BiPhase::Recording;
                BiAction::Record(InboundMessage::decode(&self.peer_id, b.as_slice(), DeliveryMode::Bi))
            },
            (BiPhase::Recording, BiEvent::Recorded) => {
                self.phase = BiPhase::Acknowledging;
                BiAction::WriteAck(ack_text(self.local_id.as_str()))
            },
            _ => {
                self.phase = BiPhase::Done;
                BiAction::Stop
            },
        }
    }
}

proof fn lemma_bi_actions_index(p: BiPhase, evs: Seq<BiEvent>)
    ensures
        bi_actions(p, evs).len() == evs.len(),
        forall|j: int|
            0 <= j < evs.len() ==> #[trigger] bi_actions(p, evs)[j] == bi_action(
                bi_phase_after(p, evs.take(j)),
                evs[j],
            ),
    decreases evs.len(),
{
    if evs.len() > 0 {
        let q = evs.drop_last();
        lemma_bi_actions_index(p, q);
        assert forall|j: int| 0 <= j < evs.len() implies #[trigger] bi_actions(p, evs)[j]
            == bi_action(bi_phase_after(p, evs.take(j)), evs[j]) by {
            if j < q.len() {
                assert(q.take(j) == evs.take(j));
                assert(q[j] == evs[j]);
            } else {
                assert(evs.take(j) == q);
            }
        }
    }
}

/// An acknowledgement is written only for a request whose receipt was
/// recorded just before: in any run of an exchange, a `WriteAck` follows
/// right after a `Record`, so a failed acknowledgement finds the message
/// recorded already.
pub proof fn lemma_recorded_before_ack(evs: Seq<BiEvent>, j: int)
    requires
        0 <= j < evs.len(),
        bi_actions(BiPhase::Reading, evs)[j] == BiActionKind::WriteAck,
    ensures
        j >= 1,
        bi_actions(BiPhase::Reading, evs)[j - 1] == BiActionKind::Record,
{
    lemma_bi_actions_index(BiPhase::Reading, evs);
    if j == 0 {
        assert(evs.take(0) =~= Seq::<BiEvent>::empty());
    } else {
        assert(evs.take(j).drop_last() == evs.take(j - 1));
        assert(evs.take(j).last() == evs[j - 1]);
    }
}

} // verus!

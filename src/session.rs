use vstd::prelude::*;
use crate::events::{connection_event, reports_connection, ConnectionStatus, DeliveryMode, InboundMessage, SessionEvent};
use crate::payload::lossy_text;

verus! {

/// An accepted connection whose remote identifier could not be read; it is
/// dropped before any stream is handled.
#[derive(Clone, Copy, Debug, PartialEq, Eq, Structural)]
pub struct ProtocolViolation;

/// What the transport reported on an accepted connection.
pub enum TransportEvent {
    /// A unidirectional stream was opened by the peer.
    UniStream,
    /// A bidirectional stream was opened by the peer.
    BiStream,
    /// A datagram arrived.
    Datagram(Vec<u8>),
    /// The connection was closed, or every source is exhausted.
    Closed,
    /// Accepting from the connection failed.
    Failed,
}

/// What the caller is to do next for a connection.
pub enum Dispatch {
    /// Run the unidirectional handler on the new stream, as a task of its own.
    HandleUni,
    /// Run the bidirectional handler on the new stream, as a task of its own.
    HandleBi,
    /// Report the message and count it for the peer.
    Deliver(InboundMessage),
    /// Report the end of the connection and stop accepting from it.
    Finish(SessionEvent),
    /// Nothing: the connection is over.
    Idle,
}

/// The shape of a [`Dispatch`], without its payload.
#[derive(Clone, Copy, Debug, PartialEq, Eq, Structural)]
pub enum DispatchKind {
    HandleUni,
    HandleBi,
    Deliver,
    Finish,
    Idle,
}

pub open spec fn kind_of(d: Dispatch) -> DispatchKind {
    match d {
        Dispatch::HandleUni => DispatchKind::HandleUni,
        Dispatch::HandleBi => DispatchKind::HandleBi,
        Dispatch::Deliver(_) => DispatchKind::Deliver,
        Dispatch::Finish(_) => DispatchKind::Finish,
        Dispatch::Idle => DispatchKind::Idle,
    }
}

pub open spec fn ends_connection(ev: TransportEvent) -> bool {
    ev is Closed || ev is Failed
}

/// The kind of work a connection in the given state hands out for `ev`.
pub open spec fn dispatch_kind(closed: bool, ev: TransportEvent) -> DispatchKind {
    if closed {
        DispatchKind::Idle
    } else {
        match ev {
            TransportEvent::UniStream => DispatchKind::HandleUni,
            TransportEvent::BiStream => DispatchKind::HandleBi,
            TransportEvent::Datagram(_) => DispatchKind::Deliver,
            TransportEvent::Closed => DispatchKind::Finish,
            TransportEvent::Failed => DispatchKind::Finish,
        }
    }
}

/// Whether the connection is over after the events `evs`.
pub open spec fn closed_after(closed: bool, evs: Seq<TransportEvent>) -> bool
    decreases evs.len(),
{
    if evs.len() == 0 {
        closed
    } else {
        closed_after(closed, evs.drop_last()) || ends_connection(evs.last())
    }
}

/// The kinds of work handed out for the events `evs`, one for each.
pub open spec fn dispatched(closed: bool, evs: Seq<TransportEvent>) -> Seq<DispatchKind>
    decreases evs.len(),
{
    if evs.len() == 0 {
        Seq::empty()
    } else {
        dispatched(closed, evs.drop_last()).push(
            dispatch_kind(closed_after(closed, evs.drop_last()), evs.last()),
        )
    }
}

/// One accepted connection, from the moment its peer is known until the
/// transport ends it.
pub struct ConnectionSession {
    peer_id: String,
    closed: bool,
}

impl ConnectionSession {
    pub closed spec fn peer(&self) -> Seq<char> {
        self.peer_id@
    }

    pub closed spec fn is_over(&self) -> bool {
        self.closed
    }

    /// The identifier of the remote peer.
    pub fn peer_id(&self) -> (r: &String)
        ensures
            r@ == self.peer(),
    {
        &self.peer_id
    }

    /// Whether the connection has ended.
    pub fn is_closed(&self) -> (r: bool)
        ensures
            r == self.is_over(),
    {
        self.closed
    }

    /// Begins the session of an accepted connection whose remote identifier is
    /// `remote`, with the event that reports it connected; a connection
    /// without one is a protocol violation.
    pub fn accept(remote: Option<String>) -> (r: Result<(ConnectionSession, SessionEvent), ProtocolViolation>)
        ensures
            match remote {
                Some(id) => match r {
                    Ok((s, e)) => s.peer() == id@ && !s.is_over() && reports_connection(
                        e,
                        id@,
                        ConnectionStatus::Connected,
                    ),
                    Err(_) => false,
                },
                None => r is Err,
            },
    {
        match remote {
            Some(id) => {
                let e = connection_event(&id, ConnectionStatus::Connected);
                Ok((ConnectionSession { peer_id: id, closed: false }, e))
            },
            None => Err(ProtocolViolation),
        }
    }

    /// Decides what to do with what the transport reported: a stream gets a
    /// handler of its own, a datagram is delivered as a message, and the end
    /// of the connection is reported once; after that nothing is handed out.
    pub fn on_event(&mut self, ev: TransportEvent) -> (r: Dispatch)
        ensures
            final(self).peer() == old(self).peer(),
            final(self).is_over() == (old(self).is_over() || ends_connection(ev)),
            kind_of(r) == dispatch_kind(old(self).is_over(), ev),
            r matches Dispatch::Deliver(m) ==> (ev matches TransportEvent::Datagram(d)
                && m.sender@ == old(self).peer() && m.content@ == lossy_text(d@)
                && m.mode == DeliveryMode::Datagram),
            r matches Dispatch::Finish(e) ==> reports_connection(
                e,
                old(self).peer(),
                ConnectionStatus::Disconnected,
            ),
    {
        if self.closed {
            return Dispatch::Idle;
        }
        match ev {
            TransportEvent::UniStream => Dispatch::HandleUni,
            TransportEvent::BiStream => Dispatch::HandleBi,
            TransportEvent::Datagram(d) => {
                Dispatch::Deliver(InboundMessage::decode(&self.peer_id, d.as_slice(), DeliveryMode::Datagram))
            },
            TransportEvent::Closed | TransportEvent::Failed => {
                self.closed = true;
                Dispatch::Finish(connection_event(&self.peer_id, ConnectionStatus::Disconnected))
            },
        }
    }
}

proof fn lemma_dispatched_index(c: bool, evs: Seq<TransportEvent>)
    ensures
        dispatched(c, evs).len() == evs.len(),
        forall|j: int|
            0 <= j < evs.len() ==> #[trigger] dispatched(c, evs)[j] == dispatch_kind(
                closed_after(c, evs.take(j)),
                evs[j],
            ),
    decreases evs.len(),
{
    if evs.len() > 0 {
        let p = evs.drop_last();
        lemma_dispatched_index(c, p);
        assert forall|j: int| 0 <= j < evs.len() implies #[trigger] dispatched(c, evs)[j]
            == dispatch_kind(closed_after(c, evs.take(j)), evs[j]) by {
            if j < p.len() {
                assert(p.take(j) == evs.take(j));
                assert(p[j] == evs[j]);
            } else {
                assert(evs.take(j) == p);
            }
        }
    }
}

proof fn lemma_closed_at(evs: Seq<TransportEvent>, k: int, j: int)
    requires
        0 <= k < evs.len(),
        ends_connection(evs[k]),
        forall|i: int| 0 <= i < k ==> !ends_connection(#[trigger] evs[i]),
        0 <= j <= evs.len(),
    ensures
        closed_after(false, evs.take(j)) == (j > k),
    decreases j,
{
    if j > 0 {
        lemma_closed_at(evs, k, j - 1);
        assert(evs.take(j).drop_last() == evs.take(j - 1));
        assert(evs.take(j).last() == evs[j - 1]);
    }
}

/// Once the transport ends a connection, the end is reported exactly once and
/// nothing more is handed out: for a run of events on an open connection whose
/// first ending event stands at `k`, the single `Finish` is the one at `k`, and
/// every later event gets `Idle`, so no message is delivered after it.
pub proof fn lemma_end_reported_once(evs: Seq<TransportEvent>, k: int)
    requires
        0 <= k < evs.len(),
        ends_connection(evs[k]),
        forall|i: int| 0 <= i < k ==> !ends_connection(#[trigger] evs[i]),
    ensures
        dispatched(false, evs).len() == evs.len(),
        dispatched(false, evs)[k] == DispatchKind::Finish,
        forall|j: int|
            0 <= j < evs.len() && j != k ==> #[trigger] dispatched(false, evs)[j]
                != DispatchKind::Finish,
        forall|j: int| k < j < evs.len() ==> #[trigger] dispatched(false, evs)[j] == DispatchKind::Idle,
        closed_after(false, evs),
{
    lemma_dispatched_index(false, evs);
    lemma_closed_at(evs, k, k);
    assert forall|j: int| 0 <= j < evs.len() && j != k implies #[trigger] dispatched(false, evs)[j]
        != DispatchKind::Finish by {
        lemma_closed_at(evs, k, j);
    }
    assert forall|j: int| k < j < evs.len() implies #[trigger] dispatched(false, evs)[j]
        == DispatchKind::Idle by {
        lemma_closed_at(evs, k, j);
    }
    lemma_closed_at(evs, k, evs.len() as int);
    assert(evs.take(evs.len() as int) == evs);
}

} // verus!

use vstd::prelude::*;
use crate::events::SessionEvent;

verus! {

/// Where the one session client of the process stands.
#[derive(Clone, Copy, Debug, PartialEq, Eq, Structural)]
pub enum ClientState {
    Uninitialized,
    /// A client is being built: its endpoint bound, its directory opened.
    Starting,
    Running,
    Closed,
}

/// Why a client could not be initialized.
#[derive(Clone, Copy, Debug, PartialEq, Eq, Structural)]
pub enum InitError {
    /// A client is active already.
    AlreadyInitialized,
    /// The peer directory could not be opened.
    Storage,
    /// The endpoint could not bind.
    Bind,
}

/// The step of an outbound send that failed.
#[derive(Clone, Copy, Debug, PartialEq, Eq, Structural)]
pub enum SendStep {
    Connect,
    OpenStream,
    Write,
    Finish,
}

/// Why a message could not be sent.
#[derive(Clone, Copy, Debug, PartialEq, Eq, Structural)]
pub enum SendError {
    /// No connection to the peer could be made.
    Unreachable,
    /// The connection was made but the stream could not be written.
    StreamFailure,
}

impl SendError {
    /// The error of a send that failed at `step`.
    pub fn at(step: SendStep) -> (r: SendError)
        ensures
            r == (if step == SendStep::Connect {
                SendError::Unreachable
            } else {
                SendError::StreamFailure
            }),
    {
        match step {
            SendStep::Connect => SendError::Unreachable,
            _ => SendError::StreamFailure,
        }
    }
}

/// The process-wide handle that guards the single session client: every
/// change of state is one check-and-set on it, and no long operation runs
/// while it is held.
pub struct ClientSlot {
    state: ClientState,
}

impl ClientSlot {
    pub closed spec fn current(&self) -> ClientState {
        self.state
    }

    pub open spec fn active(s: ClientState) -> bool {
        s == ClientState::Starting || s == ClientState::Running
    }

    /// A slot with no client.
    pub fn new() -> (r: ClientSlot)
        ensures
            r.current() == ClientState::Uninitialized,
    {
        ClientSlot { state: ClientState::Uninitialized }
    }

    /// The state of the slot.
    pub fn state(&self) -> (r: ClientState)
        ensures
            r == self.current(),
    {
        self.state
    }

    /// Claims the slot before a client is built; fails while another client
    /// is starting or running.
    pub fn claim(&mut self) -> (r: Result<(), InitError>)
        ensures
            Self::active(old(self).current()) <==> r == Err::<(), InitError>(
                InitError::AlreadyInitialized,
            ),
            !Self::active(old(self).current()) <==> r is Ok,
            r is Ok ==> final(self).current() == ClientState::Starting,
            r is Err ==> final(self).current() == old(self).current(),
    {
        if Self::is_active(self.state) {
            Err(InitError::AlreadyInitialized)
        } else {
            self.state = ClientState::Starting;
            Ok(())
        }
    }

    fn is_active(s: ClientState) -> (r: bool)
        ensures
            r == Self::active(s),
    {
        match s {
            ClientState::Starting | ClientState::Running => true,
            _ => false,
        }
    }

    /// Ends the start of a claimed slot: it runs if the client was built,
    /// and is free again if building it failed with `error`.
    pub fn started(&mut self, outcome: Result<(), InitError>) -> (r: Result<(), InitError>)
        requires
            old(self).current() == ClientState::Starting,
        ensures
            r == outcome,
            final(self).current() == (if outcome is Ok {
                ClientState::Running
            } else {
                ClientState::Uninitialized
            }),
    {
        if outcome.is_ok() {
            self.state = ClientState::Running;
        } else {
            self.state = ClientState::Uninitialized;
        }
        outcome
    }

    /// Closes the running client; returns whether the endpoint is to be
    /// released now. Closing again, or closing when nothing runs, does
    /// nothing.
    pub fn close(&mut self) -> (r: bool)
        ensures
            r == (old(self).current() == ClientState::Running),
            final(self).current() == (if old(self).current() == ClientState::Running {
                ClientState::Closed
            } else {
                old(self).current()
            }),
    {
        match self.state {
            ClientState::Running => {
                self.state = ClientState::Closed;
                true
            },
            _ => false,
        }
    }
}

/// The event that reports a failure once to the consumer.
pub fn error_event(description: String) -> (r: SessionEvent)
    ensures
        r matches SessionEvent::Error { description: d } && d@ == description@,
{
    SessionEvent::Error { description }
}

} // verus!

use vstd::prelude::*;
use crate::error::PacketSendError;
use crate::packet::Packet;

verus! {

/// The lifecycle of one transport session. A session is made, opens, and
/// once anything ends it — the peer, an error, or a shutdown — it closes
/// its socket and is done; nothing reopens it.
#[derive(Debug, Clone, Copy, PartialEq, Eq, Structural)]
pub enum SessionState {
    Connecting,
    Open,
    Closing,
    Closed,
}

/// What a session's I/O loops observed since the state was last stepped.
#[derive(Debug, Clone, Copy, PartialEq, Eq, Structural)]
pub enum SessionEvent {
    /// The connection completed; the session owns its queues now.
    ConnectionEstablished,
    /// Ordinary traffic, or no data yet: nothing changes.
    PacketsExchanged,
    /// The inbound queue's consumer is gone; nobody reads what arrives.
    ConsumerGone,
    /// An I/O failure other than data not having arrived yet.
    IoFailed,
    /// The peer sent a packet type outside the catalog.
    PeerNonConformant,
    /// The application asked the session to end.
    ShutdownRequested,
    /// The socket is shut down in both directions.
    SocketsClosed,
}

impl SessionState {
    /// The state a session moves to on an event: a fresh connection opens
    /// it; anything fatal starts it closing; closed sockets finish it; a
    /// finished session stays finished.
    pub open spec fn step_spec(self, event: SessionEvent) -> SessionState {
        match (self, event) {
            (SessionState::Closed, _) => SessionState::Closed,
            (_, SessionEvent::SocketsClosed) => SessionState::Closed,
            (_, SessionEvent::ConsumerGone) => SessionState::Closing,
            (_, SessionEvent::IoFailed) => SessionState::Closing,
            (_, SessionEvent::PeerNonConformant) => SessionState::Closing,
            (_, SessionEvent::ShutdownRequested) => SessionState::Closing,
            (SessionState::Connecting, SessionEvent::ConnectionEstablished) => SessionState::Open,
            (s, _) => s,
        }
    }

    /// Steps the session's lifecycle by one observed event.
    pub fn step(self, event: SessionEvent) -> (r: SessionState)
        ensures
            r == self.step_spec(event),
    {
        match (self, event) {
            (SessionState::Closed, _) => SessionState::Closed,
            (_, SessionEvent::SocketsClosed) => SessionState::Closed,
            (_, SessionEvent::ConsumerGone) => SessionState::Closing,
            (_, SessionEvent::IoFailed) => SessionState::Closing,
            (_, SessionEvent::PeerNonConformant) => SessionState::Closing,
            (_, SessionEvent::ShutdownRequested) => SessionState::Closing,
            (SessionState::Connecting, SessionEvent::ConnectionEstablished) => SessionState::Open,
            (s, _) => s,
        }
    }

    /// Whether the session's loops should keep polling the socket.
    pub fn should_poll(&self) -> (r: bool)
        ensures
            r == (*self == SessionState::Open),
    {
        matches!(self, SessionState::Open)
    }

    /// Whether the session still has its socket to close.
    pub fn needs_socket_close(&self) -> (r: bool)
        ensures
            r == (*self == SessionState::Closing),
    {
        matches!(self, SessionState::Closing)
    }
}

/// A closed session is closed for good: no event reopens it, and a closing
/// one only ever closes.
pub proof fn lemma_session_close_is_final(state: SessionState, event: SessionEvent)
    ensures
        state == SessionState::Closed ==> state.step_spec(event) == SessionState::Closed,
        state == SessionState::Closing ==> state.step_spec(event) == SessionState::Closing
            || state.step_spec(event) == SessionState::Closed,
{
}

/// One side's handle on the transport: the application hands packets to be
/// sent to `enqueue_packet`, drains what arrived with `retrieve_incoming`,
/// and shuts the connections down with `close_all`. Implementations run
/// the socket loops outside the library; no behaviour is promised of them
/// here.
pub trait NetworkHandler: Sized {
    /// Queues a packet to be sent; fails when the transport is gone.
    fn enqueue_packet(&self, packet: Packet) -> Result<(), PacketSendError>;

    /// All packets received since the last call, in arrival order.
    fn retrieve_incoming(&mut self) -> Vec<Packet>;

    /// Shuts down every connection this handler owns.
    fn close_all(self);
}

} // verus!

//! The connection lifecycle as the pool manager decides it.
//!
//! Establishing a connection and probing it are operations against the
//! network; they report back one of a small set of events. Everything the
//! manager then decides — which error classifies a failed handshake, whether
//! a probed connection may be handed out again or must be discarded — is a
//! pure function of that event, and is stated and proved here over a plain
//! model of one pooled connection's state.

use vstd::prelude::*;

verus! {

use crate::errors::ConnError;

/// What one connect handshake against the endpoint reported.
#[derive(Clone, Copy, Debug, PartialEq, Eq, Structural)]
pub enum ConnectEvent {
    /// The handshake completed and a session is established.
    Established,
    /// The handshake did not finish within the configured connect timeout.
    TimedOut,
    /// The socket or the TLS negotiation failed below the protocol.
    TransportFailed,
    /// The remote peer answered the handshake with a rejection or garbage.
    Rejected,
}

/// What one liveness probe on an idle connection reported.
#[derive(Clone, Copy, Debug, PartialEq, Eq, Structural)]
pub enum ProbeEvent {
    /// The probe's round trip completed with a response.
    Response,
    /// The probe did not complete within the configured operation timeout.
    TimedOut,
    /// The transport under the connection is closed.
    Closed,
    /// The remote peer answered the probe with a malformed or rejecting
    /// response.
    Rejected,
}

/// State of one pooled connection, as the pool's bookkeeping sees it:
/// whether the transport under it is still open, and whether the driver
/// task that services its protocol framing is running.
#[derive(Clone, Copy, Debug, PartialEq, Eq, Structural)]
pub struct ConnState {
    /// The transport (socket, TLS session) under the connection is open.
    pub transport_open: bool,
    /// The background driver task for this connection is running.
    pub driver_running: bool,
}

impl ConnState {
    /// The lifecycle invariant: exactly one driver task serves a connection
    /// for as long as its transport is open, and the driver terminates
    /// exactly when the transport closes or irrecoverably errors.
    pub open spec fn wf(self) -> bool {
        self.driver_running == self.transport_open
    }

    /// The state of a connection fresh out of a successful handshake: its
    /// transport is open and its driver task has been spawned.
    pub fn fresh() -> (r: Self)
        ensures
            r.wf(),
            r.transport_open,
            r.driver_running,
    {
        ConnState { transport_open: true, driver_running: true }
    }

    /// The remote endpoint closes the transport out from under the
    /// connection; the driver observes the closed transport and terminates.
    pub fn close(&mut self)
        ensures
            final(self).wf(),
            !final(self).transport_open,
            !final(self).driver_running,
    {
        self.transport_open = false;
        self.driver_running = false;
    }

    /// What a probe of a connection in this state reports, against an
    /// endpoint that answers while the transport is open: a closed
    /// transport never yields a response.
    pub open spec fn probe_event_spec(self) -> ProbeEvent {
        if self.transport_open {
            ProbeEvent::Response
        } else {
            ProbeEvent::Closed
        }
    }

    /// Probes the connection in this state. Probing takes no lock and
    /// changes nothing: the connection's owner is the only entity issuing
    /// protocol operations against it.
    pub fn probe(&self) -> (r: ProbeEvent)
        ensures
            r == self.probe_event_spec(),
    {
        if self.transport_open {
            ProbeEvent::Response
        } else {
            ProbeEvent::Closed
        }
    }
}

/// What `create` hands back for each handshake event: the state of the new
/// connection on success — driver spawned, transport open — or the error
/// that classifies the failure.
pub open spec fn create_verdict_spec(ev: ConnectEvent) -> Result<ConnState, ConnError> {
    match ev {
        ConnectEvent::Established => Ok(
            ConnState { transport_open: true, driver_running: true },
        ),
        ConnectEvent::TimedOut => Err(ConnError::Timeout),
        ConnectEvent::TransportFailed => Err(ConnError::Transport),
        ConnectEvent::Rejected => Err(ConnError::Protocol),
    }
}

/// What `recycle` hands back for each probe event: only a completed round
/// trip keeps the connection; every failure discards it, under the error
/// that classifies it.
pub open spec fn recycle_verdict_spec(ev: ProbeEvent) -> Result<(), ConnError> {
    match ev {
        ProbeEvent::Response => Ok(()),
        ProbeEvent::TimedOut => Err(ConnError::Timeout),
        ProbeEvent::Closed => Err(ConnError::Transport),
        ProbeEvent::Rejected => Err(ConnError::Protocol),
    }
}

/// A successful `create` never hands out a connection without a running
/// driver: for every handshake event, the verdict is either an error or a
/// well-formed state whose driver task runs.
pub proof fn lemma_create_attaches_driver(ev: ConnectEvent)
    ensures
        create_verdict_spec(ev) matches Ok(c) ==> c.wf() && c.driver_running,
{
}

/// A connection fresh out of a successful `create`, probed with no
/// intervening activity, is healthy: its probe reports a response, and
/// `recycle`'s verdict on that report keeps it. Probing changes no state,
/// so this holds for every probe in a row, not only the first.
pub proof fn lemma_fresh_connection_recycles(ev: ConnectEvent)
    ensures
        create_verdict_spec(ev) matches Ok(c) ==> recycle_verdict_spec(c.probe_event_spec())
            == Ok::<(), ConnError>(()),
{
}

/// A connection whose transport has been closed out from under it probes
/// as closed, and `recycle`'s verdict on that report is deterministically
/// an error — never a false-positive healthy result — so the engine
/// discards the connection instead of returning it to the idle set.
pub proof fn lemma_closed_connection_discarded(c: ConnState)
    requires
        !c.transport_open,
    ensures
        recycle_verdict_spec(c.probe_event_spec()) == Err::<(), ConnError>(ConnError::Transport),
{
}

} // verus!

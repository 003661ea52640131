//! A pooling layer for long-lived, stateful protocol connections: a manager
//! that holds the endpoint and the connection settings, and implements the
//! two lifecycle callbacks a generic connection pool engine needs —
//! `create`, which classifies the outcome of one connect handshake, and
//! `recycle`, which decides from a liveness probe whether an idle
//! connection may be handed out again or must be discarded.
//!
//! The handshake and the probe themselves are network operations; callers
//! perform them and hand their outcome in as an event. Every decision made
//! on those events is verified here.

use vstd::prelude::*;

pub mod errors;
pub mod lifecycle;
pub mod settings;

verus! {

use crate::errors::ConnError;
use crate::lifecycle::ConnState;
use crate::lifecycle::ConnectEvent;
use crate::lifecycle::ProbeEvent;
use crate::lifecycle::create_verdict_spec;
use crate::lifecycle::recycle_verdict_spec;
use crate::settings::ConnSettings;

/// Pool manager: the endpoint URL to connect to and the connection settings
/// used for every connection attempt. Both are fixed at construction; the
/// manager holds no other state, so its callbacks may run fully in
/// parallel across distinct pool slots.
pub struct Manager(pub String, pub ConnSettings);

impl Manager {
    /// Creates a new manager with the given URL and the default connection
    /// settings.
    pub fn new(ldap_url: &str) -> (r: Self)
        ensures
            r.0@ == ldap_url@,
            r.1 == ConnSettings::default_spec(),
    {
        Manager(ldap_url.to_owned(), ConnSettings::new())
    }

    /// Sets a custom settings object on the manager, leaving the URL
    /// unchanged. Returns the updated manager.
    pub fn with_connection_settings(self, settings: ConnSettings) -> (r: Self)
        ensures
            r.0@ == self.0@,
            r.1 == settings,
    {
        let mut this = self;
        this.1 = settings;
        this
    }

    /// Lifecycle callback `create`: one new connection per invocation, its
    /// driver already running. Given what the connect handshake against the
    /// configured endpoint reported, hands back the state of the new
    /// connection — transport open, driver task spawned — or the error
    /// classifying the failure. No retry happens at this layer.
    pub fn create(&self, ev: ConnectEvent) -> (r: Result<ConnState, ConnError>)
        ensures
            r == create_verdict_spec(ev),
            r is Ok <==> ev is Established,
            r matches Ok(c) ==> c.wf() && c.transport_open && c.driver_running,
            ev is TimedOut ==> r == Err::<ConnState, ConnError>(ConnError::Timeout),
    {
        match ev {
            ConnectEvent::Established => Ok(ConnState::fresh()),
            ConnectEvent::TimedOut => Err(ConnError::Timeout),
            ConnectEvent::TransportFailed => Err(ConnError::Transport),
            ConnectEvent::Rejected => Err(ConnError::Protocol),
        }
    }

    /// Lifecycle callback `recycle`: decides from one liveness probe's
    /// report whether the probed connection returns to the idle set. Only a
    /// completed round trip keeps it; on any failure the verdict is the
    /// error classifying it, and the engine discards the connection.
    pub fn recycle(&self, ev: ProbeEvent) -> (r: Result<(), ConnError>)
        ensures
            r == recycle_verdict_spec(ev),
            r is Ok <==> ev is Response,
            ev is TimedOut ==> r == Err::<(), ConnError>(ConnError::Timeout),
    {
        match ev {
            ProbeEvent::Response => Ok(()),
            ProbeEvent::TimedOut => Err(ConnError::Timeout),
            ProbeEvent::Closed => Err(ConnError::Transport),
            ProbeEvent::Rejected => Err(ConnError::Protocol),
        }
    }
}

} // verus!

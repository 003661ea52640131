//! Connection settings: an immutable (post-construction) bundle of options
//! for one connection attempt — TLS options and the two timeout bounds.

use vstd::prelude::*;

verus! {

/// Options applied to every connection attempt. Timeouts are in
/// milliseconds; `None` means the operation is not bounded by this layer.
///
/// `conn_timeout_ms` bounds the handshake when a connection is created;
/// `op_timeout_ms` independently bounds the liveness probe run before an
/// idle connection is reused.
#[derive(Clone, Copy, Debug, PartialEq, Eq)]
pub struct ConnSettings {
    /// Negotiate TLS on the plain connection after connecting.
    pub starttls: bool,
    /// Skip verification of the server's TLS certificate.
    pub no_tls_verify: bool,
    /// Bound on the connect handshake, in milliseconds.
    pub conn_timeout_ms: Option<u64>,
    /// Bound on the liveness probe, in milliseconds.
    pub op_timeout_ms: Option<u64>,
}

impl ConnSettings {
    /// The documented defaults: no start-TLS, certificates verified, and no
    /// timeout bound on either operation.
    pub open spec fn default_spec() -> Self {
        ConnSettings {
            starttls: false,
            no_tls_verify: false,
            conn_timeout_ms: None,
            op_timeout_ms: None,
        }
    }

    /// Settings with all options at their defaults.
    pub fn new() -> (r: Self)
        ensures
            r == Self::default_spec(),
    {
        ConnSettings {
            starttls: false,
            no_tls_verify: false,
            conn_timeout_ms: None,
            op_timeout_ms: None,
        }
    }

    /// Sets the start-TLS flag, leaving every other option unchanged.
    pub fn set_starttls(self, starttls: bool) -> (r: Self)
        ensures
            r == (ConnSettings { starttls, ..self }),
    {
        ConnSettings { starttls, ..self }
    }

    /// Sets whether certificate verification is skipped, leaving every other
    /// option unchanged.
    pub fn set_no_tls_verify(self, no_tls_verify: bool) -> (r: Self)
        ensures
            r == (ConnSettings { no_tls_verify, ..self }),
    {
        ConnSettings { no_tls_verify, ..self }
    }

    /// Bounds the connect handshake by the given number of milliseconds,
    /// leaving every other option unchanged.
    pub fn set_conn_timeout_ms(self, ms: u64) -> (r: Self)
        ensures
            r == (ConnSettings { conn_timeout_ms: Some(ms), ..self }),
    {
        ConnSettings { conn_timeout_ms: Some(ms), ..self }
    }

    /// Bounds the liveness probe by the given number of milliseconds,
    /// leaving every other option unchanged.
    pub fn set_op_timeout_ms(self, ms: u64) -> (r: Self)
        ensures
            r == (ConnSettings { op_timeout_ms: Some(ms), ..self }),
    {
        ConnSettings { op_timeout_ms: Some(ms), ..self }
    }
}

impl Default for ConnSettings {
    /// Same value as `new`: all options at their defaults.
    fn default() -> (r: Self)
        ensures
            r == Self::default_spec(),
    {
        ConnSettings::new()
    }
}

} // verus!

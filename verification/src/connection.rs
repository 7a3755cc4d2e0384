//! What the two paths have in common per connection.

use vstd::prelude::*;
use crate::original_dst::ResolutionError;

verus! {

/// The identity of a service in the mesh, as its client certificate
/// states it.
#[derive(Clone, Copy, Debug, PartialEq, Eq, Hash, Structural)]
pub struct ServiceIdentity {
    pub id: u128,
}

/// Why a connection ended without having been forwarded to its end.
/// Each of these ends one connection and nothing else.
#[derive(Clone, Copy, Debug, PartialEq, Eq, Structural)]
pub enum ConnectionError {
    /// The original destination could not be recovered.
    OriginalDestination(ResolutionError),
    /// The forwarding socket could not be opened.
    Connect,
    /// The TLS handshake failed.
    Handshake,
    /// The peer completed the handshake without an identity.
    Identity,
    /// Copying bytes ended in an I/O error.
    Transfer,
    /// An event arrived that the connection's phase does not wait for.
    UnexpectedEvent,
}

/// How a connection ended.
pub type Outcome = Result<(), ConnectionError>;

impl ConnectionError {
    /// The phase that failed, in words for a log line.
    pub fn context(&self) -> (text: &'static str)
        ensures
            text@ == match *self {
                ConnectionError::OriginalDestination(_) => "original destination"@,
                ConnectionError::Connect => "cannot open forwarding socket"@,
                ConnectionError::Handshake => "failed to perform tls handshake"@,
                ConnectionError::Identity => "no authly peer"@,
                ConnectionError::Transfer => "transfer failed"@,
                ConnectionError::UnexpectedEvent => "unexpected event"@,
            },
    {
        match self {
            ConnectionError::OriginalDestination(_) => "original destination",
            ConnectionError::Connect => "cannot open forwarding socket",
            ConnectionError::Handshake => "failed to perform tls handshake",
            ConnectionError::Identity => "no authly peer",
            ConnectionError::Transfer => "transfer failed",
            ConnectionError::UnexpectedEvent => "unexpected event",
        }
    }
}

} // verus!

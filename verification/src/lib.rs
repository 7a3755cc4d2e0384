//! Decision core of a transparent, identity-aware TCP sidecar proxy.
//!
//! The crate holds everything the proxy decides: how the kernel's redirect
//! record is decoded, when a port is rewritten and TLS is terminated or
//! originated, which name a peer is expected to present, how credential
//! updates are applied, and in which order a connection moves through its
//! phases. Sockets, handshakes and lookups are performed by the caller, which
//! feeds their outcomes back as events.

pub mod addr;
pub mod original_dst;
pub mod route;
pub mod server_name;
pub mod state;
pub mod connection;
pub mod ingress;
pub mod egress;
pub mod credential;
pub mod lifecycle;
pub mod listener;

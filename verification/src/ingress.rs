//! The ingress path: connections that arrive for the local service.
//!
//! A connection moves through its phases one event at a time. The caller
//! performs what an [`IngressAction`] asks for and reports how it went as
//! the next [`IngressEvent`]; what happens next is decided here.
//!
//! The stop signal is no event of a connection: what was accepted runs to
//! its natural end. A failure ends the one connection it happened on.

use vstd::prelude::*;
use crate::addr::SocketAddress;
use crate::connection::{ConnectionError, Outcome, ServiceIdentity};
use crate::original_dst::{
    get_original_destination, original_destination, ResolutionError, SockoptReply,
};
use crate::route::{ingress_route, route_ingress, IngressRoute, PLAIN_PORT, SECURE_PORT};
use crate::state::ProxlyState;

verus! {

/// Where an inbound connection stands.
#[derive(Clone, Copy, Debug, PartialEq, Eq)]
pub enum IngressPhase {
    /// The original destination has been asked for.
    AwaitingDestination,
    /// The server side of the TLS handshake is under way.
    Handshaking { route: IngressRoute },
    /// The forwarding socket is being opened. `peer` is the authenticated
    /// peer where TLS was terminated.
    Connecting { route: IngressRoute, peer: Option<ServiceIdentity> },
    /// Bytes are being copied in both directions.
    Forwarding { route: IngressRoute, peer: Option<ServiceIdentity> },
    /// The connection is over.
    Closed(Outcome),
}

/// What happened to an inbound connection.
#[derive(Clone, Copy, Debug, PartialEq, Eq)]
pub enum IngressEvent {
    /// The kernel answered the query for the original destination.
    OriginalDestination(SockoptReply),
    /// The handshake completed; `peer` is the identity that the client
    /// certificate carries, if it carries one.
    HandshakeCompleted { peer: Option<ServiceIdentity> },
    /// The handshake failed.
    HandshakeFailed,
    /// The forwarding socket is open.
    Connected,
    /// The forwarding socket could not be opened.
    ConnectFailed,
    /// Copying ended because one side reached the end of its stream.
    TransferFinished,
    /// Copying ended in an I/O error.
    TransferFailed,
}

/// What is to be done next for an inbound connection.
#[derive(Clone, Copy, Debug, PartialEq, Eq)]
pub enum IngressAction {
    /// Ask the kernel for the original destination, by the option of the
    /// IPv6 family if `is_v6`, else by that of IPv4.
    QueryOriginalDestination { is_v6: bool },
    /// Perform the server side of the TLS handshake with the current
    /// server configuration and extract the peer's identity.
    TerminateTls,
    /// Open the forwarding socket to `dst`.
    Connect { dst: SocketAddress },
    /// Copy bytes in both directions until one side ends: between the TLS
    /// stream and the forwarding socket where `peer` is the authenticated
    /// peer, between the accepted socket and the forwarding socket where
    /// it is `None`.
    Forward { dst: SocketAddress, peer: Option<ServiceIdentity> },
    /// Drop the connection.
    Close { outcome: Outcome },
}

/// The context of one inbound connection.
#[derive(Clone, Copy, Debug, PartialEq, Eq)]
pub struct IngressConnection {
    /// Whether a server configuration is present.
    pub tls_configured: bool,
    /// Whether the remote peer's address is of the IPv6 family.
    pub peer_is_v6: bool,
    pub phase: IngressPhase,
}

impl IngressConnection {
    /// What holds of every connection that [`IngressConnection::accept`]
    /// made and [`IngressConnection::on_event`] moved on: its route is the
    /// one that the rules give for its original destination, a handshake is
    /// under way only where TLS is terminated, and the forwarding socket is
    /// opened and used with an authenticated peer exactly where TLS is
    /// terminated.
    pub open spec fn wf(self) -> bool {
        match self.phase {
            IngressPhase::AwaitingDestination => true,
            IngressPhase::Handshaking { route } => {
                &&& route == ingress_route(self.tls_configured, route.original_dst)
                &&& route.terminate_tls
            },
            IngressPhase::Connecting { route, peer } | IngressPhase::Forwarding { route, peer } => {
                &&& route == ingress_route(self.tls_configured, route.original_dst)
                &&& route.terminate_tls <==> peer is Some
            },
            IngressPhase::Closed(_) => true,
        }
    }
}

/// The connection once its original destination is known to be `dst`, and
/// what it asks for first: the handshake where TLS is terminated, else the
/// forwarding socket.
pub open spec fn ingress_routed(c: IngressConnection, dst: SocketAddress) -> (
    IngressConnection,
    IngressAction,
) {
    let route = ingress_route(c.tls_configured, dst);
    if route.terminate_tls {
        (IngressConnection { phase: IngressPhase::Handshaking { route }, ..c }, IngressAction::TerminateTls)
    } else {
        (
            IngressConnection { phase: IngressPhase::Connecting { route, peer: None }, ..c },
            IngressAction::Connect { dst: route.dst },
        )
    }
}

/// The connection ended with `outcome`.
pub open spec fn ingress_ended(c: IngressConnection, outcome: Outcome) -> (
    IngressConnection,
    IngressAction,
) {
    (IngressConnection { phase: IngressPhase::Closed(outcome), ..c }, IngressAction::Close { outcome })
}

/// A connection that was just accepted, and what it asks for first.
pub open spec fn ingress_accepted(
    tls_configured: bool,
    fixed_dst: Option<SocketAddress>,
    peer_is_v6: bool,
) -> (IngressConnection, IngressAction) {
    let fresh = IngressConnection {
        tls_configured,
        peer_is_v6,
        phase: IngressPhase::AwaitingDestination,
    };
    match fixed_dst {
        Some(dst) => ingress_routed(fresh, dst),
        None => (fresh, IngressAction::QueryOriginalDestination { is_v6: peer_is_v6 }),
    }
}

/// The connection after an event, and what it asks for next.
pub open spec fn ingress_step(c: IngressConnection, event: IngressEvent) -> (
    IngressConnection,
    IngressAction,
) {
    match c.phase {
        IngressPhase::AwaitingDestination => match event {
            IngressEvent::OriginalDestination(reply) => match original_destination(
                reply,
                c.peer_is_v6,
            ) {
                Ok(dst) => ingress_routed(c, dst),
                Err(e) => ingress_ended(c, Err(ConnectionError::OriginalDestination(e))),
            },
            _ => ingress_ended(c, Err(ConnectionError::UnexpectedEvent)),
        },
        IngressPhase::Handshaking { route } => match event {
            IngressEvent::HandshakeCompleted { peer: Some(id) } => (
                IngressConnection {
                    phase: IngressPhase::Connecting { route, peer: Some(id) },
                    ..c
                },
                IngressAction::Connect { dst: route.dst },
            ),
            IngressEvent::HandshakeCompleted { peer: None } => ingress_ended(
                c,
                Err(ConnectionError::Identity),
            ),
            IngressEvent::HandshakeFailed => ingress_ended(c, Err(ConnectionError::Handshake)),
            _ => ingress_ended(c, Err(ConnectionError::UnexpectedEvent)),
        },
        IngressPhase::Connecting { route, peer } => match event {
            IngressEvent::Connected => (
                IngressConnection { phase: IngressPhase::Forwarding { route, peer }, ..c },
                IngressAction::Forward { dst: route.dst, peer },
            ),
            IngressEvent::ConnectFailed => ingress_ended(c, Err(ConnectionError::Connect)),
            _ => ingress_ended(c, Err(ConnectionError::UnexpectedEvent)),
        },
        IngressPhase::Forwarding { .. } => match event {
            IngressEvent::TransferFinished => ingress_ended(c, Ok(())),
            IngressEvent::TransferFailed => ingress_ended(c, Err(ConnectionError::Transfer)),
            _ => ingress_ended(c, Err(ConnectionError::UnexpectedEvent)),
        },
        IngressPhase::Closed(outcome) => (c, IngressAction::Close { outcome }),
    }
}

impl IngressConnection {
    fn route(&mut self, dst: SocketAddress) -> (action: IngressAction)
        ensures
            (*final(self), action) == ingress_routed(*old(self), dst),
    {
        let route = route_ingress(self.tls_configured, dst);
        if route.terminate_tls {
            self.phase = IngressPhase::Handshaking { route };
            IngressAction::TerminateTls
        } else {
            self.phase = IngressPhase::Connecting { route, peer: None };
            IngressAction::Connect { dst: route.dst }
        }
    }

    fn close(&mut self, outcome: Outcome) -> (action: IngressAction)
        ensures
            (*final(self), action) == ingress_ended(*old(self), outcome),
    {
        self.phase = IngressPhase::Closed(outcome);
        IngressAction::Close { outcome }
    }

    /// Takes up a connection that was accepted from a peer at `peer_addr`.
    ///
    /// With a fixed destination the connection goes there as it is, with no
    /// TLS; else the kernel is to be asked for the original destination, by
    /// the option of the peer's address family.
    pub fn accept(state: &ProxlyState, peer_addr: &SocketAddress) -> (start: (
        IngressConnection,
        IngressAction,
    ))
        ensures
            start == ingress_accepted(
                state.ingress_tls(),
                state.ingress_fixed_dst_addr(),
                peer_addr.spec_is_ipv6(),
            ),
            start.0.wf(),
            state.ingress_fixed_dst_addr() matches Some(fixed) ==> start.1
                == (IngressAction::Connect { dst: fixed }),
            state.ingress_fixed_dst_addr() is None ==> start.1
                == (IngressAction::QueryOriginalDestination { is_v6: peer_addr.spec_is_ipv6() }),
    {
        let mut conn = IngressConnection {
            tls_configured: state.terminates_tls(),
            peer_is_v6: peer_addr.is_ipv6(),
            phase: IngressPhase::AwaitingDestination,
        };
        match state.fixed_destination() {
            Some(dst) => {
                let action = conn.route(dst);
                (conn, action)
            },
            None => (conn, IngressAction::QueryOriginalDestination { is_v6: conn.peer_is_v6 }),
        }
    }

    /// Moves the connection on by one event and says what is to be done
    /// next. An event that the phase does not wait for closes the
    /// connection; a closed connection stays closed.
    pub fn on_event(&mut self, event: IngressEvent) -> (action: IngressAction)
        ensures
            (*final(self), action) == ingress_step(*old(self), event),
            old(self).wf() ==> final(self).wf(),
    {
        match self.phase {
            IngressPhase::AwaitingDestination => match event {
                IngressEvent::OriginalDestination(reply) => {
                    match get_original_destination(&reply, self.peer_is_v6) {
                        Ok(dst) => self.route(dst),
                        Err(e) => self.close(Err(ConnectionError::OriginalDestination(e))),
                    }
                },
                _ => self.close(Err(ConnectionError::UnexpectedEvent)),
            },
            IngressPhase::Handshaking { route } => match event {
                IngressEvent::HandshakeCompleted { peer: Some(id) } => {
                    self.phase = IngressPhase::Connecting { route, peer: Some(id) };
                    IngressAction::Connect { dst: route.dst }
                },
                IngressEvent::HandshakeCompleted { peer: None } => self.close(
                    Err(ConnectionError::Identity),
                ),
                IngressEvent::HandshakeFailed => self.close(Err(ConnectionError::Handshake)),
                _ => self.close(Err(ConnectionError::UnexpectedEvent)),
            },
            IngressPhase::Connecting { route, peer } => match event {
                IngressEvent::Connected => {
                    self.phase = IngressPhase::Forwarding { route, peer };
                    IngressAction::Forward { dst: route.dst, peer }
                },
                IngressEvent::ConnectFailed => self.close(Err(ConnectionError::Connect)),
                _ => self.close(Err(ConnectionError::UnexpectedEvent)),
            },
            IngressPhase::Forwarding { .. } => match event {
                IngressEvent::TransferFinished => self.close(Ok(())),
                IngressEvent::TransferFailed => self.close(Err(ConnectionError::Transfer)),
                _ => self.close(Err(ConnectionError::UnexpectedEvent)),
            },
            IngressPhase::Closed(outcome) => IngressAction::Close { outcome },
        }
    }
}

/// The connection after a run of events, taken in their order.
pub open spec fn ingress_run(c: IngressConnection, events: Seq<IngressEvent>) -> IngressConnection
    decreases events.len(),
{
    if events.len() == 0 {
        c
    } else {
        ingress_step(ingress_run(c, events.drop_last()), events.last()).0
    }
}

/// Whatever happens to a connection after it was accepted, it stays well
/// formed and keeps what it was accepted with.
pub proof fn lemma_ingress_run_is_well_formed(
    tls_configured: bool,
    fixed_dst: Option<SocketAddress>,
    peer_is_v6: bool,
    events: Seq<IngressEvent>,
)
    ensures
        ingress_run(ingress_accepted(tls_configured, fixed_dst, peer_is_v6).0, events).wf(),
        ingress_run(ingress_accepted(tls_configured, fixed_dst, peer_is_v6).0, events).tls_configured
            == tls_configured,
        ingress_run(ingress_accepted(tls_configured, fixed_dst, peer_is_v6).0, events).peer_is_v6
            == peer_is_v6,
    decreases events.len(),
{
    if events.len() > 0 {
        lemma_ingress_run_is_well_formed(tls_configured, fixed_dst, peer_is_v6, events.drop_last());
    }
}

/// The handshake comes before the forwarding socket. Whenever a connection
/// is opening its forwarding socket or copying bytes, and it was addressed
/// to the secure port of a proxy that has a server configuration, then the
/// handshake has completed and has yielded the peer's identity; and it
/// is headed for the plaintext port of its original address. Every other
/// connection is headed for its original destination, with no peer.
pub proof fn lemma_identity_precedes_forwarding(
    tls_configured: bool,
    fixed_dst: Option<SocketAddress>,
    peer_is_v6: bool,
    events: Seq<IngressEvent>,
)
    ensures
        ({
            let c = ingress_run(ingress_accepted(tls_configured, fixed_dst, peer_is_v6).0, events);
            let secure = |route: IngressRoute|
                tls_configured && route.original_dst.spec_port() == SECURE_PORT;
            &&& c.phase matches IngressPhase::Connecting { route, peer } ==> {
                &&& secure(route) ==> peer is Some && route.dst == route.original_dst.with_port(
                    PLAIN_PORT,
                )
                &&& !secure(route) ==> peer is None && route.dst == route.original_dst
            }
            &&& c.phase matches IngressPhase::Forwarding { route, peer } ==> {
                &&& secure(route) ==> peer is Some && route.dst == route.original_dst.with_port(
                    PLAIN_PORT,
                )
                &&& !secure(route) ==> peer is None && route.dst == route.original_dst
            }
        }),
{
    lemma_ingress_run_is_well_formed(tls_configured, fixed_dst, peer_is_v6, events);
}

/// Without a server configuration a connection passes through as it is:
/// no handshake is ever asked for, whatever the port, and the forwarding
/// socket goes to the original destination.
pub proof fn lemma_pass_through_without_credentials(
    fixed_dst: Option<SocketAddress>,
    peer_is_v6: bool,
    events: Seq<IngressEvent>,
    next: IngressEvent,
)
    ensures
        ingress_accepted(false, fixed_dst, peer_is_v6).1 !is TerminateTls,
        ({
            let c = ingress_run(ingress_accepted(false, fixed_dst, peer_is_v6).0, events);
            &&& c.phase !is Handshaking
            &&& ingress_step(c, next).1 !is TerminateTls
            &&& c.phase is AwaitingDestination ==> match ingress_step(c, next).1 {
                IngressAction::Connect { dst } => next is OriginalDestination
                    && original_destination(next->OriginalDestination_0, peer_is_v6) == Ok::<
                    SocketAddress,
                    ResolutionError,
                >(dst),
                _ => true,
            }
            &&& c.phase matches IngressPhase::Connecting { route, peer } ==> peer is None
                && ingress_step(c, IngressEvent::Connected).1 == (IngressAction::Forward {
                dst: route.original_dst,
                peer: None,
            })
        }),
{
    lemma_ingress_run_is_well_formed(false, fixed_dst, peer_is_v6, events);
}

/// A closed connection stays closed: no event moves it, and all it ever
/// asks for again is to be dropped.
pub proof fn lemma_closed_ingress_stays_closed(
    c: IngressConnection,
    events: Seq<IngressEvent>,
    next: IngressEvent,
)
    requires
        c.phase is Closed,
    ensures
        ingress_run(c, events) == c,
        ingress_step(c, next) == (c, IngressAction::Close { outcome: c.phase->Closed_0 }),
    decreases events.len(),
{
    if events.len() > 0 {
        lemma_closed_ingress_stays_closed(c, events.drop_last(), events.last());
    }
}

/// A handshake that yields no identity ends the connection there and then:
/// the forwarding socket is never opened and no byte is ever copied,
/// whatever else is reported afterwards.
pub proof fn lemma_missing_identity_drops_connection(
    c: IngressConnection,
    later: Seq<IngressEvent>,
    next: IngressEvent,
)
    requires
        c.phase is Handshaking,
    ensures
        ({
            let dropped = ingress_step(c, IngressEvent::HandshakeCompleted { peer: None });
            let outcome: Outcome = Err(ConnectionError::Identity);
            &&& dropped.1 == IngressAction::Close { outcome }
            &&& dropped.0.phase == IngressPhase::Closed(outcome)
            &&& ingress_run(dropped.0, later) == dropped.0
            &&& ingress_step(ingress_run(dropped.0, later), next).1 == IngressAction::Close {
                outcome,
            }
        }),
{
    let dropped = ingress_step(c, IngressEvent::HandshakeCompleted { peer: None });
    lemma_closed_ingress_stays_closed(dropped.0, later, next);
}

/// What a connection asks for is what its new phase waits on: the handshake
/// while handshaking, the forwarding socket to the route's destination
/// while connecting, the copying while forwarding, and to be dropped once
/// closed. No event leads back to waiting for the destination.
pub proof fn lemma_ingress_action_fits_phase(c: IngressConnection, event: IngressEvent)
    ensures
        ({
            let (next, action) = ingress_step(c, event);
            match next.phase {
                IngressPhase::AwaitingDestination => false,
                IngressPhase::Handshaking { .. } => action == IngressAction::TerminateTls,
                IngressPhase::Connecting { route, .. } => action == IngressAction::Connect {
                    dst: route.dst,
                },
                IngressPhase::Forwarding { route, peer } => action == IngressAction::Forward {
                    dst: route.dst,
                    peer,
                },
                IngressPhase::Closed(outcome) => action == IngressAction::Close { outcome },
            }
        }),
{
}

} // verus!

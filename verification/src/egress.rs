//! The egress path: connections that leave the local service.
//!
//! A connection moves through its phases one event at a time. The caller
//! performs what an [`EgressAction`] asks for and reports how it went as the
//! next [`EgressEvent`]; what happens next is decided here.
//!
//! The stop signal is no event of a connection: what was accepted runs to
//! its natural end. A failure ends the one connection it happened on.

use vstd::prelude::*;
use crate::addr::{IpAddress, SocketAddress};
use crate::connection::{ConnectionError, Outcome};
use crate::original_dst::{get_original_destination, original_destination, SockoptReply};
use crate::route::{
    egress_route, egress_target, route_egress, EgressRoute, PLAIN_PORT, SECURE_PORT,
};
use crate::server_name::{find_tls_server_name, is_dns_name, server_name_of, LookupOutcome, NameError};
use crate::state::ProxlyState;

verus! {

/// Where an outbound connection stands.
#[allow(inconsistent_fields)]
#[derive(Debug, PartialEq, Eq)]
pub enum EgressPhase {
    /// The original destination has been asked for.
    AwaitingDestination,
    /// The destination is being resolved backwards to a name.
    ResolvingName { route: EgressRoute },
    /// The forwarding socket is being opened. `server_name` is the name for
    /// the handshake where TLS will be originated.
    Connecting { route: EgressRoute, server_name: Option<String> },
    /// The client side of the TLS handshake is under way.
    Handshaking { route: EgressRoute, server_name: String },
    /// Bytes are being copied in both directions, under TLS towards the
    /// peer named `server_name` where there is one.
    Forwarding { route: EgressRoute, server_name: Option<String> },
    /// The connection is over.
    Closed(Outcome),
}

/// What happened to an outbound connection.
#[derive(Debug, PartialEq, Eq)]
pub enum EgressEvent {
    /// The kernel answered the query for the original destination.
    OriginalDestination(SockoptReply),
    /// The resolver answered the reverse lookup.
    ReverseLookup(LookupOutcome),
    /// The forwarding socket is open.
    Connected,
    /// The forwarding socket could not be opened.
    ConnectFailed,
    /// The handshake completed.
    HandshakeCompleted,
    /// The handshake failed.
    HandshakeFailed,
    /// Copying ended because one side reached the end of its stream.
    TransferFinished,
    /// Copying ended in an I/O error.
    TransferFailed,
}

/// What is to be done next for an outbound connection.
#[derive(Debug, PartialEq, Eq)]
pub enum EgressAction {
    /// Ask the kernel for the original destination, by the option of the
    /// IPv6 family if `is_v6`, else by that of IPv4.
    QueryOriginalDestination { is_v6: bool },
    /// Resolve `ip` backwards to its names.
    ReverseLookup { ip: IpAddress },
    /// Open the forwarding socket to `dst`. Where `downgrade` holds a
    /// reason, TLS was wanted and will not be originated for want of a
    /// server name: that is worth a warning.
    Connect { dst: SocketAddress, downgrade: Option<NameError> },
    /// Perform the client side of the TLS handshake on the forwarding
    /// socket, with the current client configuration, expecting the peer
    /// `server_name`.
    OriginateTls { server_name: String },
    /// Copy bytes in both directions until one side ends: between the
    /// accepted socket and the TLS stream if `tls`, else the forwarding
    /// socket itself.
    Forward { dst: SocketAddress, tls: bool },
    /// Drop the connection.
    Close { outcome: Outcome },
}

/// The context of one outbound connection.
#[derive(Debug, PartialEq, Eq)]
pub struct EgressConnection {
    /// Whether a client configuration is present.
    pub tls_configured: bool,
    /// Whether the remote peer's address is of the IPv6 family.
    pub peer_is_v6: bool,
    pub phase: EgressPhase,
}

/// A phase with its server name as a sequence of characters.
#[allow(inconsistent_fields)]
pub enum EgressPhaseView {
    AwaitingDestination,
    ResolvingName { route: EgressRoute },
    Connecting { route: EgressRoute, server_name: Option<Seq<char>> },
    Handshaking { route: EgressRoute, server_name: Seq<char> },
    Forwarding { route: EgressRoute, server_name: Option<Seq<char>> },
    Closed(Outcome),
}

/// An action with its server name as a sequence of characters.
pub enum EgressActionView {
    QueryOriginalDestination { is_v6: bool },
    ReverseLookup { ip: IpAddress },
    Connect { dst: SocketAddress, downgrade: Option<NameError> },
    OriginateTls { server_name: Seq<char> },
    Forward { dst: SocketAddress, tls: bool },
    Close { outcome: Outcome },
}

/// A connection with its server name as a sequence of characters.
pub struct EgressConnectionView {
    pub tls_configured: bool,
    pub peer_is_v6: bool,
    pub phase: EgressPhaseView,
}

/// An optional name as a sequence of characters.
pub open spec fn text_of(name: Option<String>) -> Option<Seq<char>> {
    match name {
        Some(text) => Some(text@),
        None => None,
    }
}

impl View for EgressPhase {
    type V = EgressPhaseView;

    open spec fn view(&self) -> EgressPhaseView {
        match *self {
            EgressPhase::AwaitingDestination => EgressPhaseView::AwaitingDestination,
            EgressPhase::ResolvingName { route } => EgressPhaseView::ResolvingName { route },
            EgressPhase::Connecting { route, server_name } => EgressPhaseView::Connecting {
                route,
                server_name: text_of(server_name),
            },
            EgressPhase::Handshaking { route, server_name } => EgressPhaseView::Handshaking {
                route,
                server_name: server_name@,
            },
            EgressPhase::Forwarding { route, server_name } => EgressPhaseView::Forwarding {
                route,
                server_name: text_of(server_name),
            },
            EgressPhase::Closed(outcome) => EgressPhaseView::Closed(outcome),
        }
    }
}

impl View for EgressAction {
    type V = EgressActionView;

    open spec fn view(&self) -> EgressActionView {
        match *self {
            EgressAction::QueryOriginalDestination { is_v6 } => {
                EgressActionView::QueryOriginalDestination { is_v6 }
            },
            EgressAction::ReverseLookup { ip } => EgressActionView::ReverseLookup { ip },
            EgressAction::Connect { dst, downgrade } => EgressActionView::Connect {
                dst,
                downgrade,
            },
            EgressAction::OriginateTls { server_name } => EgressActionView::OriginateTls {
                server_name: server_name@,
            },
            EgressAction::Forward { dst, tls } => EgressActionView::Forward { dst, tls },
            EgressAction::Close { outcome } => EgressActionView::Close { outcome },
        }
    }
}

impl View for EgressConnection {
    type V = EgressConnectionView;

    open spec fn view(&self) -> EgressConnectionView {
        EgressConnectionView {
            tls_configured: self.tls_configured,
            peer_is_v6: self.peer_is_v6,
            phase: self.phase@,
        }
    }
}

impl EgressConnectionView {
    /// What holds of every connection that [`EgressConnection::accept`]
    /// made and [`EgressConnection::on_event`] moved on: its route is the
    /// one that the rules give for its original destination, a name is
    /// looked up and a handshake made only where the route wants TLS, and a
    /// server name is always a valid DNS name.
    pub open spec fn wf(self) -> bool {
        match self.phase {
            EgressPhaseView::AwaitingDestination => true,
            EgressPhaseView::ResolvingName { route } => {
                &&& route == egress_route(self.tls_configured, route.original_dst)
                &&& route.wrap_tls
            },
            EgressPhaseView::Connecting { route, server_name }
            | EgressPhaseView::Forwarding { route, server_name } => {
                &&& route == egress_route(self.tls_configured, route.original_dst)
                &&& server_name matches Some(name) ==> route.wrap_tls && is_dns_name(name)
            },
            EgressPhaseView::Handshaking { route, server_name } => {
                &&& route == egress_route(self.tls_configured, route.original_dst)
                &&& route.wrap_tls
                &&& is_dns_name(server_name)
            },
            EgressPhaseView::Closed(_) => true,
        }
    }
}

/// The connection once its original destination is known to be `dst`, and
/// what it asks for first: the reverse lookup where the route wants TLS,
/// else the forwarding socket.
pub open spec fn egress_routed(c: EgressConnectionView, dst: SocketAddress) -> (
    EgressConnectionView,
    EgressActionView,
) {
    let route = egress_route(c.tls_configured, dst);
    if route.wrap_tls {
        (
            EgressConnectionView { phase: EgressPhaseView::ResolvingName { route }, ..c },
            EgressActionView::ReverseLookup { ip: route.dst.spec_ip() },
        )
    } else {
        (
            EgressConnectionView {
                phase: EgressPhaseView::Connecting { route, server_name: None },
                ..c
            },
            EgressActionView::Connect { dst: route.dst, downgrade: None },
        )
    }
}

/// The connection once the lookup has given `name` or failed to: in both
/// cases the forwarding socket is opened to the rewritten destination, with
/// the name for the handshake or with the reason there is none.
pub open spec fn egress_named(
    c: EgressConnectionView,
    route: EgressRoute,
    name: Result<Seq<char>, NameError>,
) -> (EgressConnectionView, EgressActionView) {
    match name {
        Ok(server_name) => (
            EgressConnectionView {
                phase: EgressPhaseView::Connecting { route, server_name: Some(server_name) },
                ..c
            },
            EgressActionView::Connect { dst: route.dst, downgrade: None },
        ),
        Err(reason) => (
            EgressConnectionView {
                phase: EgressPhaseView::Connecting { route, server_name: None },
                ..c
            },
            EgressActionView::Connect { dst: route.dst, downgrade: Some(reason) },
        ),
    }
}

/// The connection ended with `outcome`.
pub open spec fn egress_ended(c: EgressConnectionView, outcome: Outcome) -> (
    EgressConnectionView,
    EgressActionView,
) {
    (
        EgressConnectionView { phase: EgressPhaseView::Closed(outcome), ..c },
        EgressActionView::Close { outcome },
    )
}

/// A connection that was just accepted, and what it asks for first.
pub open spec fn egress_accepted(
    tls_configured: bool,
    fixed_dst: Option<SocketAddress>,
    peer_is_v6: bool,
) -> (EgressConnectionView, EgressActionView) {
    let fresh = EgressConnectionView {
        tls_configured,
        peer_is_v6,
        phase: EgressPhaseView::AwaitingDestination,
    };
    match fixed_dst {
        Some(dst) => egress_routed(fresh, dst),
        None => (fresh, EgressActionView::QueryOriginalDestination { is_v6: peer_is_v6 }),
    }
}

/// The connection after an event, and what it asks for next.
pub open spec fn egress_step(c: EgressConnectionView, event: EgressEvent) -> (
    EgressConnectionView,
    EgressActionView,
) {
    match c.phase {
        EgressPhaseView::AwaitingDestination => match event {
            EgressEvent::OriginalDestination(reply) => match original_destination(
                reply,
                c.peer_is_v6,
            ) {
                Ok(dst) => egress_routed(c, dst),
                Err(e) => egress_ended(c, Err(ConnectionError::OriginalDestination(e))),
            },
            _ => egress_ended(c, Err(ConnectionError::UnexpectedEvent)),
        },
        EgressPhaseView::ResolvingName { route } => match event {
            EgressEvent::ReverseLookup(lookup) => egress_named(c, route, server_name_of(lookup@)),
            _ => egress_ended(c, Err(ConnectionError::UnexpectedEvent)),
        },
        EgressPhaseView::Connecting { route, server_name } => match event {
            EgressEvent::Connected => match server_name {
                Some(name) => (
                    EgressConnectionView {
                        phase: EgressPhaseView::Handshaking { route, server_name: name },
                        ..c
                    },
                    EgressActionView::OriginateTls { server_name: name },
                ),
                None => (
                    EgressConnectionView {
                        phase: EgressPhaseView::Forwarding { route, server_name: None },
                        ..c
                    },
                    EgressActionView::Forward { dst: route.dst, tls: false },
                ),
            },
            EgressEvent::ConnectFailed => egress_ended(c, Err(ConnectionError::Connect)),
            _ => egress_ended(c, Err(ConnectionError::UnexpectedEvent)),
        },
        EgressPhaseView::Handshaking { route, server_name } => match event {
            EgressEvent::HandshakeCompleted => (
                EgressConnectionView {
                    phase: EgressPhaseView::Forwarding { route, server_name: Some(server_name) },
                    ..c
                },
                EgressActionView::Forward { dst: route.dst, tls: true },
            ),
            EgressEvent::HandshakeFailed => egress_ended(c, Err(ConnectionError::Handshake)),
            _ => egress_ended(c, Err(ConnectionError::UnexpectedEvent)),
        },
        EgressPhaseView::Forwarding { .. } => match event {
            EgressEvent::TransferFinished => egress_ended(c, Ok(())),
            EgressEvent::TransferFailed => egress_ended(c, Err(ConnectionError::Transfer)),
            _ => egress_ended(c, Err(ConnectionError::UnexpectedEvent)),
        },
        EgressPhaseView::Closed(outcome) => (c, EgressActionView::Close { outcome }),
    }
}

impl EgressConnection {
    fn route(tls_configured: bool, peer_is_v6: bool, dst: SocketAddress) -> (next: (
        EgressConnection,
        EgressAction,
    ))
        ensures
            (next.0@, next.1@) == egress_routed(
                EgressConnectionView {
                    tls_configured,
                    peer_is_v6,
                    phase: EgressPhaseView::AwaitingDestination,
                },
                dst,
            ),
    {
        let route = route_egress(tls_configured, dst);
        if route.wrap_tls {
            (
                EgressConnection {
                    tls_configured,
                    peer_is_v6,
                    phase: EgressPhase::ResolvingName { route },
                },
                EgressAction::ReverseLookup { ip: route.dst.ip() },
            )
        } else {
            (
                EgressConnection {
                    tls_configured,
                    peer_is_v6,
                    phase: EgressPhase::Connecting { route, server_name: None },
                },
                EgressAction::Connect { dst: route.dst, downgrade: None },
            )
        }
    }

    fn end(tls_configured: bool, peer_is_v6: bool, outcome: Outcome) -> (next: (
        EgressConnection,
        EgressAction,
    ))
        ensures
            next.0@ == (EgressConnectionView {
                tls_configured,
                peer_is_v6,
                phase: EgressPhaseView::Closed(outcome),
            }),
            next.1@ == (EgressActionView::Close { outcome }),
    {
        (
            EgressConnection { tls_configured, peer_is_v6, phase: EgressPhase::Closed(outcome) },
            EgressAction::Close { outcome },
        )
    }

    fn step(self, event: EgressEvent) -> (next: (EgressConnection, EgressAction))
        ensures
            (next.0@, next.1@) == egress_step(self@, event),
    {
        let tls_configured = self.tls_configured;
        let peer_is_v6 = self.peer_is_v6;
        match self.phase {
            EgressPhase::AwaitingDestination => match event {
                EgressEvent::OriginalDestination(reply) => {
                    match get_original_destination(&reply, peer_is_v6) {
                        Ok(dst) => Self::route(tls_configured, peer_is_v6, dst),
                        Err(e) => Self::end(
                            tls_configured,
                            peer_is_v6,
                            Err(ConnectionError::OriginalDestination(e)),
                        ),
                    }
                },
                _ => Self::end(tls_configured, peer_is_v6, Err(ConnectionError::UnexpectedEvent)),
            },
            EgressPhase::ResolvingName { route } => match event {
                EgressEvent::ReverseLookup(lookup) => {
                    match find_tls_server_name(&lookup) {
                        Ok(name) => (
                            EgressConnection {
                                tls_configured,
                                peer_is_v6,
                                phase: EgressPhase::Connecting { route, server_name: Some(name) },
                            },
                            EgressAction::Connect { dst: route.dst, downgrade: None },
                        ),
                        Err(reason) => (
                            EgressConnection {
                                tls_configured,
                                peer_is_v6,
                                phase: EgressPhase::Connecting { route, server_name: None },
                            },
                            EgressAction::Connect { dst: route.dst, downgrade: Some(reason) },
                        ),
                    }
                },
                _ => Self::end(tls_configured, peer_is_v6, Err(ConnectionError::UnexpectedEvent)),
            },
            EgressPhase::Connecting { route, server_name } => match event {
                EgressEvent::Connected => match server_name {
                    Some(name) => {
                        let expected = name.clone();
                        (
                            EgressConnection {
                                tls_configured,
                                peer_is_v6,
                                phase: EgressPhase::Handshaking { route, server_name: name },
                            },
                            EgressAction::OriginateTls { server_name: expected },
                        )
                    },
                    None => (
                        EgressConnection {
                            tls_configured,
                            peer_is_v6,
                            phase: EgressPhase::Forwarding { route, server_name: None },
                        },
                        EgressAction::Forward { dst: route.dst, tls: false },
                    ),
                },
                EgressEvent::ConnectFailed => Self::end(
                    tls_configured,
                    peer_is_v6,
                    Err(ConnectionError::Connect),
                ),
                _ => Self::end(tls_configured, peer_is_v6, Err(ConnectionError::UnexpectedEvent)),
            },
            EgressPhase::Handshaking { route, server_name } => match event {
                EgressEvent::HandshakeCompleted => (
                    EgressConnection {
                        tls_configured,
                        peer_is_v6,
                        phase: EgressPhase::Forwarding { route, server_name: Some(server_name) },
                    },
                    EgressAction::Forward { dst: route.dst, tls: true },
                ),
                EgressEvent::HandshakeFailed => Self::end(
                    tls_configured,
                    peer_is_v6,
                    Err(ConnectionError::Handshake),
                ),
                _ => Self::end(tls_configured, peer_is_v6, Err(ConnectionError::UnexpectedEvent)),
            },
            EgressPhase::Forwarding { .. } => match event {
                EgressEvent::TransferFinished => Self::end(tls_configured, peer_is_v6, Ok(())),
                EgressEvent::TransferFailed => Self::end(
                    tls_configured,
                    peer_is_v6,
                    Err(ConnectionError::Transfer),
                ),
                _ => Self::end(tls_configured, peer_is_v6, Err(ConnectionError::UnexpectedEvent)),
            },
            EgressPhase::Closed(outcome) => Self::end(tls_configured, peer_is_v6, outcome),
        }
    }

    /// Takes up a connection that was accepted from a peer at `peer_addr`.
    ///
    /// With a fixed destination the connection goes there as it is, with no
    /// TLS; else the kernel is to be asked for the original destination, by
    /// the option of the peer's address family.
    pub fn accept(state: &ProxlyState, peer_addr: &SocketAddress) -> (start: (
        EgressConnection,
        EgressAction,
    ))
        ensures
            (start.0@, start.1@) == egress_accepted(
                state.egress_tls(),
                state.ingress_fixed_dst_addr(),
                peer_addr.spec_is_ipv6(),
            ),
            start.0@.wf(),
            state.ingress_fixed_dst_addr() matches Some(fixed) ==> start.1@
                == (EgressActionView::Connect { dst: fixed, downgrade: None }),
            state.ingress_fixed_dst_addr() is None ==> start.1@
                == (EgressActionView::QueryOriginalDestination { is_v6: peer_addr.spec_is_ipv6() }),
    {
        let tls_configured = state.originates_tls();
        let peer_is_v6 = peer_addr.is_ipv6();
        match state.fixed_destination() {
            Some(dst) => Self::route(tls_configured, peer_is_v6, dst),
            None => (
                EgressConnection {
                    tls_configured,
                    peer_is_v6,
                    phase: EgressPhase::AwaitingDestination,
                },
                EgressAction::QueryOriginalDestination { is_v6: peer_is_v6 },
            ),
        }
    }

    /// Moves the connection on by one event and says what is to be done
    /// next. An event that the phase does not wait for closes the
    /// connection; a closed connection stays closed.
    ///
    /// A lookup that yields no usable name does not end the connection: it
    /// goes on in plain, to the port that the route has already rewritten.
    pub fn on_event(&mut self, event: EgressEvent) -> (action: EgressAction)
        ensures
            (final(self)@, action@) == egress_step(old(self)@, event),
            old(self)@.wf() ==> final(self)@.wf(),
    {
        let mut current = EgressConnection {
            tls_configured: self.tls_configured,
            peer_is_v6: self.peer_is_v6,
            phase: EgressPhase::AwaitingDestination,
        };
        core::mem::swap(self, &mut current);
        let (next, action) = current.step(event);
        *self = next;
        action
    }
}

/// The connection after a run of events, taken in their order.
pub open spec fn egress_run(c: EgressConnectionView, events: Seq<EgressEvent>) -> EgressConnectionView
    decreases events.len(),
{
    if events.len() == 0 {
        c
    } else {
        egress_step(egress_run(c, events.drop_last()), events.last()).0
    }
}

/// Whatever happens to a connection after it was accepted, it stays well
/// formed and keeps what it was accepted with.
pub proof fn lemma_egress_run_is_well_formed(
    tls_configured: bool,
    fixed_dst: Option<SocketAddress>,
    peer_is_v6: bool,
    events: Seq<EgressEvent>,
)
    ensures
        egress_run(egress_accepted(tls_configured, fixed_dst, peer_is_v6).0, events).wf(),
        egress_run(egress_accepted(tls_configured, fixed_dst, peer_is_v6).0, events).tls_configured
            == tls_configured,
        egress_run(egress_accepted(tls_configured, fixed_dst, peer_is_v6).0, events).peer_is_v6
            == peer_is_v6,
    decreases events.len(),
{
    if events.len() > 0 {
        lemma_egress_run_is_well_formed(tls_configured, fixed_dst, peer_is_v6, events.drop_last());
    }
}

/// TLS is originated for intra-mesh plaintext traffic only. Whenever a
/// connection is in its handshake, or copies bytes under TLS, the proxy has
/// a client configuration, the original destination is a private address
/// on the plaintext port, the connection goes to the secure port of that
/// address, and the server name is a valid DNS name.
pub proof fn lemma_tls_only_within_mesh(
    tls_configured: bool,
    fixed_dst: Option<SocketAddress>,
    peer_is_v6: bool,
    events: Seq<EgressEvent>,
)
    ensures
        ({
            let c = egress_run(egress_accepted(tls_configured, fixed_dst, peer_is_v6).0, events);
            let within_mesh = |route: EgressRoute|
                {
                    &&& tls_configured
                    &&& route.original_dst.spec_ip().spec_is_private()
                    &&& route.original_dst.spec_port() == PLAIN_PORT
                    &&& route.dst == route.original_dst.with_port(SECURE_PORT)
                };
            &&& c.phase matches EgressPhaseView::Handshaking { route, server_name }
                ==> within_mesh(route) && is_dns_name(server_name)
            &&& c.phase matches EgressPhaseView::Forwarding { route, server_name: Some(name) }
                ==> within_mesh(route) && is_dns_name(name)
            &&& c.phase matches EgressPhaseView::Forwarding { route, server_name: None }
                ==> route.dst == if tls_configured {
                egress_target(route.original_dst)
            } else {
                route.original_dst
            }
        }),
{
    lemma_egress_run_is_well_formed(tls_configured, fixed_dst, peer_is_v6, events);
}

/// A lookup without a usable name downgrades the connection and does not
/// end it: the forwarding socket is opened to the rewritten destination,
/// on the secure port, the reason is handed on for a warning, and once the
/// socket is open bytes are copied in plain, with no handshake.
pub proof fn lemma_lookup_failure_downgrades(c: EgressConnectionView, lookup: LookupOutcome)
    requires
        c.wf(),
        c.phase is ResolvingName,
        server_name_of(lookup@) is Err,
    ensures
        ({
            let route = c.phase->ResolvingName_route;
            let downgraded = egress_step(c, EgressEvent::ReverseLookup(lookup));
            &&& route.dst == route.original_dst.with_port(SECURE_PORT)
            &&& downgraded.1 == EgressActionView::Connect {
                dst: route.dst,
                downgrade: Some(server_name_of(lookup@)->Err_0),
            }
            &&& downgraded.0.phase == EgressPhaseView::Connecting { route, server_name: None }
            &&& egress_step(downgraded.0, EgressEvent::Connected).1 == EgressActionView::Forward {
                dst: route.dst,
                tls: false,
            }
        }),
{
}

/// Without a client configuration a connection passes through as it is: no
/// name is ever looked up, no handshake is ever asked for, and the
/// forwarding socket goes to the original destination.
pub proof fn lemma_egress_pass_through_without_credentials(
    fixed_dst: Option<SocketAddress>,
    peer_is_v6: bool,
    events: Seq<EgressEvent>,
    next: EgressEvent,
)
    ensures
        egress_accepted(false, fixed_dst, peer_is_v6).1 !is ReverseLookup,
        ({
            let c = egress_run(egress_accepted(false, fixed_dst, peer_is_v6).0, events);
            &&& c.phase !is ResolvingName
            &&& c.phase !is Handshaking
            &&& egress_step(c, next).1 !is ReverseLookup
            &&& egress_step(c, next).1 !is OriginateTls
            &&& c.phase matches EgressPhaseView::Connecting { route, server_name }
                ==> server_name is None && route.dst == route.original_dst
        }),
{
    lemma_egress_run_is_well_formed(false, fixed_dst, peer_is_v6, events);
}

/// A closed connection stays closed: no event moves it, and all it ever
/// asks for again is to be dropped.
pub proof fn lemma_closed_egress_stays_closed(
    c: EgressConnectionView,
    events: Seq<EgressEvent>,
    next: EgressEvent,
)
    requires
        c.phase is Closed,
    ensures
        egress_run(c, events) == c,
        egress_step(c, next) == (c, EgressActionView::Close { outcome: c.phase->Closed_0 }),
    decreases events.len(),
{
    if events.len() > 0 {
        lemma_closed_egress_stays_closed(c, events.drop_last(), events.last());
    }
}

/// What a connection asks for is what its new phase waits on: the lookup
/// while resolving, the forwarding socket to the route's destination while
/// connecting, the handshake with the server name while handshaking, the
/// copying while forwarding, and to be dropped once closed. No event leads
/// back to waiting for the destination.
pub proof fn lemma_egress_action_fits_phase(c: EgressConnectionView, event: EgressEvent)
    ensures
        ({
            let (next, action) = egress_step(c, event);
            match next.phase {
                EgressPhaseView::AwaitingDestination => false,
                EgressPhaseView::ResolvingName { route } => action
                    == EgressActionView::ReverseLookup { ip: route.dst.spec_ip() },
                EgressPhaseView::Connecting { route, .. } => action is Connect
                    && action->Connect_dst == route.dst,
                EgressPhaseView::Handshaking { server_name, .. } => action
                    == EgressActionView::OriginateTls { server_name },
                EgressPhaseView::Forwarding { route, server_name } => action
                    == EgressActionView::Forward { dst: route.dst, tls: server_name is Some },
                EgressPhaseView::Closed(outcome) => action == EgressActionView::Close { outcome },
            }
        }),
{
}

} // verus!

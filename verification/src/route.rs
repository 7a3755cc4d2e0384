//! The port-rewrite rules of the two paths.
//!
//! The mesh's secure port mirrors the plaintext port: what a service sends
//! to port 80 of a cluster-local peer travels to port 443 under TLS, and what
//! arrives on port 443 is handed to the local service on port 80 in plain.

use vstd::prelude::*;
use crate::addr::SocketAddress;

verus! {

/// The plaintext port of a service.
pub const PLAIN_PORT: u16 = 80;

/// The port on which the same service is reached under TLS.
pub const SECURE_PORT: u16 = 443;

/// Whether an outbound connection to `dst` is to be wrapped in TLS: the
/// destination is cluster-local and the port is the plaintext port.
pub open spec fn wraps_tls(dst: SocketAddress) -> bool {
    dst.spec_ip().spec_is_private() && dst.spec_port() == PLAIN_PORT
}

/// Where an outbound connection to `dst` is forwarded.
pub open spec fn egress_target(dst: SocketAddress) -> SocketAddress {
    if wraps_tls(dst) {
        dst.with_port(SECURE_PORT)
    } else {
        dst
    }
}

/// Whether an inbound connection to `dst` carries TLS that is to be
/// terminated: it was addressed to the secure port.
pub open spec fn terminates_tls(dst: SocketAddress) -> bool {
    dst.spec_port() == SECURE_PORT
}

/// Where an inbound connection to `dst` is forwarded.
pub open spec fn ingress_target(dst: SocketAddress) -> SocketAddress {
    if terminates_tls(dst) {
        dst.with_port(PLAIN_PORT)
    } else {
        dst
    }
}

/// Applies the egress rule to a recovered destination and tells whether TLS
/// is to be originated.
///
/// A private IPv4 destination on port 80 is moved to port 443 and marked for
/// TLS. Every other destination is left as it is: public addresses, other
/// ports, and all IPv6 addresses, for which no private range is classified.
pub fn analyze_destination(dst_addr: &mut SocketAddress) -> (should_tls_wrap: bool)
    ensures
        should_tls_wrap == wraps_tls(*old(dst_addr)),
        *final(dst_addr) == egress_target(*old(dst_addr)),
        should_tls_wrap ==> final(dst_addr).spec_port() == SECURE_PORT && final(dst_addr).spec_ip()
            == old(dst_addr).spec_ip(),
        !should_tls_wrap ==> *final(dst_addr) == *old(dst_addr),
        old(dst_addr).spec_port() != PLAIN_PORT ==> !should_tls_wrap,
        *old(dst_addr) is V6 ==> !should_tls_wrap,
{
    if dst_addr.ip().is_private() && dst_addr.port() == PLAIN_PORT {
        dst_addr.set_port(SECURE_PORT);
        true
    } else {
        false
    }
}

/// Applies the ingress rule to a recovered destination and tells whether TLS
/// is to be terminated.
///
/// A destination on port 443 is moved to port 80 and marked for termination;
/// every other destination is left as it is.
pub fn analyze_ingress_destination(dst_addr: &mut SocketAddress) -> (terminate_tls: bool)
    ensures
        terminate_tls == terminates_tls(*old(dst_addr)),
        *final(dst_addr) == ingress_target(*old(dst_addr)),
        terminate_tls ==> final(dst_addr).spec_port() == PLAIN_PORT && final(dst_addr).spec_ip()
            == old(dst_addr).spec_ip(),
        !terminate_tls ==> *final(dst_addr) == *old(dst_addr),
{
    if dst_addr.port() == SECURE_PORT {
        dst_addr.set_port(PLAIN_PORT);
        true
    } else {
        false
    }
}

/// The routing decision for one inbound connection.
#[derive(Clone, Copy, Debug, PartialEq, Eq)]
pub struct IngressRoute {
    /// The destination as it was recovered.
    pub original_dst: SocketAddress,
    /// The destination that the connection is forwarded to.
    pub dst: SocketAddress,
    /// Whether TLS is terminated before forwarding.
    pub terminate_tls: bool,
}

/// The routing decision for one outbound connection.
#[derive(Clone, Copy, Debug, PartialEq, Eq)]
pub struct EgressRoute {
    /// The destination as it was recovered.
    pub original_dst: SocketAddress,
    /// The destination that the connection is forwarded to.
    pub dst: SocketAddress,
    /// Whether TLS is to be originated, if a server name can be found.
    pub wrap_tls: bool,
}

/// The route of an inbound connection to `dst`. Without a server
/// configuration every connection passes through as it is, whatever its
/// port; with one, the ingress rule applies.
pub open spec fn ingress_route(tls_configured: bool, dst: SocketAddress) -> IngressRoute {
    if tls_configured {
        IngressRoute {
            original_dst: dst,
            dst: ingress_target(dst),
            terminate_tls: terminates_tls(dst),
        }
    } else {
        IngressRoute { original_dst: dst, dst, terminate_tls: false }
    }
}

/// The route of an outbound connection to `dst`. Without a client
/// configuration every connection passes through as it is; with one, the
/// egress rule applies.
pub open spec fn egress_route(tls_configured: bool, dst: SocketAddress) -> EgressRoute {
    if tls_configured {
        EgressRoute { original_dst: dst, dst: egress_target(dst), wrap_tls: wraps_tls(dst) }
    } else {
        EgressRoute { original_dst: dst, dst, wrap_tls: false }
    }
}

/// Routes an inbound connection whose recovered destination is `dst`.
pub fn route_ingress(tls_configured: bool, dst: SocketAddress) -> (route: IngressRoute)
    ensures
        route == ingress_route(tls_configured, dst),
        route.original_dst == dst,
        route.terminate_tls == (tls_configured && dst.spec_port() == SECURE_PORT),
        route.terminate_tls ==> route.dst == dst.with_port(PLAIN_PORT),
        !route.terminate_tls ==> route.dst == dst,
{
    let mut target = dst;
    let terminate_tls = tls_configured && analyze_ingress_destination(&mut target);
    IngressRoute { original_dst: dst, dst: target, terminate_tls }
}

/// Routes an outbound connection whose recovered destination is `dst`.
///
/// The port is rewritten together with the decision to wrap, before any
/// name is looked up: a connection that later finds no server name still
/// goes to the rewritten port, in plain.
pub fn route_egress(tls_configured: bool, dst: SocketAddress) -> (route: EgressRoute)
    ensures
        route == egress_route(tls_configured, dst),
        route.original_dst == dst,
        route.wrap_tls == (tls_configured && dst.spec_ip().spec_is_private() && dst.spec_port()
            == PLAIN_PORT),
        route.wrap_tls ==> route.dst == dst.with_port(SECURE_PORT),
        !route.wrap_tls ==> route.dst == dst,
{
    let mut target = dst;
    let wrap_tls = tls_configured && analyze_destination(&mut target);
    EgressRoute { original_dst: dst, dst: target, wrap_tls }
}

} // verus!

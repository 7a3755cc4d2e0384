//! What both paths share for the lifetime of the process.

use vstd::prelude::*;
use crate::addr::SocketAddress;

verus! {

/// The shared runtime state, as far as the decisions read it: whether a
/// server configuration and a client configuration are present, and the
/// fixed destination of the self-test mode.
///
/// A fixed destination exists only in self-test mode, in which all TLS is
/// switched off.
#[derive(Clone, Copy, Debug, PartialEq, Eq)]
pub struct ProxlyState {
    ingress_tls: bool,
    egress_tls: bool,
    ingress_fixed_dst_addr: Option<SocketAddress>,
}

impl ProxlyState {
    /// Whether a TLS server configuration is present.
    pub closed spec fn ingress_tls(&self) -> bool {
        self.ingress_tls
    }

    /// Whether a TLS client configuration is present.
    pub closed spec fn egress_tls(&self) -> bool {
        self.egress_tls
    }

    /// The fixed destination, if the state is that of the self-test mode.
    pub closed spec fn ingress_fixed_dst_addr(&self) -> Option<SocketAddress> {
        self.ingress_fixed_dst_addr
    }

    /// A fixed destination goes with no TLS on either path.
    pub open spec fn wf(&self) -> bool {
        self.ingress_fixed_dst_addr() is Some ==> !self.ingress_tls() && !self.egress_tls()
    }

    #[verifier::type_invariant]
    spec fn well_formed(self) -> bool {
        self.wf()
    }

    /// The state of a proxy in the mesh: destinations are recovered per
    /// connection, and each path uses TLS if its configuration is present.
    pub fn mesh(ingress_tls: bool, egress_tls: bool) -> (state: ProxlyState)
        ensures
            state.ingress_tls() == ingress_tls,
            state.egress_tls() == egress_tls,
            state.ingress_fixed_dst_addr() is None,
            state.wf(),
    {
        ProxlyState { ingress_tls, egress_tls, ingress_fixed_dst_addr: None }
    }

    /// The state of the self-test mode: no TLS, and every connection is
    /// forwarded to `fixed_dst`.
    pub fn self_test(fixed_dst: SocketAddress) -> (state: ProxlyState)
        ensures
            !state.ingress_tls(),
            !state.egress_tls(),
            state.ingress_fixed_dst_addr() == Some(fixed_dst),
            state.wf(),
    {
        ProxlyState { ingress_tls: false, egress_tls: false, ingress_fixed_dst_addr: Some(fixed_dst) }
    }

    /// Whether inbound TLS is terminated at all.
    pub fn terminates_tls(&self) -> (present: bool)
        ensures
            present == self.ingress_tls(),
            self.wf(),
    {
        proof {
            use_type_invariant(self);
        }
        self.ingress_tls
    }

    /// Whether outbound TLS is originated at all.
    pub fn originates_tls(&self) -> (present: bool)
        ensures
            present == self.egress_tls(),
            self.wf(),
    {
        proof {
            use_type_invariant(self);
        }
        self.egress_tls
    }

    /// The destination that replaces the recovered one, if any.
    pub fn fixed_destination(&self) -> (fixed: Option<SocketAddress>)
        ensures
            fixed == self.ingress_fixed_dst_addr(),
            self.wf(),
    {
        proof {
            use_type_invariant(self);
        }
        self.ingress_fixed_dst_addr
    }
}

} // verus!

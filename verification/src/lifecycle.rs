//! What is started, and how, in each mode of running.

use vstd::prelude::*;
use crate::addr::SocketAddress;
use crate::state::ProxlyState;

verus! {

/// The port on which inbound connections are redirected to the proxy.
pub const INGRESS_PORT: u16 = 4645;

/// The port on which outbound connections are redirected to the proxy.
pub const EGRESS_PORT: u16 = 4647;

/// How the proxy is run.
#[derive(Clone, Copy, Debug, PartialEq, Eq)]
pub enum RunMode {
    /// In the mesh, with credentials from the control plane.
    Mesh,
    /// As a self-test of the forwarding mechanics: without credentials and
    /// without redirect rules, forwarding everything to `fixed_dst`.
    SelfTest { fixed_dst: SocketAddress },
}

/// What startup brings up.
#[derive(Clone, Copy, Debug, PartialEq, Eq)]
pub struct StartupPlan {
    /// Whether the credential source is connected and both configuration
    /// streams are waited for. Startup fails if either yields nothing.
    pub with_credentials: bool,
    /// The port of the ingress listener.
    pub ingress_port: u16,
    /// The port of the egress listener, if one is bound.
    pub egress_port: Option<u16>,
    /// The shared state that both paths will read.
    pub state: ProxlyState,
}

/// Plans the startup for a mode.
///
/// In the mesh both listeners are bound and both paths use TLS. The
/// self-test binds the ingress listener alone, uses no TLS, and forwards to
/// the fixed destination.
pub fn plan_startup(mode: RunMode) -> (plan: StartupPlan)
    ensures
        plan.ingress_port == INGRESS_PORT,
        plan.state.wf(),
        match mode {
            RunMode::Mesh => {
                &&& plan.with_credentials
                &&& plan.egress_port == Some(EGRESS_PORT)
                &&& plan.state.ingress_tls()
                &&& plan.state.egress_tls()
                &&& plan.state.ingress_fixed_dst_addr() is None
            },
            RunMode::SelfTest { fixed_dst } => {
                &&& !plan.with_credentials
                &&& plan.egress_port is None
                &&& !plan.state.ingress_tls()
                &&& !plan.state.egress_tls()
                &&& plan.state.ingress_fixed_dst_addr() == Some(fixed_dst)
            },
        },
{
    match mode {
        RunMode::Mesh => StartupPlan {
            with_credentials: true,
            ingress_port: INGRESS_PORT,
            egress_port: Some(EGRESS_PORT),
            state: ProxlyState::mesh(true, true),
        },
        RunMode::SelfTest { fixed_dst } => StartupPlan {
            with_credentials: false,
            ingress_port: INGRESS_PORT,
            egress_port: None,
            state: ProxlyState::self_test(fixed_dst),
        },
    }
}

} // verus!

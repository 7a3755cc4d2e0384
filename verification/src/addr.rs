//! Addresses as the proxy sees them: plain octets and ports.

use vstd::prelude::*;

verus! {

/// An IPv4 address: four octets, most significant first.
#[verifier::ext_equal]
#[derive(Clone, Copy, Debug, PartialEq, Eq, Hash)]
pub struct Ipv4Address {
    pub octets: [u8; 4],
}

/// An IPv6 address: eight 16-bit groups, most significant first.
#[verifier::ext_equal]
#[derive(Clone, Copy, Debug, PartialEq, Eq, Hash)]
pub struct Ipv6Address {
    pub segments: [u16; 8],
}

/// An address of either family.
#[verifier::ext_equal]
#[derive(Clone, Copy, Debug, PartialEq, Eq, Hash)]
pub enum IpAddress {
    V4(Ipv4Address),
    V6(Ipv6Address),
}

/// An address together with a port. The IPv6 form also carries the flow
/// information and the scope identifier of the socket address.
#[verifier::ext_equal]
#[allow(inconsistent_fields)]
#[derive(Clone, Copy, Debug, PartialEq, Eq, Hash)]
pub enum SocketAddress {
    V4 { ip: Ipv4Address, port: u16 },
    V6 { ip: Ipv6Address, port: u16, flowinfo: u32, scope_id: u32 },
}

impl Ipv4Address {
    /// Whether the address lies in one of the private ranges
    /// `10.0.0.0/8`, `172.16.0.0/12` or `192.168.0.0/16`.
    pub open spec fn spec_is_private(&self) -> bool {
        ||| self.octets[0] == 10
        ||| (self.octets[0] == 172 && 16 <= self.octets[1] <= 31)
        ||| (self.octets[0] == 192 && self.octets[1] == 168)
    }

    pub fn new(a: u8, b: u8, c: u8, d: u8) -> (ip: Ipv4Address)
        ensures
            ip.octets@ == seq![a, b, c, d],
    {
        Ipv4Address { octets: [a, b, c, d] }
    }

    #[verifier::when_used_as_spec(spec_is_private)]
    pub fn is_private(&self) -> (private: bool)
        ensures
            private == self.spec_is_private(),
    {
        let first: u8 = self.octets[0];
        let second: u8 = self.octets[1];
        first == 10 || (first == 172 && 16 <= second && second <= 31) || (first == 192 && second
            == 168)
    }
}

impl IpAddress {
    /// Whether the address counts as cluster-local. No IPv6 range is
    /// classified: every IPv6 address counts as not private.
    pub open spec fn spec_is_private(&self) -> bool {
        match *self {
            IpAddress::V4(v4) => v4.spec_is_private(),
            IpAddress::V6(_) => false,
        }
    }

    #[verifier::when_used_as_spec(spec_is_private)]
    pub fn is_private(&self) -> (private: bool)
        ensures
            private == self.spec_is_private(),
    {
        match self {
            IpAddress::V4(v4) => v4.is_private(),
            IpAddress::V6(_) => false,
        }
    }
}

impl SocketAddress {
    pub open spec fn spec_ip(&self) -> IpAddress {
        match *self {
            SocketAddress::V4 { ip, .. } => IpAddress::V4(ip),
            SocketAddress::V6 { ip, .. } => IpAddress::V6(ip),
        }
    }

    pub open spec fn spec_port(&self) -> u16 {
        match *self {
            SocketAddress::V4 { port, .. } => port,
            SocketAddress::V6 { port, .. } => port,
        }
    }

    pub open spec fn spec_is_ipv6(&self) -> bool {
        self is V6
    }

    /// The same address with another port; everything else is kept.
    pub open spec fn with_port(self, port: u16) -> SocketAddress {
        match self {
            SocketAddress::V4 { ip, .. } => SocketAddress::V4 { ip, port },
            SocketAddress::V6 { ip, flowinfo, scope_id, .. } => SocketAddress::V6 {
                ip,
                port,
                flowinfo,
                scope_id,
            },
        }
    }

    #[verifier::when_used_as_spec(spec_ip)]
    pub fn ip(&self) -> (ip: IpAddress)
        ensures
            ip == self.spec_ip(),
    {
        match self {
            SocketAddress::V4 { ip, .. } => IpAddress::V4(*ip),
            SocketAddress::V6 { ip, .. } => IpAddress::V6(*ip),
        }
    }

    #[verifier::when_used_as_spec(spec_port)]
    pub fn port(&self) -> (port: u16)
        ensures
            port == self.spec_port(),
    {
        match self {
            SocketAddress::V4 { port, .. } => *port,
            SocketAddress::V6 { port, .. } => *port,
        }
    }

    #[verifier::when_used_as_spec(spec_is_ipv6)]
    pub fn is_ipv6(&self) -> (v6: bool)
        ensures
            v6 == self.spec_is_ipv6(),
    {
        match self {
            SocketAddress::V4 { .. } => false,
            SocketAddress::V6 { .. } => true,
        }
    }

    pub fn set_port(&mut self, port: u16)
        ensures
            *final(self) == old(self).with_port(port),
    {
        match self {
            SocketAddress::V4 { ip, .. } => {
                *self = SocketAddress::V4 { ip: *ip, port };
            },
            SocketAddress::V6 { ip, flowinfo, scope_id, .. } => {
                *self = SocketAddress::V6 {
                    ip: *ip,
                    port,
                    flowinfo: *flowinfo,
                    scope_id: *scope_id,
                };
            },
        }
    }
}

} // verus!

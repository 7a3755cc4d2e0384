//! Decoding of the kernel's redirect record.
//!
//! A connection that was redirected to the proxy still knows where it was
//! headed: the kernel answers a socket-option query with a socket address
//! record of the connection's family. The caller makes the query and hands
//! over the record's fields as they lie in memory; this module turns them
//! into a [`SocketAddress`].

use vstd::prelude::*;
use crate::addr::{Ipv4Address, Ipv6Address, SocketAddress};

verus! {

/// The fields of an IPv4 redirect record. Port and address are in network
/// byte order, first byte first.
#[derive(Clone, Copy, Debug, PartialEq, Eq)]
pub struct RawDstV4 {
    pub port: [u8; 2],
    pub addr: [u8; 4],
}

/// The fields of an IPv6 redirect record. Port and address are in network
/// byte order, first byte first; flow information and scope identifier are
/// the numbers the record holds.
#[derive(Clone, Copy, Debug, PartialEq, Eq)]
pub struct RawDstV6 {
    pub port: [u8; 2],
    pub flowinfo: u32,
    pub addr: [u8; 16],
    pub scope_id: u32,
}

/// What the kernel answered to the redirect query on a connection.
#[derive(Clone, Copy, Debug, PartialEq, Eq)]
pub enum SockoptReply {
    V4(RawDstV4),
    V6(RawDstV6),
    /// The option could not be read: the connection was not redirected, or
    /// the platform has no such option.
    Unavailable,
}

/// Why no original destination could be had.
#[derive(Clone, Copy, Debug, PartialEq, Eq, Structural)]
pub enum ResolutionError {
    /// The kernel had no redirect record for the connection.
    OptionUnavailable,
    /// The record is of the other address family than the one asked for.
    FamilyMismatch,
}

/// The number that two bytes spell in network byte order.
pub open spec fn be16(hi: u8, lo: u8) -> u16 {
    (hi as int * 256 + lo as int) as u16
}

/// The socket address that an IPv4 redirect record stands for.
pub open spec fn decoded_v4(raw: RawDstV4) -> SocketAddress {
    SocketAddress::V4 {
        ip: Ipv4Address { octets: raw.addr },
        port: be16(raw.port[0], raw.port[1]),
    }
}

/// The eight groups that sixteen address bytes spell.
pub open spec fn segments_of(addr: [u8; 16]) -> [u16; 8] {
    [
        be16(addr[0], addr[1]),
        be16(addr[2], addr[3]),
        be16(addr[4], addr[5]),
        be16(addr[6], addr[7]),
        be16(addr[8], addr[9]),
        be16(addr[10], addr[11]),
        be16(addr[12], addr[13]),
        be16(addr[14], addr[15]),
    ]
}

/// The socket address that an IPv6 redirect record stands for.
pub open spec fn decoded_v6(raw: RawDstV6) -> SocketAddress {
    SocketAddress::V6 {
        ip: Ipv6Address { segments: segments_of(raw.addr) },
        port: be16(raw.port[0], raw.port[1]),
        flowinfo: raw.flowinfo,
        scope_id: raw.scope_id,
    }
}

/// The original destination that a reply yields when the record of family
/// `is_v6` was asked for.
pub open spec fn original_destination(reply: SockoptReply, is_v6: bool) -> Result<
    SocketAddress,
    ResolutionError,
> {
    match reply {
        SockoptReply::Unavailable => Err(ResolutionError::OptionUnavailable),
        SockoptReply::V4(raw) => if is_v6 {
            Err(ResolutionError::FamilyMismatch)
        } else {
            Ok(decoded_v4(raw))
        },
        SockoptReply::V6(raw) => if is_v6 {
            Ok(decoded_v6(raw))
        } else {
            Err(ResolutionError::FamilyMismatch)
        },
    }
}

/// Reads two bytes in network byte order.
pub fn decode_be16(hi: u8, lo: u8) -> (value: u16)
    ensures
        value == be16(hi, lo),
        value as int == hi as int * 256 + lo as int,
{
    let value: u16 = ((hi as u16) << 8) | (lo as u16);
    assert(((hi as u16) << 8) | (lo as u16) == (hi as u16) * 256 + (lo as u16)) by (bit_vector);
    value
}

/// Decodes an IPv4 redirect record: the octets are the address bytes in
/// order, the port is the two port bytes read most significant first.
pub fn decode_v4(raw: &RawDstV4) -> (dst: SocketAddress)
    ensures
        dst == decoded_v4(*raw),
        dst matches SocketAddress::V4 { ip, port } && ip.octets == raw.addr && port as int
            == raw.port[0] as int * 256 + raw.port[1] as int,
{
    SocketAddress::V4 {
        ip: Ipv4Address { octets: raw.addr },
        port: decode_be16(raw.port[0], raw.port[1]),
    }
}

/// Decodes an IPv6 redirect record: group `i` is built from address bytes
/// `2 i` and `2 i + 1`, the port from the two port bytes, and flow
/// information and scope identifier are handed on as they are.
pub fn decode_v6(raw: &RawDstV6) -> (dst: SocketAddress)
    ensures
        dst == decoded_v6(*raw),
        dst matches SocketAddress::V6 { ip, port, flowinfo, scope_id } && {
            &&& forall|i: int|
                0 <= i < 8 ==> #[trigger] ip.segments[i] as int == raw.addr[2 * i] as int * 256
                    + raw.addr[2 * i + 1] as int
            &&& port as int == raw.port[0] as int * 256 + raw.port[1] as int
            &&& flowinfo == raw.flowinfo
            &&& scope_id == raw.scope_id
        },
{
    let a = &raw.addr;
    let segments: [u16; 8] = [
        decode_be16(a[0], a[1]),
        decode_be16(a[2], a[3]),
        decode_be16(a[4], a[5]),
        decode_be16(a[6], a[7]),
        decode_be16(a[8], a[9]),
        decode_be16(a[10], a[11]),
        decode_be16(a[12], a[13]),
        decode_be16(a[14], a[15]),
    ];
    assert(segments =~= segments_of(raw.addr));
    SocketAddress::V6 {
        ip: Ipv6Address { segments },
        port: decode_be16(raw.port[0], raw.port[1]),
        flowinfo: raw.flowinfo,
        scope_id: raw.scope_id,
    }
}

/// Recovers the address and port a connection was headed for before it was
/// redirected, from the kernel's reply to the query for the family `is_v6`.
///
/// Fails when the kernel had no record, or when the record is not of the
/// family asked for. There is no fallback.
pub fn get_original_destination(reply: &SockoptReply, is_v6: bool) -> (dst: Result<
    SocketAddress,
    ResolutionError,
>)
    ensures
        dst == original_destination(*reply, is_v6),
{
    match reply {
        SockoptReply::Unavailable => Err(ResolutionError::OptionUnavailable),
        SockoptReply::V4(raw) => {
            if is_v6 {
                Err(ResolutionError::FamilyMismatch)
            } else {
                Ok(decode_v4(raw))
            }
        },
        SockoptReply::V6(raw) => {
            if is_v6 {
                Ok(decode_v6(raw))
            } else {
                Err(ResolutionError::FamilyMismatch)
            }
        },
    }
}

} // verus!

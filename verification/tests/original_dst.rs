use proxly::addr::{Ipv4Address, Ipv6Address, SocketAddress};
use proxly::original_dst::{
    decode_be16, decode_v4, decode_v6, get_original_destination, RawDstV4, RawDstV6,
    ResolutionError, SockoptReply,
};

fn v4(a: u8, b: u8, c: u8, d: u8, port: u16) -> SocketAddress {
    SocketAddress::V4 { ip: Ipv4Address { octets: [a, b, c, d] }, port }
}

fn documentation_v6() -> RawDstV6 {
    // [2001:db8:85a3::8a2e:370:7334]:8443
    RawDstV6 {
        port: [0x20, 0xfb],
        flowinfo: 0x0001_e240,
        addr: [
            0x20, 0x01, 0x0d, 0xb8, 0x85, 0xa3, 0x00, 0x00, 0x00, 0x00, 0x8a, 0x2e, 0x03, 0x70,
            0x73, 0x34,
        ],
        scope_id: 7,
    }
}

#[test]
fn decodes_ipv4_record_of_known_address() {
    // 10.0.0.5:8080, as the kernel lays it out
    let raw = RawDstV4 { port: [0x1f, 0x90], addr: [10, 0, 0, 5] };
    assert_eq!(decode_v4(&raw), v4(10, 0, 0, 5, 8080));
}

#[test]
fn reads_port_most_significant_byte_first() {
    assert_eq!(decode_be16(0x01, 0xbb), 443);
    assert_eq!(decode_be16(0x00, 0x50), 80);
    assert_eq!(decode_be16(0x50, 0x00), 20480);
    assert_eq!(decode_be16(0x12, 0x34), 0x1234);
}

#[test]
fn reads_smallest_and_largest_pair() {
    assert_eq!(decode_be16(0, 0), 0);
    assert_eq!(decode_be16(0xff, 0xff), 65535);
    assert_eq!(decode_be16(0x00, 0xff), 255);
    assert_eq!(decode_be16(0xff, 0x00), 65280);
}

#[test]
fn keeps_ipv4_octets_in_order() {
    let raw = RawDstV4 { port: [0x00, 0x50], addr: [192, 168, 1, 254] };
    assert_eq!(decode_v4(&raw), v4(192, 168, 1, 254, 80));
    let raw = RawDstV4 { port: [0xff, 0xff], addr: [255, 255, 255, 255] };
    assert_eq!(decode_v4(&raw), v4(255, 255, 255, 255, 65535));
    let raw = RawDstV4 { port: [0, 0], addr: [0, 0, 0, 0] };
    assert_eq!(decode_v4(&raw), v4(0, 0, 0, 0, 0));
}

#[test]
fn ipv4_decoding_agrees_with_big_endian_reading_everywhere_sampled() {
    let samples: [u8; 6] = [0, 1, 0x7f, 0x80, 0xfe, 0xff];
    for a in samples {
        for b in samples {
            let raw = RawDstV4 { port: [a, b], addr: [a, b, b, a] };
            assert_eq!(decode_v4(&raw), v4(a, b, b, a, u16::from_be_bytes([a, b])));
        }
    }
}

#[test]
fn builds_each_ipv6_group_from_its_two_bytes() {
    let dst = decode_v6(&documentation_v6());
    assert_eq!(
        dst,
        SocketAddress::V6 {
            ip: Ipv6Address {
                segments: [0x2001, 0x0db8, 0x85a3, 0x0000, 0x0000, 0x8a2e, 0x0370, 0x7334],
            },
            port: 8443,
            flowinfo: 0x0001_e240,
            scope_id: 7,
        }
    );
}

#[test]
fn hands_flow_and_scope_on_unchanged() {
    for (flowinfo, scope_id) in [(0, 0), (1, 2), (u32::MAX, u32::MAX), (0x0100_0000, 0x0000_0001)] {
        let raw = RawDstV6 { port: [0, 80], flowinfo, addr: [0; 16], scope_id };
        match decode_v6(&raw) {
            SocketAddress::V6 { flowinfo: f, scope_id: s, port, ip } => {
                assert_eq!(f, flowinfo);
                assert_eq!(s, scope_id);
                assert_eq!(port, 80);
                assert_eq!(ip.segments, [0u16; 8]);
            }
            other => panic!("an IPv6 record gave {:?}", other),
        }
    }
}

#[test]
fn ipv6_groups_follow_byte_positions() {
    let mut addr = [0u8; 16];
    for (i, byte) in addr.iter_mut().enumerate() {
        *byte = (i as u8) * 16 + 1;
    }
    let raw = RawDstV6 { port: [0x12, 0x34], flowinfo: 0, addr, scope_id: 0 };
    match decode_v6(&raw) {
        SocketAddress::V6 { ip, port, .. } => {
            for i in 0..8 {
                assert_eq!(ip.segments[i], u16::from_be_bytes([addr[2 * i], addr[2 * i + 1]]));
            }
            assert_eq!(port, 0x1234);
        }
        other => panic!("an IPv6 record gave {:?}", other),
    }
}

#[test]
fn recovers_destination_of_the_family_asked_for() {
    let raw4 = RawDstV4 { port: [0x1f, 0x90], addr: [10, 0, 0, 5] };
    assert_eq!(
        get_original_destination(&SockoptReply::V4(raw4), false),
        Ok(v4(10, 0, 0, 5, 8080))
    );
    let raw6 = documentation_v6();
    assert_eq!(get_original_destination(&SockoptReply::V6(raw6), true), Ok(decode_v6(&raw6)));
}

#[test]
fn fails_without_a_redirect_record() {
    assert_eq!(
        get_original_destination(&SockoptReply::Unavailable, false),
        Err(ResolutionError::OptionUnavailable)
    );
    assert_eq!(
        get_original_destination(&SockoptReply::Unavailable, true),
        Err(ResolutionError::OptionUnavailable)
    );
}

#[test]
fn fails_on_a_record_of_the_other_family() {
    let raw4 = RawDstV4 { port: [0x1f, 0x90], addr: [10, 0, 0, 5] };
    assert_eq!(
        get_original_destination(&SockoptReply::V4(raw4), true),
        Err(ResolutionError::FamilyMismatch)
    );
    assert_eq!(
        get_original_destination(&SockoptReply::V6(documentation_v6()), false),
        Err(ResolutionError::FamilyMismatch)
    );
}

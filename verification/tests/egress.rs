use proxly::addr::{IpAddress, Ipv4Address, Ipv6Address, SocketAddress};
use proxly::connection::ConnectionError;
use proxly::egress::{EgressAction, EgressConnection, EgressEvent, EgressPhase};
use proxly::original_dst::{RawDstV4, RawDstV6, ResolutionError, SockoptReply};
use proxly::route::EgressRoute;
use proxly::server_name::{LookupOutcome, NameError};
use proxly::state::ProxlyState;

fn v4(a: u8, b: u8, c: u8, d: u8, port: u16) -> SocketAddress {
    SocketAddress::V4 { ip: Ipv4Address::new(a, b, c, d), port }
}

fn local_service() -> SocketAddress {
    v4(10, 0, 0, 2, 43210)
}

fn redirected_to(a: u8, b: u8, c: u8, d: u8, port: u16) -> EgressEvent {
    EgressEvent::OriginalDestination(SockoptReply::V4(RawDstV4 {
        port: port.to_be_bytes(),
        addr: [a, b, c, d],
    }))
}

fn answered(name: &str) -> EgressEvent {
    EgressEvent::ReverseLookup(LookupOutcome::Names(vec![name.to_string()]))
}

fn resolving_private_destination() -> EgressConnection {
    let state = ProxlyState::mesh(true, true);
    let (mut conn, first) = EgressConnection::accept(&state, &local_service());
    assert_eq!(first, EgressAction::QueryOriginalDestination { is_v6: false });
    assert_eq!(
        conn.on_event(redirected_to(10, 1, 2, 3, 80)),
        EgressAction::ReverseLookup { ip: IpAddress::V4(Ipv4Address::new(10, 1, 2, 3)) }
    );
    conn
}

#[test]
fn egress_originates_tls_towards_the_resolved_name() {
    let mut conn = resolving_private_destination();
    let route = EgressRoute {
        original_dst: v4(10, 1, 2, 3, 80),
        dst: v4(10, 1, 2, 3, 443),
        wrap_tls: true,
    };
    assert_eq!(conn.phase, EgressPhase::ResolvingName { route });
    assert_eq!(
        conn.on_event(answered("service.internal.")),
        EgressAction::Connect { dst: v4(10, 1, 2, 3, 443), downgrade: None }
    );
    assert_eq!(
        conn.phase,
        EgressPhase::Connecting { route, server_name: Some("service.internal".to_string()) }
    );
    assert_eq!(
        conn.on_event(EgressEvent::Connected),
        EgressAction::OriginateTls { server_name: "service.internal".to_string() }
    );
    assert_eq!(
        conn.on_event(EgressEvent::HandshakeCompleted),
        EgressAction::Forward { dst: v4(10, 1, 2, 3, 443), tls: true }
    );
    assert_eq!(
        conn.phase,
        EgressPhase::Forwarding { route, server_name: Some("service.internal".to_string()) }
    );
    assert_eq!(conn.on_event(EgressEvent::TransferFinished), EgressAction::Close { outcome: Ok(()) });
    assert_eq!(conn.phase, EgressPhase::Closed(Ok(())));
}

#[test]
fn egress_downgrades_when_the_lookup_finds_no_record() {
    let mut conn = resolving_private_destination();
    assert_eq!(
        conn.on_event(EgressEvent::ReverseLookup(LookupOutcome::NoRecords)),
        EgressAction::Connect {
            dst: v4(10, 1, 2, 3, 443),
            downgrade: Some(NameError::NoNameFound)
        }
    );
    // in plain, to the rewritten port, and with no handshake
    assert_eq!(
        conn.on_event(EgressEvent::Connected),
        EgressAction::Forward { dst: v4(10, 1, 2, 3, 443), tls: false }
    );
    assert_eq!(conn.on_event(EgressEvent::TransferFinished), EgressAction::Close { outcome: Ok(()) });
}

#[test]
fn egress_downgrades_when_the_lookup_fails() {
    let mut conn = resolving_private_destination();
    assert_eq!(
        conn.on_event(EgressEvent::ReverseLookup(LookupOutcome::Failed)),
        EgressAction::Connect {
            dst: v4(10, 1, 2, 3, 443),
            downgrade: Some(NameError::ResolutionError)
        }
    );
    assert_eq!(
        conn.on_event(EgressEvent::Connected),
        EgressAction::Forward { dst: v4(10, 1, 2, 3, 443), tls: false }
    );
}

#[test]
fn egress_downgrades_when_the_name_is_no_dns_name() {
    let mut conn = resolving_private_destination();
    assert_eq!(
        conn.on_event(answered("not a name.")),
        EgressAction::Connect {
            dst: v4(10, 1, 2, 3, 443),
            downgrade: Some(NameError::InvalidName)
        }
    );
    assert_eq!(
        conn.on_event(EgressEvent::Connected),
        EgressAction::Forward { dst: v4(10, 1, 2, 3, 443), tls: false }
    );
}

#[test]
fn egress_downgrades_when_the_answer_is_empty() {
    let mut conn = resolving_private_destination();
    assert_eq!(
        conn.on_event(EgressEvent::ReverseLookup(LookupOutcome::Names(Vec::new()))),
        EgressAction::Connect {
            dst: v4(10, 1, 2, 3, 443),
            downgrade: Some(NameError::NoNameFound)
        }
    );
}

#[test]
fn egress_forwards_public_destination_verbatim() {
    let state = ProxlyState::mesh(true, true);
    let (mut conn, _) = EgressConnection::accept(&state, &local_service());
    assert_eq!(
        conn.on_event(redirected_to(93, 184, 216, 34, 80)),
        EgressAction::Connect { dst: v4(93, 184, 216, 34, 80), downgrade: None }
    );
    assert_eq!(
        conn.on_event(EgressEvent::Connected),
        EgressAction::Forward { dst: v4(93, 184, 216, 34, 80), tls: false }
    );
    assert_eq!(conn.on_event(EgressEvent::TransferFinished), EgressAction::Close { outcome: Ok(()) });
}

#[test]
fn egress_forwards_other_ports_verbatim() {
    let state = ProxlyState::mesh(true, true);
    for port in [443u16, 8080, 81] {
        let (mut conn, _) = EgressConnection::accept(&state, &local_service());
        assert_eq!(
            conn.on_event(redirected_to(10, 1, 2, 3, port)),
            EgressAction::Connect { dst: v4(10, 1, 2, 3, port), downgrade: None }
        );
        assert_eq!(
            conn.on_event(EgressEvent::Connected),
            EgressAction::Forward { dst: v4(10, 1, 2, 3, port), tls: false }
        );
    }
}

#[test]
fn egress_forwards_ipv6_verbatim() {
    let state = ProxlyState::mesh(true, true);
    let peer = SocketAddress::V6 {
        ip: Ipv6Address { segments: [0xfd00, 0, 0, 0, 0, 0, 0, 2] },
        port: 40000,
        flowinfo: 0,
        scope_id: 0,
    };
    let (mut conn, first) = EgressConnection::accept(&state, &peer);
    assert_eq!(first, EgressAction::QueryOriginalDestination { is_v6: true });
    let mut addr = [0u8; 16];
    addr[0] = 0xfd;
    addr[15] = 9;
    let reply = SockoptReply::V6(RawDstV6 { port: [0, 80], flowinfo: 0, addr, scope_id: 0 });
    assert_eq!(
        conn.on_event(EgressEvent::OriginalDestination(reply)),
        EgressAction::Connect {
            dst: SocketAddress::V6 {
                ip: Ipv6Address { segments: [0xfd00, 0, 0, 0, 0, 0, 0, 9] },
                port: 80,
                flowinfo: 0,
                scope_id: 0,
            },
            downgrade: None
        }
    );
}

#[test]
fn egress_without_client_tls_forwards_verbatim() {
    let state = ProxlyState::mesh(true, false);
    let (mut conn, _) = EgressConnection::accept(&state, &local_service());
    assert_eq!(
        conn.on_event(redirected_to(10, 1, 2, 3, 80)),
        EgressAction::Connect { dst: v4(10, 1, 2, 3, 80), downgrade: None }
    );
    assert_eq!(
        conn.on_event(EgressEvent::Connected),
        EgressAction::Forward { dst: v4(10, 1, 2, 3, 80), tls: false }
    );
}

#[test]
fn egress_drops_connection_that_was_not_redirected() {
    let state = ProxlyState::mesh(true, true);
    let (mut conn, _) = EgressConnection::accept(&state, &local_service());
    let outcome = Err(ConnectionError::OriginalDestination(ResolutionError::OptionUnavailable));
    assert_eq!(
        conn.on_event(EgressEvent::OriginalDestination(SockoptReply::Unavailable)),
        EgressAction::Close { outcome }
    );
    assert_eq!(conn.phase, EgressPhase::Closed(outcome));
    assert_eq!(conn.on_event(EgressEvent::Connected), EgressAction::Close { outcome });
    assert_eq!(conn.on_event(answered("service.internal.")), EgressAction::Close { outcome });
}

#[test]
fn egress_failed_connect_ends_the_connection() {
    let mut conn = resolving_private_destination();
    conn.on_event(answered("service.internal."));
    assert_eq!(
        conn.on_event(EgressEvent::ConnectFailed),
        EgressAction::Close { outcome: Err(ConnectionError::Connect) }
    );
}

#[test]
fn egress_failed_handshake_ends_the_connection() {
    let mut conn = resolving_private_destination();
    conn.on_event(answered("service.internal."));
    conn.on_event(EgressEvent::Connected);
    assert_eq!(
        conn.on_event(EgressEvent::HandshakeFailed),
        EgressAction::Close { outcome: Err(ConnectionError::Handshake) }
    );
    assert_eq!(conn.phase, EgressPhase::Closed(Err(ConnectionError::Handshake)));
}

#[test]
fn egress_failed_transfer_ends_the_connection() {
    let mut conn = resolving_private_destination();
    conn.on_event(answered("service.internal."));
    conn.on_event(EgressEvent::Connected);
    conn.on_event(EgressEvent::HandshakeCompleted);
    assert_eq!(
        conn.on_event(EgressEvent::TransferFailed),
        EgressAction::Close { outcome: Err(ConnectionError::Transfer) }
    );
}

#[test]
fn egress_event_out_of_turn_ends_the_connection() {
    let unexpected = EgressAction::Close { outcome: Err(ConnectionError::UnexpectedEvent) };

    let state = ProxlyState::mesh(true, true);
    let (mut conn, _) = EgressConnection::accept(&state, &local_service());
    assert_eq!(conn.on_event(answered("service.internal.")), unexpected);

    let mut conn = resolving_private_destination();
    assert_eq!(conn.on_event(EgressEvent::Connected), unexpected);

    let mut conn = resolving_private_destination();
    conn.on_event(answered("service.internal."));
    assert_eq!(conn.on_event(EgressEvent::HandshakeCompleted), unexpected);

    let mut conn = resolving_private_destination();
    conn.on_event(answered("service.internal."));
    conn.on_event(EgressEvent::Connected);
    assert_eq!(conn.on_event(EgressEvent::TransferFinished), unexpected);

    let mut conn = resolving_private_destination();
    conn.on_event(answered("service.internal."));
    conn.on_event(EgressEvent::Connected);
    conn.on_event(EgressEvent::HandshakeCompleted);
    assert_eq!(conn.on_event(EgressEvent::HandshakeCompleted), unexpected);
}

#[test]
fn egress_self_test_forwards_to_the_fixed_destination() {
    let fixed = v4(127, 0, 0, 1, 80);
    let state = ProxlyState::self_test(fixed);
    let (mut conn, first) = EgressConnection::accept(&state, &local_service());
    assert_eq!(first, EgressAction::Connect { dst: fixed, downgrade: None });
    assert_eq!(conn.on_event(EgressEvent::Connected), EgressAction::Forward { dst: fixed, tls: false });
}

#[test]
fn egress_never_originates_tls_without_a_valid_name() {
    let events = || {
        vec![
            redirected_to(10, 1, 2, 3, 80),
            redirected_to(93, 184, 216, 34, 80),
            answered("service.internal."),
            answered("not a name."),
            EgressEvent::ReverseLookup(LookupOutcome::NoRecords),
            EgressEvent::Connected,
            EgressEvent::ConnectFailed,
            EgressEvent::HandshakeCompleted,
            EgressEvent::HandshakeFailed,
            EgressEvent::TransferFinished,
        ]
    };
    let count = events().len();
    for tls in [false, true] {
        let state = ProxlyState::mesh(tls, tls);
        for first in 0..count {
            for second in 0..count {
                for third in 0..count {
                    for fourth in 0..count {
                        let (mut conn, _) = EgressConnection::accept(&state, &local_service());
                        let mut handshake_done = false;
                        for pick in [first, second, third, fourth] {
                            let event = events().swap_remove(pick);
                            let completes = event == EgressEvent::HandshakeCompleted;
                            let handshaking = matches!(conn.phase, EgressPhase::Handshaking { .. });
                            match conn.on_event(event) {
                                EgressAction::ReverseLookup { ip } => {
                                    assert!(tls);
                                    assert_eq!(ip, IpAddress::V4(Ipv4Address::new(10, 1, 2, 3)));
                                }
                                EgressAction::OriginateTls { server_name } => {
                                    assert!(tls);
                                    assert_eq!(server_name, "service.internal");
                                }
                                EgressAction::Forward { dst, tls: wrapped } => {
                                    assert_eq!(wrapped, handshaking && completes);
                                    handshake_done = handshake_done || wrapped;
                                    if wrapped {
                                        assert_eq!(dst, v4(10, 1, 2, 3, 443));
                                    }
                                }
                                _ => {}
                            }
                        }
                        if !tls {
                            assert!(!handshake_done);
                        }
                    }
                }
            }
        }
    }
}

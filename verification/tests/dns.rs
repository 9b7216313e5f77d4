use secular_core::dns::{fallback_address, DnsGuard, ProbeOutcome, SocketAddress, DNS_PORT};
use secular_core::network::IpAddress;

fn quad9() -> SocketAddress {
    SocketAddress { ip: IpAddress::V4(9, 9, 9, 9), port: 53 }
}

#[test]
fn test_probe_query_format() {
    let query = DnsGuard::build_probe_query();
    // DNS header is 12 bytes, plus query
    assert!(query.len() > 12);
    // Check transaction ID
    assert_eq!(query[0], 0xCA);
    assert_eq!(query[1], 0xFE);
}

#[test]
fn probe_query_exact_bytes() {
    let mut expected = vec![0xCA, 0xFE, 0x01, 0x00, 0x00, 0x01, 0, 0, 0, 0, 0, 0];
    expected.extend_from_slice(b"\x05check\x07secular\x00");
    expected.extend_from_slice(&[0x00, 0x01, 0x00, 0x01]);
    assert_eq!(DnsGuard::build_probe_query(), expected);
    assert_eq!(expected.len(), 31);
}

#[test]
fn guard_addresses() {
    let g = DnsGuard::new(5353, quad9(), true);
    assert_eq!(g.proxy_addr(), SocketAddress { ip: IpAddress::V4(127, 0, 0, 1), port: 5353 });
    assert_eq!(g.fallback_dns(), quad9());
    assert!(g.block_ipv6());
}

#[test]
fn resolver_prefers_healthy_proxy() {
    let g = DnsGuard::new(5353, quad9(), false);
    assert_eq!(g.resolver(true), g.proxy_addr());
    assert_eq!(g.resolver(false), quad9());
}

#[test]
fn probe_outcomes() {
    assert!(DnsGuard::probe_healthy(ProbeOutcome::Received(12)));
    assert!(!DnsGuard::probe_healthy(ProbeOutcome::Received(0)));
    assert!(!DnsGuard::probe_healthy(ProbeOutcome::TimedOut));
    assert!(!DnsGuard::probe_healthy(ProbeOutcome::SendFailed));
    assert!(!DnsGuard::probe_healthy(ProbeOutcome::ReceiveFailed));
    assert!(!DnsGuard::probe_healthy(ProbeOutcome::SocketFailed));
}

#[test]
fn fallback_port_defaults_to_dns() {
    assert_eq!(fallback_address(IpAddress::V4(9, 9, 9, 9), None), quad9());
    assert_eq!(DNS_PORT, 53);
    assert_eq!(
        fallback_address(IpAddress::V4(1, 1, 1, 1), Some(5353)),
        SocketAddress { ip: IpAddress::V4(1, 1, 1, 1), port: 5353 }
    );
}

//! DNS leak prevention: the tunnel's DNS goes to a local proxy when it
//! answers a probe, else to a fallback resolver (Quad9).

use vstd::prelude::*;
use crate::network::IpAddress;

verus! {

/// An IP address and a port.
#[derive(Clone, Copy, Debug, PartialEq, Eq, Structural)]
pub struct SocketAddress {
    pub ip: IpAddress,
    pub port: u16,
}

/// How long the proxy probe waits for an answer, in milliseconds.
pub const PROBE_TIMEOUT_MS: u64 = 500;

/// Size of the buffer the probe's answer is read into.
pub const PROBE_BUFFER_LEN: usize = 512;

/// The probe query: a standard query (recursion desired) with transaction
/// id 0xCAFE and one question, the A record of `check.secular` in class IN.
pub open spec fn probe_query() -> Seq<u8> {
    seq![
        0xCAu8, 0xFEu8,
        0x01u8, 0x00u8,
        0x00u8, 0x01u8,
        0x00u8, 0x00u8,
        0x00u8, 0x00u8,
        0x00u8, 0x00u8,
        0x05u8, 0x63u8, 0x68u8, 0x65u8, 0x63u8, 0x6bu8,
        0x07u8, 0x73u8, 0x65u8, 0x63u8, 0x75u8, 0x6cu8, 0x61u8, 0x72u8,
        0x00u8,
        0x00u8, 0x01u8,
        0x00u8, 0x01u8,
    ]
}

/// The port of a DNS resolver given without one.
pub const DNS_PORT: u16 = 53;

/// The fallback resolver for a parsed address: its port when one was
/// given, else the DNS port.
pub fn fallback_address(ip: IpAddress, port: Option<u16>) -> (a: SocketAddress)
    ensures
        a.ip == ip,
        a.port == (match port {
            Some(p) => p,
            None => DNS_PORT,
        }),
{
    SocketAddress {
        ip,
        port: match port {
            Some(p) => p,
            None => DNS_PORT,
        },
    }
}

/// What became of a probe of the local DNS proxy.
#[derive(Clone, Copy, Debug, PartialEq, Eq, Structural)]
pub enum ProbeOutcome {
    /// No socket could be opened for the probe.
    SocketFailed,
    /// The query could not be sent.
    SendFailed,
    /// An answer of this many bytes arrived.
    Received(usize),
    /// Receiving failed.
    ReceiveFailed,
    /// No answer within the timeout.
    TimedOut,
}

/// DNS leak prevention engine.
pub struct DnsGuard {
    proxy_addr: SocketAddress,
    fallback_dns: SocketAddress,
    block_ipv6: bool,
}

impl DnsGuard {
    /// The local proxy's address.
    pub closed spec fn spec_proxy(self) -> SocketAddress {
        self.proxy_addr
    }

    /// The fallback resolver.
    pub closed spec fn spec_fallback(self) -> SocketAddress {
        self.fallback_dns
    }

    /// Whether IPv6 DNS is blocked.
    pub closed spec fn spec_block_ipv6(self) -> bool {
        self.block_ipv6
    }

    /// A guard for the proxy at `127.0.0.1:proxy_port` with a fallback resolver.
    pub fn new(proxy_port: u16, fallback: SocketAddress, block_ipv6: bool) -> (g: Self)
        ensures
            g.spec_proxy() == (SocketAddress { ip: IpAddress::V4(127, 0, 0, 1), port: proxy_port }),
            g.spec_fallback() == fallback,
            g.spec_block_ipv6() == block_ipv6,
    {
        DnsGuard {
            proxy_addr: SocketAddress { ip: IpAddress::V4(127, 0, 0, 1), port: proxy_port },
            fallback_dns: fallback,
            block_ipv6,
        }
    }

    /// The local proxy's address.
    pub fn proxy_addr(&self) -> (a: SocketAddress)
        ensures
            a == self.spec_proxy(),
    {
        self.proxy_addr
    }

    /// The fallback resolver.
    pub fn fallback_dns(&self) -> (a: SocketAddress)
        ensures
            a == self.spec_fallback(),
    {
        self.fallback_dns
    }

    /// Whether IPv6 DNS is blocked.
    pub fn block_ipv6(&self) -> (b: bool)
        ensures
            b == self.spec_block_ipv6(),
    {
        self.block_ipv6
    }

    /// Whether a probe shows the proxy healthy: only a non-empty answer does.
    pub fn probe_healthy(outcome: ProbeOutcome) -> (healthy: bool)
        ensures
            healthy <==> (outcome matches ProbeOutcome::Received(n) && n > 0),
    {
        match outcome {
            ProbeOutcome::Received(n) => n > 0,
            _ => false,
        }
    }

    /// The effective DNS resolver: the proxy when it is healthy, the
    /// fallback otherwise.
    pub fn resolver(&self, proxy_healthy: bool) -> (a: SocketAddress)
        ensures
            a == (if proxy_healthy { self.spec_proxy() } else { self.spec_fallback() }),
    {
        if proxy_healthy {
            self.proxy_addr
        } else {
            self.fallback_dns
        }
    }

    /// The probe query sent to the proxy.
    pub fn build_probe_query() -> (q: Vec<u8>)
        ensures
            q@ == probe_query(),
    {
        let mut pkt: Vec<u8> = Vec::new();
        // Transaction ID
        pkt.push(0xCA);
        pkt.push(0xFE);
        // Flags: standard query
        pkt.push(0x01);
        pkt.push(0x00);
        // Questions: 1
        pkt.push(0x00);
        pkt.push(0x01);
        // Answer, authority and additional records: 0
        pkt.push(0x00);
        pkt.push(0x00);
        pkt.push(0x00);
        pkt.push(0x00);
        pkt.push(0x00);
        pkt.push(0x00);
        // Query name: check.secular
        pkt.push(0x05);
        pkt.push(0x63);
        pkt.push(0x68);
        pkt.push(0x65);
        pkt.push(0x63);
        pkt.push(0x6b);
        pkt.push(0x07);
        pkt.push(0x73);
        pkt.push(0x65);
        pkt.push(0x63);
        pkt.push(0x75);
        pkt.push(0x6c);
        pkt.push(0x61);
        pkt.push(0x72);
        pkt.push(0x00);
        // Type A, class IN
        pkt.push(0x00);
        pkt.push(0x01);
        pkt.push(0x00);
        pkt.push(0x01);
        assert(pkt@ =~= probe_query());
        pkt
    }
}

} // verus!

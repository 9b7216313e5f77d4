//! Configuration of the Secular tunnel engine.

use vstd::prelude::*;
use vstd::string::*;

verus! {

/// Server endpoint configuration.
pub struct ServerConfig {
    /// Server IP address or hostname.
    pub host: String,
    /// Server port.
    pub port: u16,
    /// SNI hostname for the TLS handshake.
    pub sni: String,
    /// Authentication token.
    pub auth_token: String,
}

impl Clone for ServerConfig {
    fn clone(&self) -> (c: Self)
        ensures
            c.host@ == self.host@,
            c.port == self.port,
            c.sni@ == self.sni@,
            c.auth_token@ == self.auth_token@,
    {
        ServerConfig {
            host: self.host.clone(),
            port: self.port,
            sni: self.sni.clone(),
            auth_token: self.auth_token.clone(),
        }
    }
}

impl Default for ServerConfig {
    /// Empty strings and port 0.
    fn default() -> (c: Self)
        ensures
            c.host@ == Seq::<char>::empty(),
            c.port == 0,
            c.sni@ == Seq::<char>::empty(),
            c.auth_token@ == Seq::<char>::empty(),
    {
        ServerConfig { host: String::new(), port: 0, sni: String::new(), auth_token: String::new() }
    }
}

/// Full Secular configuration.
pub struct SecularConfig {
    /// Server to connect to.
    pub server: ServerConfig,
    /// DNS resolver inside the tunnel.
    pub dns_resolver: String,
    /// Enable IPv6 routing.
    pub allow_ipv6: bool,
    /// MTU size (0 = auto-detect).
    pub mtu: u16,
    /// Enable uTLS fingerprint randomization.
    pub enable_utls: bool,
    /// Kill switch: block all traffic if the tunnel drops.
    pub kill_switch: bool,
    /// Protocol: "h2" for HTTP/2, "quic" for QUIC.
    pub protocol: String,
}

impl Clone for SecularConfig {
    fn clone(&self) -> (c: Self)
        ensures
            c.view() == self.view(),
    {
        SecularConfig {
            server: self.server.clone(),
            dns_resolver: self.dns_resolver.clone(),
            allow_ipv6: self.allow_ipv6,
            mtu: self.mtu,
            enable_utls: self.enable_utls,
            kill_switch: self.kill_switch,
            protocol: self.protocol.clone(),
        }
    }
}

/// The plain value of a `SecularConfig`.
pub struct SecularConfigView {
    pub host: Seq<char>,
    pub port: u16,
    pub sni: Seq<char>,
    pub auth_token: Seq<char>,
    pub dns_resolver: Seq<char>,
    pub allow_ipv6: bool,
    pub mtu: u16,
    pub enable_utls: bool,
    pub kill_switch: bool,
    pub protocol: Seq<char>,
}

impl View for SecularConfig {
    type V = SecularConfigView;

    open spec fn view(&self) -> SecularConfigView {
        SecularConfigView {
            host: self.server.host@,
            port: self.server.port,
            sni: self.server.sni@,
            auth_token: self.server.auth_token@,
            dns_resolver: self.dns_resolver@,
            allow_ipv6: self.allow_ipv6,
            mtu: self.mtu,
            enable_utls: self.enable_utls,
            kill_switch: self.kill_switch,
            protocol: self.protocol@,
        }
    }
}

impl Default for SecularConfig {
    /// Port 443, Quad9 resolver, IPv6 off, MTU auto-detect, uTLS and kill
    /// switch on, HTTP/2.
    fn default() -> (c: Self)
        ensures
            c@.host == Seq::<char>::empty(),
            c@.port == 443,
            c@.sni == Seq::<char>::empty(),
            c@.auth_token == Seq::<char>::empty(),
            c@.dns_resolver == "9.9.9.9"@,
            !c@.allow_ipv6,
            c@.mtu == 0,
            c@.enable_utls,
            c@.kill_switch,
            c@.protocol == "h2"@,
    {
        SecularConfig {
            server: ServerConfig {
                host: String::new(),
                port: 443,
                sni: String::new(),
                auth_token: String::new(),
            },
            dns_resolver: "9.9.9.9".to_string(),
            allow_ipv6: false,
            mtu: 0,
            enable_utls: true,
            kill_switch: true,
            protocol: "h2".to_string(),
        }
    }
}

/// The first problem with a configuration, in the order the checks run,
/// or `None` when it is valid.
pub open spec fn config_problem(c: SecularConfigView) -> Option<Seq<char>> {
    if c.host.len() == 0 {
        Some("Server host is required"@)
    } else if c.sni.len() == 0 {
        Some("SNI hostname is required"@)
    } else if c.auth_token.len() == 0 {
        Some("Auth token is required"@)
    } else if c.port == 0 {
        Some("Invalid port"@)
    } else {
        None
    }
}

/// A configuration the engine accepts.
pub open spec fn config_valid(c: SecularConfigView) -> bool {
    config_problem(c) is None
}

impl SecularConfig {
    /// Validate the configuration: `Ok` exactly when host, SNI and token are
    /// non-empty and the port is non-zero; otherwise the first failing check's message.
    pub fn validate(&self) -> (r: Result<(), String>)
        ensures
            r is Ok <==> config_problem(self@) is None,
            r matches Err(e) ==> config_problem(self@) == Some(e@),
    {
        if self.server.host.as_str().unicode_len() == 0 {
            return Err("Server host is required".to_string());
        }
        if self.server.sni.as_str().unicode_len() == 0 {
            return Err("SNI hostname is required".to_string());
        }
        if self.server.auth_token.as_str().unicode_len() == 0 {
            return Err("Auth token is required".to_string());
        }
        if self.server.port == 0 {
            return Err("Invalid port".to_string());
        }
        Ok(())
    }
}

} // verus!

verus! {

/// A configuration is accepted exactly when host, SNI and token are
/// non-empty and the port is non-zero (any non-zero port, privileged ones
/// included); what is refused depends on those four fields alone.
pub proof fn law_config_acceptance(c: SecularConfigView, d: SecularConfigView)
    ensures
        config_problem(c) is None <==> (c.host.len() > 0 && c.sni.len() > 0 && c.auth_token.len() > 0
            && c.port != 0),
        (c.host == d.host && c.sni == d.sni && c.auth_token == d.auth_token && c.port == d.port)
            ==> config_problem(c) == config_problem(d),
{
}

} // verus!

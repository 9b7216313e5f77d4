//! The tunnel engine's connection state machine. The network work (TCP,
//! TLS, HTTP/2) is performed by the caller between the steps below; the
//! engine decides what is attempted, with which parameters, and which state
//! follows.

use vstd::prelude::*;
use vstd::string::*;
use crate::config::{config_problem, config_valid, SecularConfig, SecularConfigView};
use crate::error::SecularError;
use crate::text::{decimal, decimal_string, str_eq};
use crate::utls::{all_profiles, FingerprintProfile, UtlsEngine};
use crate::VERSION;

verus! {

broadcast use vstd::string::group_string_axioms;

/// Connection state.
#[derive(Clone, Copy, Debug, PartialEq, Eq, Structural)]
pub enum ConnectionState {
    Disconnected,
    Handshaking,
    Connected,
    Failed,
}

/// The number that stands for a state in the C interface:
/// 0 = Disconnected, 1 = Handshaking, 2 = Connected, 3 = Failed.
pub open spec fn spec_state_code(s: ConnectionState) -> i32 {
    match s {
        ConnectionState::Disconnected => 0,
        ConnectionState::Handshaking => 1,
        ConnectionState::Connected => 2,
        ConnectionState::Failed => 3,
    }
}

/// The number of a state in the C interface.
pub fn state_code(s: ConnectionState) -> (c: i32)
    ensures
        c == spec_state_code(s),
{
    match s {
        ConnectionState::Disconnected => 0,
        ConnectionState::Handshaking => 1,
        ConnectionState::Connected => 2,
        ConnectionState::Failed => 3,
    }
}

/// The established tunnel: server address and SNI hostname.
struct Tunnel {
    server_addr: String,
    sni: String,
}

/// The engine's link to the server. A connection attempt keeps the tunnel
/// of an earlier connection until it completes or the engine disconnects.
enum Link {
    Idle,
    Handshaking(Option<Tunnel>),
    Up(Tunnel),
}

/// The core Secular engine.
pub struct SecularEngine {
    config: SecularConfig,
    link: Link,
}

/// The plain value of an engine: its configuration, its state and, when a
/// tunnel is established, the tunnel's (server address, SNI).
pub struct EngineView {
    pub config: SecularConfigView,
    pub state: ConnectionState,
    pub tunnel: Option<(Seq<char>, Seq<char>)>,
}

/// What every engine satisfies: its configuration is valid, a tunnel exists
/// whenever it is connected, it is never disconnected while holding a
/// tunnel, and it never enters `Failed`.
pub open spec fn engine_inv(v: EngineView) -> bool {
    &&& config_valid(v.config)
    &&& v.state == ConnectionState::Connected ==> v.tunnel is Some
    &&& v.tunnel is Some ==> v.state != ConnectionState::Disconnected
    &&& v.state != ConnectionState::Failed
}

/// A fresh engine for a configuration.
pub open spec fn fresh_engine(c: SecularConfigView) -> EngineView {
    EngineView { config: c, state: ConnectionState::Disconnected, tunnel: None }
}

/// The engine once a connection attempt has started.
pub open spec fn after_begin_connect(v: EngineView) -> EngineView {
    EngineView { state: ConnectionState::Handshaking, ..v }
}

/// The engine once the HTTP/2 tunnel to `host` with SNI `sni` is up.
pub open spec fn after_h2_connected(v: EngineView, host: Seq<char>, sni: Seq<char>) -> EngineView {
    EngineView { state: ConnectionState::Connected, tunnel: Some((host, sni)), ..v }
}

/// The engine after a disconnect.
pub open spec fn after_disconnect(v: EngineView) -> EngineView {
    EngineView { state: ConnectionState::Disconnected, tunnel: None, ..v }
}

/// Packets pass through the engine exactly while a tunnel is established.
pub open spec fn can_pass_packets(v: EngineView) -> bool {
    v.tunnel is Some
}

/// The transport chosen for a connection.
#[derive(Clone, Copy, Debug, PartialEq, Eq, Structural)]
pub enum TunnelPath {
    Http2,
    Quic,
}

/// What a connection attempt uses: the TCP address, the transport, and
/// the host, SNI and token of the configuration.
pub struct ConnectPlan {
    /// `host:port` to open the TCP connection to.
    pub address: String,
    pub path: TunnelPath,
    pub host: String,
    pub sni: String,
    pub auth_token: String,
}

/// The TCP address of a configuration: `host:port`.
pub open spec fn connect_address(c: SecularConfigView) -> Seq<char> {
    c.host + ":"@ + decimal(c.port as nat)
}

/// QUIC when the configuration asks for `quic`, HTTP/2 otherwise.
pub open spec fn connect_path(c: SecularConfigView) -> TunnelPath {
    if c.protocol == "quic"@ { TunnelPath::Quic } else { TunnelPath::Http2 }
}

/// ALPN protocols offered: HTTP/2 first, then HTTP/1.1.
pub open spec fn alpn_protocols() -> Seq<Seq<u8>> {
    seq![seq![0x68u8, 0x32u8], seq![0x68u8, 0x74u8, 0x74u8, 0x70u8, 0x2fu8, 0x31u8, 0x2eu8, 0x31u8]]
}

/// The TLS client parameters of a connection.
pub struct TlsPlan {
    /// ALPN protocol identifiers, in preference order.
    pub alpn: Vec<Vec<u8>>,
    /// The uTLS fingerprint to apply, when uTLS is enabled.
    pub fingerprint: Option<FingerprintProfile>,
}

/// The plain values of a list of byte strings.
pub open spec fn bytes_view(v: Seq<Vec<u8>>) -> Seq<Seq<u8>> {
    v.map_values(|b: Vec<u8>| b@)
}

/// The plain values of a list of string pairs.
pub open spec fn pairs_view(v: Seq<(String, String)>) -> Seq<(Seq<char>, Seq<char>)> {
    v.map_values(|p: (String, String)| (p.0@, p.1@))
}

/// `a` sorts before `b` as Rust orders strings (code point by code point,
/// a proper prefix first).
pub open spec fn key_less(a: Seq<char>, b: Seq<char>) -> bool
    decreases a.len(),
{
    if a.len() == 0 {
        b.len() > 0
    } else if b.len() == 0 {
        false
    } else if a[0] != b[0] {
        (a[0] as int) < (b[0] as int)
    } else {
        key_less(a.drop_first(), b.drop_first())
    }
}

/// The keys strictly ascend.
pub open spec fn keys_ascending(fields: Seq<(Seq<char>, Seq<char>)>) -> bool {
    forall|i: int| 0 <= i < fields.len() - 1 ==> key_less(#[trigger] fields[i].0, fields[i + 1].0)
}

/// A lowercase hexadecimal digit.
pub open spec fn hex_digit(d: int) -> char {
    if d < 10 { (d + 48) as char } else { (d + 87) as char }
}

/// How `serde_json` writes one character inside a string: `"` and `\` and
/// the control characters escaped (short forms for backspace, tab, line
/// feed, form feed and carriage return, `\u00xx` for the others), every
/// other character as it is.
pub open spec fn json_char(c: char) -> Seq<char> {
    if c == '"' {
        seq!['\\', '"']
    } else if c == '\\' {
        seq!['\\', '\\']
    } else if c == '\u{8}' {
        seq!['\\', 'b']
    } else if c == '\t' {
        seq!['\\', 't']
    } else if c == '\n' {
        seq!['\\', 'n']
    } else if c == '\u{c}' {
        seq!['\\', 'f']
    } else if c == '\r' {
        seq!['\\', 'r']
    } else if (c as int) < 0x20 {
        seq!['\\', 'u', '0', '0', hex_digit((c as int) / 16), hex_digit((c as int) % 16)]
    } else {
        seq![c]
    }
}

/// The escaped characters of a string.
pub open spec fn json_chars(s: Seq<char>) -> Seq<char>
    decreases s.len(),
{
    if s.len() == 0 {
        Seq::empty()
    } else {
        json_char(s[0]) + json_chars(s.drop_first())
    }
}

/// A JSON string literal.
pub open spec fn json_string(s: Seq<char>) -> Seq<char> {
    seq!['"'] + json_chars(s) + seq!['"']
}

/// The members of a compact JSON object, separated by commas.
pub open spec fn json_members(fields: Seq<(Seq<char>, Seq<char>)>) -> Seq<char>
    decreases fields.len(),
{
    if fields.len() == 0 {
        Seq::empty()
    } else if fields.len() == 1 {
        json_string(fields[0].0) + seq![':'] + json_string(fields[0].1)
    } else {
        json_string(fields[0].0) + seq![':'] + json_string(fields[0].1) + seq![',']
            + json_members(fields.drop_first())
    }
}

/// The compact JSON object with these string members, in this order.
pub open spec fn json_object_text(fields: Seq<(Seq<char>, Seq<char>)>) -> Seq<char> {
    seq!['{'] + json_members(fields) + seq!['}']
}

/// `serde_json`: the pairs collected into a `serde_json::Map` and written as
/// `Value::Object` through its `Display` (the compact form). The map is
/// ordered by key, so with strictly ascending keys the members come in the
/// given order, each key and value a JSON string escaped as `json_char` says.
#[verifier::external_body]
fn json_object(fields: &Vec<(String, String)>) -> (text: String)
    requires
        keys_ascending(pairs_view(fields@)),
    ensures
        text@ == json_object_text(pairs_view(fields@)),
{
    let map: serde_json::Map<String, serde_json::Value> =
        fields.iter().map(|(k, v)| (k.clone(), serde_json::Value::from(v.as_str()))).collect();
    serde_json::Value::Object(map).to_string()
}

/// The members of the authentication request's JSON body, in key order:
/// the client platform, the token and the library version.
pub open spec fn auth_fields(token: Seq<char>, platform: Seq<char>) -> Seq<(Seq<char>, Seq<char>)> {
    seq![("platform"@, platform), ("token"@, token), ("version"@, VERSION@)]
}

/// The HTTP/2 authentication request.
pub struct AuthRequest {
    pub method: String,
    pub uri: String,
    pub content_type: String,
    pub user_agent: String,
    pub body: String,
}

/// A 2xx status.
pub open spec fn is_success_status(status: u16) -> bool {
    200 <= status <= 299
}

impl SecularEngine {
    #[verifier::type_invariant]
    spec fn wf(self) -> bool {
        engine_inv(self@)
    }

    /// Create an engine for a configuration; refused, with the validation
    /// message, when the configuration is invalid.
    pub fn new(config: SecularConfig) -> (r: Result<Self, SecularError>)
        ensures
            r is Ok <==> config_valid(config@),
            r matches Ok(e) ==> e@ == fresh_engine(config@),
            r matches Err(e) ==> (e matches SecularError::InvalidConfig(m) && config_problem(config@)
                == Some(m@)),
    {
        match config.validate() {
            Ok(()) => Ok(SecularEngine { config, link: Link::Idle }),
            Err(m) => Err(SecularError::InvalidConfig(m)),
        }
    }

    /// Start a connection attempt: the engine is handshaking and the plan
    /// says where to connect and over which transport.
    pub fn begin_connect(&mut self) -> (plan: ConnectPlan)
        ensures
            final(self)@ == after_begin_connect(old(self)@),
            plan.address@ == connect_address(old(self)@.config),
            plan.path == connect_path(old(self)@.config),
            plan.host@ == old(self)@.config.host,
            plan.sni@ == old(self)@.config.sni,
            plan.auth_token@ == old(self)@.config.auth_token,
    {
        proof {
            use_type_invariant(&*self);
        }
        let mut link = Link::Idle;
        std::mem::swap(&mut link, &mut self.link);
        self.link = match link {
            Link::Idle => Link::Handshaking(None),
            Link::Handshaking(t) => Link::Handshaking(t),
            Link::Up(t) => Link::Handshaking(Some(t)),
        };
        let mut address = self.config.server.host.clone();
        address.append(":");
        address.append(decimal_string(self.config.server.port as u64).as_str());
        let path = if str_eq(self.config.protocol.as_str(), "quic") {
            TunnelPath::Quic
        } else {
            TunnelPath::Http2
        };
        ConnectPlan {
            address,
            path,
            host: self.config.server.host.clone(),
            sni: self.config.server.sni.clone(),
            auth_token: self.config.server.auth_token.clone(),
        }
    }

    /// The QUIC transport is not implemented: the attempt fails and the
    /// engine stays as it is.
    pub fn connect_quic(&self) -> (r: Result<(), SecularError>)
        ensures
            r matches Err(e) && e is QuicNotImplemented,
    {
        Err(SecularError::QuicNotImplemented)
    }

    /// The TLS parameters for the HTTP/2 path: ALPN `h2` then `http/1.1`,
    /// and a random browser fingerprint when uTLS is enabled.
    pub fn tls_plan(&self) -> (p: TlsPlan)
        ensures
            bytes_view(p.alpn@) == alpn_protocols(),
            self@.config.enable_utls <==> p.fingerprint is Some,
            p.fingerprint matches Some(f) ==> all_profiles().contains(f),
    {
        let mut h2: Vec<u8> = Vec::new();
        h2.push(0x68);
        h2.push(0x32);
        let mut http11: Vec<u8> = Vec::new();
        http11.push(0x68);
        http11.push(0x74);
        http11.push(0x74);
        http11.push(0x70);
        http11.push(0x2f);
        http11.push(0x31);
        http11.push(0x2e);
        http11.push(0x31);
        assert(h2@ =~= alpn_protocols()[0]);
        assert(http11@ =~= alpn_protocols()[1]);
        let mut alpn: Vec<Vec<u8>> = Vec::new();
        alpn.push(h2);
        alpn.push(http11);
        assert(bytes_view(alpn@) =~= alpn_protocols());
        let fingerprint = if self.config.enable_utls {
            Some(UtlsEngine::new_random().profile())
        } else {
            None
        };
        TlsPlan { alpn, fingerprint }
    }

    /// The authentication request sent to `host` once the HTTP/2 session is
    /// up: a JSON `POST` to `/api/v1/auth` carrying the token, the library
    /// version and the client platform.
    pub fn auth_request(host: &str, token: &str, platform: &str) -> (r: AuthRequest)
        ensures
            r.method@ == "POST"@,
            r.uri@ == "https://"@ + host@ + "/api/v1/auth"@,
            r.content_type@ == "application/json"@,
            r.user_agent@ == "Secular/"@ + VERSION@,
            r.body@ == json_object_text(auth_fields(token@, platform@)),
    {
        let mut uri = "https://".to_string();
        uri.append(host);
        uri.append("/api/v1/auth");
        let mut user_agent = "Secular/".to_string();
        user_agent.append(VERSION);
        let mut fields: Vec<(String, String)> = Vec::new();
        fields.push(("platform".to_string(), platform.to_string()));
        fields.push(("token".to_string(), token.to_string()));
        fields.push(("version".to_string(), VERSION.to_string()));
        assert(pairs_view(fields@) =~= auth_fields(token@, platform@));
        proof {
            reveal_strlit("platform");
            reveal_strlit("token");
            reveal_strlit("version");
            assert("platform"@[0] == 'p' && "token"@[0] == 't' && "version"@[0] == 'v');
            assert(key_less("platform"@, "token"@));
            assert(key_less("token"@, "version"@));
            assert(keys_ascending(pairs_view(fields@)));
        }
        AuthRequest {
            method: "POST".to_string(),
            uri,
            content_type: "application/json".to_string(),
            user_agent,
            body: json_object(&fields),
        }
    }

    /// The server's answer to the authentication request: accepted exactly
    /// on a 2xx status.
    pub fn check_auth_status(status: u16) -> (r: Result<(), SecularError>)
        ensures
            r is Ok <==> is_success_status(status),
            r matches Err(e) ==> (e matches SecularError::AuthRejected(s) && s == status),
    {
        if 200 <= status && status <= 299 {
            Ok(())
        } else {
            Err(SecularError::AuthRejected(status))
        }
    }

    /// Record the established HTTP/2 tunnel: the engine is connected.
    pub fn h2_connected(&mut self, host: &str, sni: &str)
        ensures
            final(self)@ == after_h2_connected(old(self)@, host@, sni@),
    {
        proof {
            use_type_invariant(&*self);
        }
        self.link = Link::Up(Tunnel { server_addr: host.to_string(), sni: sni.to_string() });
    }

    /// Disconnect and clean up: no tunnel, disconnected; always succeeds.
    pub fn disconnect(&mut self) -> (r: Result<(), SecularError>)
        ensures
            r is Ok,
            final(self)@ == after_disconnect(old(self)@),
    {
        proof {
            use_type_invariant(&*self);
        }
        self.link = Link::Idle;
        Ok(())
    }

    /// The current connection state.
    pub fn state(&self) -> (s: ConnectionState)
        ensures
            s == self@.state,
    {
        match &self.link {
            Link::Idle => ConnectionState::Disconnected,
            Link::Handshaking(_) => ConnectionState::Handshaking,
            Link::Up(_) => ConnectionState::Connected,
        }
    }

    /// The configuration.
    pub fn config(&self) -> (c: &SecularConfig)
        ensures
            c@ == self@.config,
            config_valid(c@),
    {
        proof {
            use_type_invariant(self);
        }
        &self.config
    }

    /// Send a raw IP packet through the tunnel: refused when no tunnel is
    /// established.
    pub fn send_packet(&self, packet: &[u8]) -> (r: Result<(), SecularError>)
        ensures
            r is Ok <==> can_pass_packets(self@),
            r matches Err(e) ==> e is NotConnected,
    {
        match &self.link {
            Link::Up(_) | Link::Handshaking(Some(_)) => Ok(()),
            _ => Err(SecularError::NotConnected),
        }
    }

    /// Receive a raw IP packet from the tunnel: refused when no tunnel is
    /// established; otherwise no packet is pending and nothing is read.
    pub fn recv_packet(&self, buf: &mut [u8]) -> (r: Result<usize, SecularError>)
        ensures
            final(buf)@ == old(buf)@,
            r is Ok <==> can_pass_packets(self@),
            r matches Ok(n) ==> n == 0,
            r matches Err(e) ==> e is NotConnected,
    {
        match &self.link {
            Link::Up(_) | Link::Handshaking(Some(_)) => Ok(0),
            _ => Err(SecularError::NotConnected),
        }
    }
}

impl View for SecularEngine {
    type V = EngineView;

    closed spec fn view(&self) -> EngineView {
        match &self.link {
            Link::Idle => EngineView {
                config: self.config@,
                state: ConnectionState::Disconnected,
                tunnel: None,
            },
            Link::Handshaking(t) => EngineView {
                config: self.config@,
                state: ConnectionState::Handshaking,
                tunnel: match t {
                    Some(t) => Some((t.server_addr@, t.sni@)),
                    None => None,
                },
            },
            Link::Up(t) => EngineView {
                config: self.config@,
                state: ConnectionState::Connected,
                tunnel: Some((t.server_addr@, t.sni@)),
            },
        }
    }
}

/// Every engine operation keeps the engine invariant: a fresh engine for a
/// valid configuration satisfies it, and starting a connection, recording
/// the HTTP/2 tunnel and disconnecting preserve it.
pub proof fn law_engine_invariant(c: SecularConfigView, v: EngineView, host: Seq<char>, sni: Seq<char>)
    requires
        config_valid(c),
        engine_inv(v),
    ensures
        engine_inv(fresh_engine(c)),
        engine_inv(after_begin_connect(v)),
        engine_inv(after_h2_connected(v, host, sni)),
        engine_inv(after_disconnect(v)),
{
}

/// No operation changes the configuration of an engine.
pub proof fn law_config_unchanged(v: EngineView, host: Seq<char>, sni: Seq<char>)
    ensures
        after_begin_connect(v).config == v.config,
        after_h2_connected(v, host, sni).config == v.config,
        after_disconnect(v).config == v.config,
{
}

/// Packets pass after the HTTP/2 tunnel is recorded and until the next
/// disconnect; a fresh engine and a disconnected one refuse them, and a
/// disconnect always leaves the engine disconnected.
pub proof fn law_packets_need_tunnel(c: SecularConfigView, v: EngineView, host: Seq<char>, sni: Seq<char>)
    ensures
        !can_pass_packets(fresh_engine(c)),
        fresh_engine(c).state == ConnectionState::Disconnected,
        can_pass_packets(after_h2_connected(after_begin_connect(v), host, sni)),
        after_h2_connected(after_begin_connect(v), host, sni).state == ConnectionState::Connected,
        !can_pass_packets(after_disconnect(v)),
        after_disconnect(v).state == ConnectionState::Disconnected,
        after_disconnect(after_disconnect(v)) == after_disconnect(v),
{
}

} // verus!

verus! {

/// The planned TCP address is the configured host, a colon, and the port
/// written in decimal: the digits after the colon denote exactly the
/// configured port, for every port.
pub proof fn law_connect_address(c: SecularConfigView)
    ensures
        connect_address(c).take(c.host.len() as int) == c.host,
        connect_address(c)[c.host.len() as int] == ':',
        connect_address(c).len() > c.host.len() + 1,
        forall|i: int|
            c.host.len() < i < connect_address(c).len() ==> crate::text::is_digit(
                #[trigger] connect_address(c)[i],
            ),
        crate::text::digits_value(connect_address(c).skip((c.host.len() + 1) as int)) == c.port,
{
    reveal_strlit(":");
    let d = decimal(c.port as nat);
    crate::text::law_decimal_denotes(c.port as nat);
    let a = connect_address(c);
    assert(a.take(c.host.len() as int) =~= c.host);
    assert(a.skip((c.host.len() + 1) as int) =~= d);
    assert forall|i: int| c.host.len() < i < a.len() implies crate::text::is_digit(#[trigger] a[i]) by {
        assert(a[i] == d[i - c.host.len() - 1]);
    }
}

} // verus!

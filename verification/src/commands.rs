//! The desktop client's command logic: the TrustTunnel profile, its TOML
//! rendering, connection checks, the shared application state, the tunnel
//! client's command line, and what tray and menu actions do.

use vstd::prelude::*;
use vstd::string::*;
use crate::text::{
    bool_str, bool_text, chars_of, contains_char, contains_chars, decimal, decimal_string, has_substring,
    head_before, head_before_char, join_quoted, owned, quoted_join, str_eq, strings_view,
};

verus! {

broadcast use vstd::string::group_string_axioms;

/// Server profile of the desktop client (mirrors the Android profile and
/// TrustTunnel's TOML).
pub struct ServerConfig {
    /// `host:port` address, e.g. "185.103.24.4:443".
    pub address: String,
    /// SNI hostname for the TLS handshake.
    pub hostname: String,
    /// Username for TrustTunnel auth.
    pub username: String,
    /// Password for TrustTunnel auth.
    pub password: String,
    /// Protocol: "http2" or "http3".
    pub upstream_protocol: String,
    /// DNS upstreams.
    pub dns_upstreams: Vec<String>,
    /// Allow IPv6 traffic.
    pub has_ipv6: bool,
    /// Certificate PEM or path.
    pub certificate: String,
    /// Skip TLS verification.
    pub skip_verification: bool,
    /// Anti-DPI.
    pub anti_dpi: bool,
    /// Change system DNS to route through the tunnel.
    pub change_system_dns: bool,
}

/// The plain value of a desktop `ServerConfig`.
pub struct ServerConfigView {
    pub address: Seq<char>,
    pub hostname: Seq<char>,
    pub username: Seq<char>,
    pub password: Seq<char>,
    pub upstream_protocol: Seq<char>,
    pub dns_upstreams: Seq<Seq<char>>,
    pub has_ipv6: bool,
    pub certificate: Seq<char>,
    pub skip_verification: bool,
    pub anti_dpi: bool,
    pub change_system_dns: bool,
}

impl View for ServerConfig {
    type V = ServerConfigView;

    open spec fn view(&self) -> ServerConfigView {
        ServerConfigView {
            address: self.address@,
            hostname: self.hostname@,
            username: self.username@,
            password: self.password@,
            upstream_protocol: self.upstream_protocol@,
            dns_upstreams: strings_view(self.dns_upstreams@),
            has_ipv6: self.has_ipv6,
            certificate: self.certificate@,
            skip_verification: self.skip_verification,
            anti_dpi: self.anti_dpi,
            change_system_dns: self.change_system_dns,
        }
    }
}

/// A copy of a list of strings.
pub fn clone_strings(v: &Vec<String>) -> (r: Vec<String>)
    ensures
        strings_view(r@) == strings_view(v@),
{
    let mut r: Vec<String> = Vec::new();
    let n = v.len();
    let mut i: usize = 0;
    while i < n
        invariant
            n == v@.len(),
            i <= n,
            r@.len() == i,
            forall|j: int| 0 <= j < i ==> #[trigger] r@[j]@ == v@[j]@,
        decreases n - i,
    {
        r.push(v[i].clone());
        i = i + 1;
    }
    assert(strings_view(r@) =~= strings_view(v@));
    r
}

impl Clone for ServerConfig {
    fn clone(&self) -> (c: Self)
        ensures
            c@ == self@,
    {
        ServerConfig {
            address: self.address.clone(),
            hostname: self.hostname.clone(),
            username: self.username.clone(),
            password: self.password.clone(),
            upstream_protocol: self.upstream_protocol.clone(),
            dns_upstreams: clone_strings(&self.dns_upstreams),
            has_ipv6: self.has_ipv6,
            certificate: self.certificate.clone(),
            skip_verification: self.skip_verification,
            anti_dpi: self.anti_dpi,
            change_system_dns: self.change_system_dns,
        }
    }
}

impl Default for ServerConfig {
    /// An empty profile over HTTP/2 with the Quad9 resolvers, IPv6 off,
    /// verification on, anti-DPI off and system DNS routed through the tunnel.
    fn default() -> (c: Self)
        ensures
            c@.address.len() == 0,
            c@.hostname.len() == 0,
            c@.username.len() == 0,
            c@.password.len() == 0,
            c@.upstream_protocol == "http2"@,
            c@.dns_upstreams == seq!["9.9.9.9"@, "149.112.112.112"@],
            !c@.has_ipv6,
            c@.certificate.len() == 0,
            !c@.skip_verification,
            !c@.anti_dpi,
            c@.change_system_dns,
    {
        let mut dns: Vec<String> = Vec::new();
        dns.push("9.9.9.9".to_string());
        dns.push("149.112.112.112".to_string());
        let c = ServerConfig {
            address: String::new(),
            hostname: String::new(),
            username: String::new(),
            password: String::new(),
            upstream_protocol: "http2".to_string(),
            dns_upstreams: dns,
            has_ipv6: false,
            certificate: String::new(),
            skip_verification: false,
            anti_dpi: false,
            change_system_dns: true,
        };
        assert(c@.dns_upstreams =~= seq!["9.9.9.9"@, "149.112.112.112"@]);
        c
    }
}

/// The SNI hostname written to the TOML: the configured hostname, or the
/// host part of the address when none is set.
pub open spec fn toml_sni(c: ServerConfigView) -> Seq<char> {
    if c.hostname.len() == 0 {
        head_before(c.address, ':')
    } else {
        c.hostname
    }
}

/// The quoted endpoint address, `"0.0.0.0:443"` when none is configured.
pub open spec fn toml_address(address: Seq<char>) -> Seq<char> {
    if address.len() == 0 {
        "\"0.0.0.0:443\""@
    } else {
        "\""@ + address + "\""@
    }
}

/// The upstream protocol written to the TOML: `http3` when asked for, else `auto`.
pub open spec fn toml_protocol(p: Seq<char>) -> Seq<char> {
    if p == "http3"@ { "http3"@ } else { "auto"@ }
}

/// The quoted DNS upstream list, the Quad9 pair when none is configured.
pub open spec fn toml_dns_list(dns: Seq<Seq<char>>) -> Seq<char> {
    if dns.len() == 0 {
        "\"9.9.9.9\", \"149.112.112.112\""@
    } else {
        quoted_join(dns)
    }
}

/// The routes kept out of the tunnel: the Tailscale CGNAT range and, when
/// the address has a host part, the VPN server itself.
pub open spec fn excluded_routes(address: Seq<char>) -> Seq<Seq<char>> {
    let server_ip = head_before(address, ':');
    if server_ip.len() == 0 {
        seq!["100.64.0.0/10"@]
    } else {
        seq!["100.64.0.0/10"@, server_ip + "/32"@]
    }
}

/// The `included_routes` line.
pub open spec fn included_routes_line(has_ipv6: bool) -> Seq<char> {
    if has_ipv6 {
        "included_routes = [\"0.0.0.0/0\", \"::/0\"]\n"@
    } else {
        "included_routes = [\"0.0.0.0/0\"]\n"@
    }
}

/// The TOML up to and including the `has_ipv6` line.
pub open spec fn toml_main(c: ServerConfigView) -> Seq<char> {
    "vpn_mode = \"general\"\n"@
        + "loglevel = \"trace\"\n"@
        + "killswitch_enabled = false\n"@
        + "post_quantum_group_enabled = false\n\n"@
        + "[listener.tun]\n"@
        + included_routes_line(c.has_ipv6)
        + "excluded_routes = ["@
        + quoted_join(excluded_routes(c.address))
        + "]\n"@
        + "mtu_size = 1500\n"@
        + "change_system_dns = "@
        + bool_text(c.change_system_dns)
        + "\n\n"@
        + "[endpoint]\n"@
        + "hostname = \""@
        + toml_sni(c)
        + "\"\n"@
        + "addresses = ["@
        + toml_address(c.address)
        + "]\n"@
        + "username = \""@
        + c.username
        + "\"\n"@
        + "password = \""@
        + c.password
        + "\"\n"@
        + "upstream_protocol = \""@
        + toml_protocol(c.upstream_protocol)
        + "\"\n"@
        + "dns_upstreams = ["@
        + toml_dns_list(c.dns_upstreams)
        + "]\n"@
        + "has_ipv6 = "@
        + bool_text(c.has_ipv6)
        + "\n"@
}

/// The TOML with the certificate block, when a certificate is configured.
pub open spec fn toml_with_certificate(c: ServerConfigView) -> Seq<char> {
    if c.certificate.len() == 0 {
        toml_main(c)
    } else {
        toml_main(c) + "certificate = \"\"\""@ + c.certificate + "\n\"\"\"\n"@
    }
}

/// The complete TrustTunnel client configuration for a profile.
pub open spec fn toml_text(c: ServerConfigView) -> Seq<char> {
    toml_with_certificate(c)
        + "skip_verification = "@
        + bool_text(c.skip_verification)
        + "\n"@
        + "anti_dpi = "@
        + bool_text(c.anti_dpi)
        + "\n"@
}

impl ServerConfig {
    fn sni(&self) -> (r: String)
        ensures
            r@ == toml_sni(self@),
    {
        if self.hostname.as_str().unicode_len() == 0 {
            head_before_char(self.address.as_str(), ':')
        } else {
            self.hostname.clone()
        }
    }

    fn quoted_address(&self) -> (r: String)
        ensures
            r@ == toml_address(self@.address),
    {
        if self.address.as_str().unicode_len() == 0 {
            "\"0.0.0.0:443\"".to_string()
        } else {
            let mut r = "\"".to_string();
            r.append(self.address.as_str());
            r.append("\"");
            r
        }
    }

    fn protocol_name(&self) -> (r: &'static str)
        ensures
            r@ == toml_protocol(self@.upstream_protocol),
    {
        if str_eq(self.upstream_protocol.as_str(), "http3") {
            "http3"
        } else {
            "auto"
        }
    }

    fn dns_list(&self) -> (r: String)
        ensures
            r@ == toml_dns_list(self@.dns_upstreams),
    {
        if self.dns_upstreams.len() == 0 {
            "\"9.9.9.9\", \"149.112.112.112\"".to_string()
        } else {
            join_quoted(&self.dns_upstreams)
        }
    }

    fn excluded_routes(&self) -> (r: Vec<String>)
        ensures
            strings_view(r@) == excluded_routes(self@.address),
    {
        let server_ip = head_before_char(self.address.as_str(), ':');
        let mut r: Vec<String> = Vec::new();
        r.push("100.64.0.0/10".to_string());
        if server_ip.as_str().unicode_len() > 0 {
            let mut route = server_ip;
            route.append("/32");
            r.push(route);
        }
        assert(strings_view(r@) =~= excluded_routes(self@.address));
        r
    }

    /// Render the profile as a TrustTunnel client TOML configuration.
    pub fn to_toml(&self) -> (t: String)
        ensures
            t@ == toml_text(self@),
    {
        let sni = self.sni();
        let addr = self.quoted_address();
        let proto = self.protocol_name();
        let dns_list = self.dns_list();
        let excl_str = join_quoted(&self.excluded_routes());

        let mut toml = String::new();
        toml.append("vpn_mode = \"general\"\n");
        toml.append("loglevel = \"trace\"\n");
        toml.append("killswitch_enabled = false\n");
        toml.append("post_quantum_group_enabled = false\n\n");
        toml.append("[listener.tun]\n");
        if self.has_ipv6 {
            toml.append("included_routes = [\"0.0.0.0/0\", \"::/0\"]\n");
        } else {
            toml.append("included_routes = [\"0.0.0.0/0\"]\n");
        }
        toml.append("excluded_routes = [");
        toml.append(excl_str.as_str());
        toml.append("]\n");
        toml.append("mtu_size = 1500\n");
        toml.append("change_system_dns = ");
        toml.append(bool_str(self.change_system_dns));
        toml.append("\n\n");
        toml.append("[endpoint]\n");
        toml.append("hostname = \"");
        toml.append(sni.as_str());
        toml.append("\"\n");
        toml.append("addresses = [");
        toml.append(addr.as_str());
        toml.append("]\n");
        toml.append("username = \"");
        toml.append(self.username.as_str());
        toml.append("\"\n");
        toml.append("password = \"");
        toml.append(self.password.as_str());
        toml.append("\"\n");
        toml.append("upstream_protocol = \"");
        toml.append(proto);
        toml.append("\"\n");
        toml.append("dns_upstreams = [");
        toml.append(dns_list.as_str());
        toml.append("]\n");
        toml.append("has_ipv6 = ");
        toml.append(bool_str(self.has_ipv6));
        toml.append("\n");
        assert(toml@ == toml_main(self@));
        if self.certificate.as_str().unicode_len() > 0 {
            toml.append("certificate = \"\"\"");
            toml.append(self.certificate.as_str());
            toml.append("\n\"\"\"\n");
        }
        assert(toml@ == toml_with_certificate(self@));
        toml.append("skip_verification = ");
        toml.append(bool_str(self.skip_verification));
        toml.append("\n");
        toml.append("anti_dpi = ");
        toml.append(bool_str(self.anti_dpi));
        toml.append("\n");
        toml
    }
}

} // verus!

verus! {

/// The first reason a profile cannot be connected, in the order the
/// checks run, or `None` when it can.
pub open spec fn connect_problem(c: ServerConfigView) -> Option<Seq<char>> {
    if c.address.len() == 0 {
        Some("Server address is required"@)
    } else if !c.address.contains(':') {
        Some(
            "Address '"@ + c.address + "' is missing a port. Use format: host:port (e.g. "@
                + c.address + ":443)"@,
        )
    } else if c.username.len() == 0 || c.password.len() == 0 {
        Some("Username and password are required"@)
    } else {
        None
    }
}

/// Connection state reported to the UI.
pub struct ConnectionState {
    pub connected: bool,
    pub server: String,
    pub protocol: String,
    pub bytes_sent: u64,
    pub bytes_received: u64,
}

impl ServerConfig {
    /// The checks that run before a connection is attempted: an address is
    /// required and must carry a port, and username and password are required.
    pub fn validate_for_connect(&self) -> (r: Result<(), String>)
        ensures
            r is Ok <==> connect_problem(self@) is None,
            r matches Err(e) ==> connect_problem(self@) == Some(e@),
    {
        let address = self.address.as_str();
        if address.unicode_len() == 0 {
            return Err("Server address is required".to_string());
        }
        if !contains_char(address, ':') {
            let mut e = "Address '".to_string();
            e.append(address);
            e.append("' is missing a port. Use format: host:port (e.g. ");
            e.append(address);
            e.append(":443)");
            return Err(e);
        }
        if self.username.as_str().unicode_len() == 0 || self.password.as_str().unicode_len() == 0 {
            return Err("Username and password are required".to_string());
        }
        Ok(())
    }

    /// The state reported right after the tunnel client was started for
    /// this profile: connected to its address over its protocol, no traffic yet.
    pub fn connected_state(&self) -> (s: ConnectionState)
        ensures
            s.connected,
            s.server@ == self@.address,
            s.protocol@ == self@.upstream_protocol,
            s.bytes_sent == 0,
            s.bytes_received == 0,
    {
        ConnectionState {
            connected: true,
            server: self.address.clone(),
            protocol: self.upstream_protocol.clone(),
            bytes_sent: 0,
            bytes_received: 0,
        }
    }
}

/// Whether the UI is told the tunnel is up: the state says connected, a
/// tunnel process was recorded, and that process is alive.
pub open spec fn reports_connected(s: AppState, process_alive: bool) -> bool {
    s.connected && s.tunnel_pid > 0 && process_alive
}

/// Application state shared by the commands.
pub struct AppState {
    /// Whether the VPN tunnel is up.
    pub connected: bool,
    /// The last profile connected to or set.
    pub config: ServerConfig,
    /// PID of the running tunnel client process (0 = none).
    pub tunnel_pid: u32,
}

impl AppState {
    /// Disconnected, with the default profile and no tunnel process.
    pub fn new() -> (s: Self)
        ensures
            !s.connected,
            s.tunnel_pid == 0,
            s.config@.address.len() == 0,
    {
        AppState { connected: false, config: ServerConfig::default(), tunnel_pid: 0 }
    }

    /// Forget the running tunnel process, returning its PID if there was one
    /// (so that it can be killed).
    pub fn take_tunnel_pid(&mut self) -> (pid: Option<u32>)
        ensures
            final(self).tunnel_pid == 0,
            final(self).connected == old(self).connected,
            final(self).config@ == old(self).config@,
            pid == (if old(self).tunnel_pid > 0 { Some(old(self).tunnel_pid) } else { None::<u32> }),
    {
        let old_pid = self.tunnel_pid;
        self.tunnel_pid = 0;
        if old_pid > 0 {
            Some(old_pid)
        } else {
            None
        }
    }

    /// Record a started tunnel process for a profile: connected, with that
    /// PID and profile.
    pub fn record_tunnel(&mut self, pid: u32, config: ServerConfig)
        ensures
            final(self).connected,
            final(self).tunnel_pid == pid,
            final(self).config@ == config@,
    {
        self.tunnel_pid = pid;
        self.connected = true;
        self.config = config;
    }

    /// Disconnect: no tunnel process and not connected; returns the PID of
    /// the process to stop, if any.
    pub fn disconnect(&mut self) -> (pid: Option<u32>)
        ensures
            !final(self).connected,
            final(self).tunnel_pid == 0,
            final(self).config@ == old(self).config@,
            pid == (if old(self).tunnel_pid > 0 { Some(old(self).tunnel_pid) } else { None::<u32> }),
    {
        let pid = self.take_tunnel_pid();
        self.connected = false;
        pid
    }

    /// The PID whose liveness decides the reported state: only asked when
    /// the state says connected and a process was recorded.
    pub fn pid_to_check(&self) -> (pid: Option<u32>)
        ensures
            pid == (if self.connected && self.tunnel_pid > 0 { Some(self.tunnel_pid) } else { None::<u32> }),
    {
        if self.connected && self.tunnel_pid > 0 {
            Some(self.tunnel_pid)
        } else {
            None
        }
    }

    /// The state reported to the UI, given whether the tunnel process is
    /// still alive: connected only when marked connected, with a recorded
    /// process that is alive; the server is shown only while connected.
    pub fn current_state(&self, process_alive: bool) -> (s: ConnectionState)
        ensures
            s.connected == reports_connected(*self, process_alive),
            s.server@ == (if s.connected { self.config@.address } else { Seq::<char>::empty() }),
            s.protocol@ == self.config@.upstream_protocol,
            s.bytes_sent == 0,
            s.bytes_received == 0,
    {
        let actually_connected = self.connected && self.tunnel_pid > 0 && process_alive;
        ConnectionState {
            connected: actually_connected,
            server: if actually_connected { self.config.address.clone() } else { String::new() },
            protocol: self.config.upstream_protocol.clone(),
            bytes_sent: 0,
            bytes_received: 0,
        }
    }

    /// A copy of the current profile.
    pub fn config(&self) -> (c: ServerConfig)
        ensures
            c@ == self.config@,
    {
        self.config.clone()
    }

    /// Replace the current profile.
    pub fn set_config(&mut self, config: ServerConfig)
        ensures
            final(self).config@ == config@,
            final(self).connected == old(self).connected,
            final(self).tunnel_pid == old(self).tunnel_pid,
    {
        self.config = config;
    }
}

} // verus!

verus! {

/// Where a system-wide tunnel client is looked for, in order.
pub open spec fn client_candidates() -> Seq<Seq<char>> {
    seq!["/usr/local/bin/trusttunnel_client"@, "/opt/homebrew/bin/trusttunnel_client"@]
}

/// The tunnel client's name, found through `PATH`.
pub open spec fn default_client() -> Seq<char> {
    "trusttunnel_client"@
}

/// The candidate paths for a system-wide tunnel client, in search order.
pub fn system_client_candidates() -> (v: Vec<String>)
    ensures
        strings_view(v@) == client_candidates(),
{
    let mut v: Vec<String> = Vec::new();
    v.push("/usr/local/bin/trusttunnel_client".to_string());
    v.push("/opt/homebrew/bin/trusttunnel_client".to_string());
    assert(strings_view(v@) =~= client_candidates());
    v
}

/// The first candidate marked present, or the bare client name when none is.
pub open spec fn first_present(candidates: Seq<Seq<char>>, present: Seq<bool>) -> Seq<char>
    decreases candidates.len(),
{
    if candidates.len() == 0 || present.len() == 0 {
        default_client()
    } else if present[0] {
        candidates[0]
    } else {
        first_present(candidates.drop_first(), present.drop_first())
    }
}

/// Pick the first candidate path that exists (`present[i]` tells whether
/// `candidates[i]` does), else the bare client name.
pub fn pick_present(candidates: &Vec<String>, present: &Vec<bool>) -> (r: String)
    ensures
        r@ == first_present(strings_view(candidates@), present@),
{
    let ghost cv = strings_view(candidates@);
    let n = if candidates.len() < present.len() { candidates.len() } else { present.len() };
    let mut i: usize = 0;
    assert(cv.skip(0) =~= cv);
    assert(present@.skip(0) =~= present@);
    while i < n
        invariant
            cv == strings_view(candidates@),
            n <= candidates@.len(),
            n <= present@.len(),
            n == candidates@.len() || n == present@.len(),
            i <= n,
            first_present(cv, present@) == first_present(cv.skip(i as int), present@.skip(i as int)),
        decreases n - i,
    {
        if present[i] {
            assert(cv.skip(i as int)[0] == candidates@[i as int]@);
            return candidates[i].clone();
        }
        assert(cv.skip(i as int).drop_first() =~= cv.skip(i + 1));
        assert(present@.skip(i as int).drop_first() =~= present@.skip(i + 1));
        i = i + 1;
    }
    "trusttunnel_client".to_string()
}

/// Whether a file exists at `path`.
#[verifier::external_body]
fn path_exists(path: &str) -> bool {
    std::path::Path::new(path).exists()
}

/// Find a system-wide tunnel client: the first candidate path, in search
/// order, that exists, else the bare client name (resolved through `PATH`).
/// Which paths exist is read from the disk; the choice among them is
/// `pick_present`'s.
pub fn find_system_trusttunnel() -> (r: String)
    ensures
        exists|present: Seq<bool>|
            present.len() == client_candidates().len()
                && r@ == #[trigger] first_present(client_candidates(), present),
        client_candidates().contains(r@) || r@ == default_client(),
{
    let candidates = system_client_candidates();
    let n = candidates.len();
    let mut present: Vec<bool> = Vec::new();
    let mut i: usize = 0;
    while i < n
        invariant
            n == candidates@.len(),
            i <= n,
            present@.len() == i,
        decreases n - i,
    {
        present.push(path_exists(candidates[i].as_str()));
        i = i + 1;
    }
    let r = pick_present(&candidates, &present);
    proof {
        lemma_first_present_is_candidate(client_candidates(), present@);
    }
    r
}

proof fn lemma_first_present_is_candidate(candidates: Seq<Seq<char>>, present: Seq<bool>)
    ensures
        candidates.contains(first_present(candidates, present))
            || first_present(candidates, present) == default_client(),
    decreases candidates.len(),
{
    if candidates.len() > 0 && present.len() > 0 {
        if present[0] {
            assert(first_present(candidates, present) == candidates[0]);
            assert(candidates.contains(candidates[0]));
        } else {
            let rest = candidates.drop_first();
            lemma_first_present_is_candidate(rest, present.drop_first());
            if rest.contains(first_present(rest, present.drop_first())) {
                let k = choose|k: int| 0 <= k < rest.len() && rest[k] == first_present(rest, present.drop_first());
                assert(candidates[k + 1] == rest[k]);
            }
        }
    }
}

/// The tunnel client binary to run: on macOS the bundled one when present,
/// else a system-wide one; elsewhere the bare client name.
pub fn client_binary(is_macos: bool, bundled: Option<String>) -> (r: String)
    ensures
        !is_macos ==> r@ == default_client(),
        is_macos && bundled is Some ==> r@ == bundled->0@,
        is_macos && bundled is None ==> exists|present: Seq<bool>|
            present.len() == client_candidates().len()
                && r@ == #[trigger] first_present(client_candidates(), present),
{
    if !is_macos {
        "trusttunnel_client".to_string()
    } else {
        match bundled {
            Some(p) => p,
            None => find_system_trusttunnel(),
        }
    }
}

/// The command line that starts the tunnel client: through non-interactive
/// `sudo` on macOS (to create the utun device), with the configuration
/// path, `-s` when verification is skipped, and trace logging.
pub open spec fn client_command_line(
    is_macos: bool,
    binary: Seq<char>,
    config_path: Seq<char>,
    skip_verification: bool,
) -> Seq<Seq<char>> {
    let program: Seq<Seq<char>> = if is_macos {
        seq!["/usr/bin/sudo"@, "-n"@, binary]
    } else {
        seq![binary]
    };
    let skip: Seq<Seq<char>> = if skip_verification { seq!["-s"@] } else { Seq::empty() };
    program + seq!["--config"@, config_path] + skip + seq!["--loglevel"@, "trace"@]
}

/// The program and arguments that start the tunnel client.
pub fn client_command(is_macos: bool, binary: &str, config_path: &str, skip_verification: bool) -> (v: Vec<String>)
    ensures
        strings_view(v@) == client_command_line(is_macos, binary@, config_path@, skip_verification),
{
    let mut v: Vec<String> = Vec::new();
    if is_macos {
        v.push("/usr/bin/sudo".to_string());
        v.push("-n".to_string());
    }
    v.push(owned(binary));
    v.push("--config".to_string());
    v.push(owned(config_path));
    if skip_verification {
        v.push("-s".to_string());
    }
    v.push("--loglevel".to_string());
    v.push("trace".to_string());
    assert(strings_view(v@) =~= client_command_line(is_macos, binary@, config_path@, skip_verification));
    v
}

/// How many times the client log is polled for a confirmed connection.
pub const CONNECT_POLLS: u32 = 60;

/// Milliseconds between two polls of the client log.
pub const CONNECT_POLL_INTERVAL_MS: u64 = 500;

/// The client log shows an established tunnel.
pub open spec fn log_confirms(log: Seq<char>) -> bool {
    ||| has_substring(log, "TLS handshake completed"@)
    ||| has_substring(log, "Connection stable"@)
    ||| has_substring(log, "tunnel is up"@)
    ||| has_substring(log, "connected"@)
}

/// Whether the tunnel client's log confirms that the tunnel is established.
pub fn log_confirms_connection(log: &str) -> (r: bool)
    ensures
        r == log_confirms(log@),
{
    let text = chars_of(log);
    contains_chars(&text, &chars_of("TLS handshake completed"))
        || contains_chars(&text, &chars_of("Connection stable"))
        || contains_chars(&text, &chars_of("tunnel is up"))
        || contains_chars(&text, &chars_of("connected"))
}

/// What follows one poll of the tunnel client's log.
pub enum PollDecision {
    /// The log confirms the tunnel: stop waiting.
    Confirmed,
    /// The client process has died: stop waiting.
    ProcessDied,
    /// Poll again (at most `CONNECT_POLLS` polls in all).
    KeepWaiting,
}

/// Decide after one poll: `log` is the log's text when the log exists and
/// could be read, `process_alive` whether the client process still runs
/// (only consulted when a readable log does not confirm the tunnel).
pub fn poll_decision(log: Option<&str>, process_alive: bool) -> (d: PollDecision)
    ensures
        log is None ==> d is KeepWaiting,
        log matches Some(t) && log_confirms(t@) ==> d is Confirmed,
        log matches Some(t) && !log_confirms(t@) && !process_alive ==> d is ProcessDied,
        log matches Some(t) && !log_confirms(t@) && process_alive ==> d is KeepWaiting,
{
    match log {
        None => PollDecision::KeepWaiting,
        Some(t) => {
            if log_confirms_connection(t) {
                PollDecision::Confirmed
            } else if !process_alive {
                PollDecision::ProcessDied
            } else {
                PollDecision::KeepWaiting
            }
        },
    }
}

/// A debug log line: the timestamp in brackets, the message, a newline.
pub fn debug_line(timestamp: u64, msg: &str) -> (line: String)
    ensures
        line@ == "["@ + decimal(timestamp as nat) + "] "@ + msg@ + "\n"@,
{
    let mut line = "[".to_string();
    line.append(decimal_string(timestamp).as_str());
    line.append("] ");
    line.append(msg);
    line.append("\n");
    line
}

/// What the shell does in answer to a tray or menu action.
pub enum TrayCommand {
    /// Tell the UI to connect.
    EmitConnect,
    /// Show and focus the main window.
    ShowWindow,
    /// Hide the main window.
    HideWindow,
    /// Minimize the main window.
    MinimizeWindow,
    /// Quit the application.
    Quit,
    /// Tell the UI to navigate to a screen.
    Navigate(String),
    /// Nothing.
    Ignore,
}

/// An action sent from the tray popup.
pub struct TrayAction {
    pub action: String,
    pub screen: Option<String>,
}

impl TrayAction {
    /// The command for this action: `connect`, `show`, `hide`, `quit`, and
    /// `nav` with a screen; anything else is ignored.
    pub fn command(&self) -> (c: TrayCommand)
        ensures
            self.action@ == "connect"@ ==> c is EmitConnect,
            self.action@ == "show"@ ==> c is ShowWindow,
            self.action@ == "hide"@ ==> c is HideWindow,
            self.action@ == "quit"@ ==> c is Quit,
            self.action@ == "nav"@ ==> (match self.screen {
                Some(s) => c matches TrayCommand::Navigate(t) && t@ == s@,
                None => c is Ignore,
            }),
            self.action@ != "connect"@ && self.action@ != "show"@ && self.action@ != "hide"@
                && self.action@ != "quit"@ && self.action@ != "nav"@ ==> c is Ignore,
    {
        proof {
            reveal_strlit("connect");
            reveal_strlit("show");
            reveal_strlit("hide");
            reveal_strlit("quit");
            reveal_strlit("nav");
            assert("connect"@[0] == 'c' && "show"@[0] == 's' && "hide"@[0] == 'h');
            assert("quit"@[0] == 'q' && "nav"@[0] == 'n');
        }
        let a = self.action.as_str();
        if str_eq(a, "connect") {
            TrayCommand::EmitConnect
        } else if str_eq(a, "show") {
            TrayCommand::ShowWindow
        } else if str_eq(a, "hide") {
            TrayCommand::HideWindow
        } else if str_eq(a, "quit") {
            TrayCommand::Quit
        } else if str_eq(a, "nav") {
            match &self.screen {
                Some(s) => TrayCommand::Navigate(s.clone()),
                None => TrayCommand::Ignore,
            }
        } else {
            TrayCommand::Ignore
        }
    }
}

/// The command for a tray menu item: `tray-connect` connects, `tray-show`
/// shows the window, anything else is ignored.
pub fn tray_menu_command(id: &str) -> (c: TrayCommand)
    ensures
        id@ == "tray-connect"@ ==> c is EmitConnect,
        id@ == "tray-show"@ ==> c is ShowWindow,
        id@ != "tray-connect"@ && id@ != "tray-show"@ ==> c is Ignore,
{
    proof {
        reveal_strlit("tray-connect");
        reveal_strlit("tray-show");
        assert("tray-connect"@.len() == 12 && "tray-show"@.len() == 9);
    }
    if str_eq(id, "tray-connect") {
        TrayCommand::EmitConnect
    } else if str_eq(id, "tray-show") {
        TrayCommand::ShowWindow
    } else {
        TrayCommand::Ignore
    }
}

/// The command for an application menu item: `hide` and `close` hide the
/// window, `minimize` minimizes it, anything else is ignored.
pub fn app_menu_command(id: &str) -> (c: TrayCommand)
    ensures
        id@ == "hide"@ || id@ == "close"@ ==> c is HideWindow,
        id@ == "minimize"@ ==> c is MinimizeWindow,
        id@ != "hide"@ && id@ != "close"@ && id@ != "minimize"@ ==> c is Ignore,
{
    proof {
        reveal_strlit("hide");
        reveal_strlit("close");
        reveal_strlit("minimize");
        assert("hide"@[0] == 'h' && "close"@[0] == 'c' && "minimize"@[0] == 'm');
    }
    if str_eq(id, "hide") || str_eq(id, "close") {
        TrayCommand::HideWindow
    } else if str_eq(id, "minimize") {
        TrayCommand::MinimizeWindow
    } else {
        TrayCommand::Ignore
    }
}

} // verus!

verus! {

/// After a tunnel process is recorded, the UI is told the tunnel is up
/// exactly while that process is alive; after a disconnect it is never told so.
pub proof fn law_reported_connection(recorded: AppState, disconnected: AppState, process_alive: bool)
    requires
        recorded.connected,
        recorded.tunnel_pid > 0,
        !disconnected.connected,
        disconnected.tunnel_pid == 0,
    ensures
        reports_connected(recorded, process_alive) == process_alive,
        !reports_connected(disconnected, process_alive),
{
}

/// The tunnel never captures the CGNAT range, nor the VPN server's own
/// address when the profile's address names a host (avoiding routing loops).
pub proof fn law_server_excluded_from_tunnel(address: Seq<char>)
    ensures
        excluded_routes(address).contains("100.64.0.0/10"@),
        head_before(address, ':').len() > 0 ==> excluded_routes(address).contains(
            head_before(address, ':') + "/32"@,
        ),
{
    let routes = excluded_routes(address);
    assert(routes[0] == "100.64.0.0/10"@);
    if head_before(address, ':').len() > 0 {
        assert(routes[1] == head_before(address, ':') + "/32"@);
    }
}

} // verus!

verus! {

/// A desktop connection whose profile passed the pre-connect checks. Its
/// TOML configuration is to be written to disk; only then does the
/// connection go on (`config_written`). A refused profile yields no such
/// value, so nothing is written, stopped or started for it.
pub struct ValidatedConnect {
    config: ServerConfig,
    toml: String,
}

/// A connection whose configuration file was written and whose earlier
/// tunnel process was released: the client is to be started with `argv`,
/// and its process recorded with `spawned`.
pub struct SpawnPlan {
    config: ServerConfig,
    binary: String,
    argv: Vec<String>,
}

impl ValidatedConnect {
    #[verifier::type_invariant]
    spec fn rendered(self) -> bool {
        self.toml@ == toml_text(self.config@)
    }

    /// The profile being connected.
    pub closed spec fn spec_config(self) -> ServerConfigView {
        self.config@
    }

    /// Check a profile before anything is written or started: refused with
    /// the first failing check's message, else ready with its TOML.
    pub fn start(config: ServerConfig) -> (r: Result<Self, String>)
        ensures
            r is Ok <==> connect_problem(config@) is None,
            r matches Err(e) ==> connect_problem(config@) == Some(e@),
            r matches Ok(v) ==> v.spec_config() == config@,
    {
        match config.validate_for_connect() {
            Err(e) => Err(e),
            Ok(()) => {
                let toml = config.to_toml();
                Ok(ValidatedConnect { config, toml })
            },
        }
    }

    /// The TOML configuration to write for this connection.
    pub fn toml(&self) -> (t: &String)
        ensures
            t@ == toml_text(self.spec_config()),
    {
        proof {
            use_type_invariant(self);
        }
        &self.toml
    }

    /// The configuration was written: release the earlier tunnel process
    /// (returned, to be stopped, when there was one) and plan the client's
    /// command line with the binary that `client_binary` picks.
    pub fn config_written(
        self,
        state: &mut AppState,
        is_macos: bool,
        bundled: Option<String>,
        config_path: &str,
    ) -> (r: (SpawnPlan, Option<u32>))
        ensures
            final(state).tunnel_pid == 0,
            final(state).connected == old(state).connected,
            final(state).config@ == old(state).config@,
            r.1 == (if old(state).tunnel_pid > 0 { Some(old(state).tunnel_pid) } else { None::<u32> }),
            r.0.spec_config() == self.spec_config(),
            !is_macos ==> r.0.spec_binary() == default_client(),
            is_macos && bundled is Some ==> r.0.spec_binary() == bundled->0@,
            strings_view(r.0.spec_argv()) == client_command_line(
                is_macos,
                r.0.spec_binary(),
                config_path@,
                self.spec_config().skip_verification,
            ),
    {
        let binary = client_binary(is_macos, bundled);
        let previous = state.take_tunnel_pid();
        let argv = client_command(is_macos, binary.as_str(), config_path, self.config.skip_verification);
        (SpawnPlan { config: self.config, binary, argv }, previous)
    }
}

impl SpawnPlan {
    /// The profile being connected.
    pub closed spec fn spec_config(self) -> ServerConfigView {
        self.config@
    }

    /// The client binary.
    pub closed spec fn spec_binary(self) -> Seq<char> {
        self.binary@
    }

    /// The program and arguments to start.
    pub closed spec fn spec_argv(self) -> Seq<String> {
        self.argv@
    }

    /// The client binary.
    pub fn binary(&self) -> (b: &String)
        ensures
            b@ == self.spec_binary(),
    {
        &self.binary
    }

    /// The program and arguments to start.
    pub fn argv(&self) -> (a: &Vec<String>)
        ensures
            a@ == self.spec_argv(),
    {
        &self.argv
    }

    /// The client process started: record it as the connected tunnel for
    /// this profile, and answer the UI with the connected state.
    pub fn spawned(self, state: &mut AppState, pid: u32) -> (s: ConnectionState)
        ensures
            final(state).connected,
            final(state).tunnel_pid == pid,
            final(state).config@ == self.spec_config(),
            s.connected,
            s.server@ == self.spec_config().address,
            s.protocol@ == self.spec_config().upstream_protocol,
            s.bytes_sent == 0,
            s.bytes_received == 0,
    {
        let reply = self.config.connected_state();
        state.record_tunnel(pid, self.config);
        reply
    }
}

} // verus!

verus! {

/// The TOML keeps a configured address exactly as given, with its port:
/// for a non-empty address it holds the line `addresses = ["<address>"]`.
pub proof fn law_toml_keeps_address(c: ServerConfigView)
    requires
        c.address.len() > 0,
    ensures
        has_substring(toml_text(c), "addresses = ["@ + ("\""@ + c.address + "\""@) + "]\n"@),
        toml_address(c.address) == "\""@ + c.address + "\""@,
{
    let target = "addresses = ["@ + ("\""@ + c.address + "\""@) + "]\n"@;
    let pre = "vpn_mode = \"general\"\n"@ + "loglevel = \"trace\"\n"@ + "killswitch_enabled = false\n"@ + "post_quantum_group_enabled = false\n\n"@ + "[listener.tun]\n"@ + included_routes_line(c.has_ipv6) + "excluded_routes = ["@ + quoted_join(excluded_routes(c.address)) + "]\n"@ + "mtu_size = 1500\n"@ + "change_system_dns = "@ + bool_text(c.change_system_dns) + "\n\n"@ + "[endpoint]\n"@ + "hostname = \""@ + toml_sni(c) + "\"\n"@;
    let b1 = "addresses = ["@;
    vstd::seq_lib::lemma_concat_associative(pre, b1, toml_address(c.address));
    let b2 = b1 + toml_address(c.address);
    vstd::seq_lib::lemma_concat_associative(pre, b2, "]\n"@);
    let b3 = b2 + "]\n"@;
    let s0 = pre + "addresses = ["@ + toml_address(c.address) + "]\n"@;
    assert(s0 == pre + b3);
    assert(b3 == target);
    crate::text::lemma_substring_self(target);
    crate::text::lemma_substring_extend_left(pre, target, target);
    let s1 = s0 + "username = \""@;
    crate::text::lemma_substring_extend_right(s0, "username = \""@, target);
    let s2 = s1 + c.username;
    crate::text::lemma_substring_extend_right(s1, c.username, target);
    let s3 = s2 + "\"\n"@;
    crate::text::lemma_substring_extend_right(s2, "\"\n"@, target);
    let s4 = s3 + "password = \""@;
    crate::text::lemma_substring_extend_right(s3, "password = \""@, target);
    let s5 = s4 + c.password;
    crate::text::lemma_substring_extend_right(s4, c.password, target);
    let s6 = s5 + "\"\n"@;
    crate::text::lemma_substring_extend_right(s5, "\"\n"@, target);
    let s7 = s6 + "upstream_protocol = \""@;
    crate::text::lemma_substring_extend_right(s6, "upstream_protocol = \""@, target);
    let s8 = s7 + toml_protocol(c.upstream_protocol);
    crate::text::lemma_substring_extend_right(s7, toml_protocol(c.upstream_protocol), target);
    let s9 = s8 + "\"\n"@;
    crate::text::lemma_substring_extend_right(s8, "\"\n"@, target);
    let s10 = s9 + "dns_upstreams = ["@;
    crate::text::lemma_substring_extend_right(s9, "dns_upstreams = ["@, target);
    let s11 = s10 + toml_dns_list(c.dns_upstreams);
    crate::text::lemma_substring_extend_right(s10, toml_dns_list(c.dns_upstreams), target);
    let s12 = s11 + "]\n"@;
    crate::text::lemma_substring_extend_right(s11, "]\n"@, target);
    let s13 = s12 + "has_ipv6 = "@;
    crate::text::lemma_substring_extend_right(s12, "has_ipv6 = "@, target);
    let s14 = s13 + bool_text(c.has_ipv6);
    crate::text::lemma_substring_extend_right(s13, bool_text(c.has_ipv6), target);
    let s15 = s14 + "\n"@;
    crate::text::lemma_substring_extend_right(s14, "\n"@, target);
    assert(s15 == toml_main(c));
    if c.certificate.len() > 0 {
        let t0 = s15 + "certificate = \"\"\""@;
        crate::text::lemma_substring_extend_right(s15, "certificate = \"\"\""@, target);
        let t1 = t0 + c.certificate;
        crate::text::lemma_substring_extend_right(t0, c.certificate, target);
        let t2 = t1 + "\n\"\"\"\n"@;
        crate::text::lemma_substring_extend_right(t1, "\n\"\"\"\n"@, target);
        assert(t2 == toml_with_certificate(c));
    }
    let w = toml_with_certificate(c);
    assert(has_substring(w, target));
    let u0 = w + "skip_verification = "@;
    crate::text::lemma_substring_extend_right(w, "skip_verification = "@, target);
    let u1 = u0 + bool_text(c.skip_verification);
    crate::text::lemma_substring_extend_right(u0, bool_text(c.skip_verification), target);
    let u2 = u1 + "\n"@;
    crate::text::lemma_substring_extend_right(u1, "\n"@, target);
    let u3 = u2 + "anti_dpi = "@;
    crate::text::lemma_substring_extend_right(u2, "anti_dpi = "@, target);
    let u4 = u3 + bool_text(c.anti_dpi);
    crate::text::lemma_substring_extend_right(u3, bool_text(c.anti_dpi), target);
    let u5 = u4 + "\n"@;
    crate::text::lemma_substring_extend_right(u4, "\n"@, target);
    assert(u5 == toml_text(c));
}

/// The TOML carries the profile's username and password unchanged, each
/// on its own line.
pub proof fn law_toml_keeps_credentials(c: ServerConfigView)
    ensures
        has_substring(toml_text(c), "username = \""@ + c.username + "\"\n"@ + "password = \""@ + c.password + "\"\n"@),
{
    let target = "username = \""@ + c.username + "\"\n"@ + "password = \""@ + c.password + "\"\n"@;
    let pre = "vpn_mode = \"general\"\n"@ + "loglevel = \"trace\"\n"@ + "killswitch_enabled = false\n"@ + "post_quantum_group_enabled = false\n\n"@ + "[listener.tun]\n"@ + included_routes_line(c.has_ipv6) + "excluded_routes = ["@ + quoted_join(excluded_routes(c.address)) + "]\n"@ + "mtu_size = 1500\n"@ + "change_system_dns = "@ + bool_text(c.change_system_dns) + "\n\n"@ + "[endpoint]\n"@ + "hostname = \""@ + toml_sni(c) + "\"\n"@ + "addresses = ["@ + toml_address(c.address) + "]\n"@;
    let b1 = "username = \""@;
    vstd::seq_lib::lemma_concat_associative(pre, b1, c.username);
    let b2 = b1 + c.username;
    vstd::seq_lib::lemma_concat_associative(pre, b2, "\"\n"@);
    let b3 = b2 + "\"\n"@;
    vstd::seq_lib::lemma_concat_associative(pre, b3, "password = \""@);
    let b4 = b3 + "password = \""@;
    vstd::seq_lib::lemma_concat_associative(pre, b4, c.password);
    let b5 = b4 + c.password;
    vstd::seq_lib::lemma_concat_associative(pre, b5, "\"\n"@);
    let b6 = b5 + "\"\n"@;
    let s0 = pre + "username = \""@ + c.username + "\"\n"@ + "password = \""@ + c.password + "\"\n"@;
    assert(s0 == pre + b6);
    assert(b6 == target);
    crate::text::lemma_substring_self(target);
    crate::text::lemma_substring_extend_left(pre, target, target);
    let s1 = s0 + "upstream_protocol = \""@;
    crate::text::lemma_substring_extend_right(s0, "upstream_protocol = \""@, target);
    let s2 = s1 + toml_protocol(c.upstream_protocol);
    crate::text::lemma_substring_extend_right(s1, toml_protocol(c.upstream_protocol), target);
    let s3 = s2 + "\"\n"@;
    crate::text::lemma_substring_extend_right(s2, "\"\n"@, target);
    let s4 = s3 + "dns_upstreams = ["@;
    crate::text::lemma_substring_extend_right(s3, "dns_upstreams = ["@, target);
    let s5 = s4 + toml_dns_list(c.dns_upstreams);
    crate::text::lemma_substring_extend_right(s4, toml_dns_list(c.dns_upstreams), target);
    let s6 = s5 + "]\n"@;
    crate::text::lemma_substring_extend_right(s5, "]\n"@, target);
    let s7 = s6 + "has_ipv6 = "@;
    crate::text::lemma_substring_extend_right(s6, "has_ipv6 = "@, target);
    let s8 = s7 + bool_text(c.has_ipv6);
    crate::text::lemma_substring_extend_right(s7, bool_text(c.has_ipv6), target);
    let s9 = s8 + "\n"@;
    crate::text::lemma_substring_extend_right(s8, "\n"@, target);
    assert(s9 == toml_main(c));
    if c.certificate.len() > 0 {
        let t0 = s9 + "certificate = \"\"\""@;
        crate::text::lemma_substring_extend_right(s9, "certificate = \"\"\""@, target);
        let t1 = t0 + c.certificate;
        crate::text::lemma_substring_extend_right(t0, c.certificate, target);
        let t2 = t1 + "\n\"\"\"\n"@;
        crate::text::lemma_substring_extend_right(t1, "\n\"\"\"\n"@, target);
        assert(t2 == toml_with_certificate(c));
    }
    let w = toml_with_certificate(c);
    assert(has_substring(w, target));
    let u0 = w + "skip_verification = "@;
    crate::text::lemma_substring_extend_right(w, "skip_verification = "@, target);
    let u1 = u0 + bool_text(c.skip_verification);
    crate::text::lemma_substring_extend_right(u0, bool_text(c.skip_verification), target);
    let u2 = u1 + "\n"@;
    crate::text::lemma_substring_extend_right(u1, "\n"@, target);
    let u3 = u2 + "anti_dpi = "@;
    crate::text::lemma_substring_extend_right(u2, "anti_dpi = "@, target);
    let u4 = u3 + bool_text(c.anti_dpi);
    crate::text::lemma_substring_extend_right(u3, bool_text(c.anti_dpi), target);
    let u5 = u4 + "\n"@;
    crate::text::lemma_substring_extend_right(u4, "\n"@, target);
    assert(u5 == toml_text(c));
}

} // verus!

verus! {

/// A profile passes the pre-connect checks exactly when its address is
/// non-empty and carries a colon and its username and password are
/// non-empty; the hostname and every other field play no part.
pub proof fn law_connect_checks(c: ServerConfigView, d: ServerConfigView)
    ensures
        connect_problem(c) is None <==> (c.address.len() > 0 && c.address.contains(':')
            && c.username.len() > 0 && c.password.len() > 0),
        (c.address == d.address && c.username == d.username && c.password == d.password)
            ==> connect_problem(c) == connect_problem(d),
{
}

/// The whole log is searched: a confirmation anywhere in it, after any
/// earlier or before any later text, confirms the connection.
pub proof fn law_log_confirms_anywhere(before: Seq<char>, log: Seq<char>, after: Seq<char>)
    ensures
        log_confirms(log) ==> log_confirms(before + log),
        log_confirms(log) ==> log_confirms(log + after),
        log_confirms(log) ==> log_confirms(before + "\n"@ + log),
        log_confirms(before + "\n"@ + "connected"@ + after),
{
    let phrases = seq!["TLS handshake completed"@, "Connection stable"@, "tunnel is up"@, "connected"@];
    assert forall|k: int| 0 <= k < 4 && has_substring(log, #[trigger] phrases[k]) implies has_substring(
        before + log,
        phrases[k],
    ) && has_substring(log + after, phrases[k]) by {
        crate::text::lemma_substring_extend_left(before, log, phrases[k]);
        crate::text::lemma_substring_extend_right(log, after, phrases[k]);
    }
    assert(phrases[0] == "TLS handshake completed"@);
    assert(phrases[1] == "Connection stable"@);
    assert(phrases[2] == "tunnel is up"@);
    assert(phrases[3] == "connected"@);
    if log_confirms(log) {
        assert forall|k: int| 0 <= k < 4 && has_substring(log, #[trigger] phrases[k]) implies has_substring(
            before + "\n"@ + log,
            phrases[k],
        ) by {
            crate::text::lemma_substring_extend_left(before + "\n"@, log, phrases[k]);
        }
    }
    crate::text::lemma_substring_self("connected"@);
    crate::text::lemma_substring_extend_left(before + "\n"@, "connected"@, "connected"@);
    crate::text::lemma_substring_extend_right(before + "\n"@ + "connected"@, after, "connected"@);
}

} // verus!

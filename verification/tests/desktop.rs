use secular_core::commands::{
    app_menu_command, client_binary, client_command, debug_line, find_system_trusttunnel, log_confirms_connection,
    pick_present, poll_decision, PollDecision, ValidatedConnect,
    system_client_candidates, tray_menu_command, AppState, ServerConfig, TrayAction, TrayCommand,
};
use secular_core::routes::{is_whitespace, utun_routes};
use secular_core::text::{contains_str, decimal_string, head_before_char, join_quoted, starts_with_str};
use secular_core::tray::{tray_icon_candidates, TrayStatePayload, TrayView};

fn profile() -> ServerConfig {
    ServerConfig {
        address: "185.103.24.4:443".into(),
        hostname: "vpn.example.com".into(),
        username: "user".into(),
        password: "pass".into(),
        ..Default::default()
    }
}

#[test]
fn toml_of_typical_profile() {
    let expected = "vpn_mode = \"general\"\n\
loglevel = \"trace\"\n\
killswitch_enabled = false\n\
post_quantum_group_enabled = false\n\
\n\
[listener.tun]\n\
included_routes = [\"0.0.0.0/0\"]\n\
excluded_routes = [\"100.64.0.0/10\", \"185.103.24.4/32\"]\n\
mtu_size = 1500\n\
change_system_dns = true\n\
\n\
[endpoint]\n\
hostname = \"vpn.example.com\"\n\
addresses = [\"185.103.24.4:443\"]\n\
username = \"user\"\n\
password = \"pass\"\n\
upstream_protocol = \"auto\"\n\
dns_upstreams = [\"9.9.9.9\", \"149.112.112.112\"]\n\
has_ipv6 = false\n\
skip_verification = false\n\
anti_dpi = false\n";
    assert_eq!(profile().to_toml(), expected);
}

#[test]
fn toml_fallbacks_and_options() {
    let c = ServerConfig {
        address: "1.2.3.4:8443".into(),
        hostname: String::new(),
        upstream_protocol: "http3".into(),
        dns_upstreams: vec![],
        has_ipv6: true,
        certificate: "PEM".into(),
        skip_verification: true,
        anti_dpi: true,
        change_system_dns: false,
        ..Default::default()
    };
    let t = c.to_toml();
    assert!(t.contains("hostname = \"1.2.3.4\"\n"));
    assert!(t.contains("upstream_protocol = \"http3\"\n"));
    assert!(t.contains("dns_upstreams = [\"9.9.9.9\", \"149.112.112.112\"]\n"));
    assert!(t.contains("included_routes = [\"0.0.0.0/0\", \"::/0\"]\n"));
    assert!(t.contains("excluded_routes = [\"100.64.0.0/10\", \"1.2.3.4/32\"]\n"));
    assert!(t.contains("change_system_dns = false\n\n"));
    assert!(t.ends_with("has_ipv6 = true\ncertificate = \"\"\"PEM\n\"\"\"\nskip_verification = true\nanti_dpi = true\n"));
}

#[test]
fn toml_without_address() {
    let c = ServerConfig { dns_upstreams: vec!["1.1.1.1".into()], ..Default::default() };
    let t = c.to_toml();
    assert!(t.contains("addresses = [\"0.0.0.0:443\"]\n"));
    assert!(t.contains("excluded_routes = [\"100.64.0.0/10\"]\n"));
    assert!(t.contains("hostname = \"\"\n"));
    assert!(t.contains("dns_upstreams = [\"1.1.1.1\"]\n"));
}

#[test]
fn connect_checks() {
    let mut c = profile();
    assert_eq!(c.validate_for_connect(), Ok(()));
    c.address = String::new();
    assert_eq!(c.validate_for_connect(), Err("Server address is required".to_string()));
    c.address = "10.0.0.1".into();
    assert_eq!(
        c.validate_for_connect(),
        Err("Address '10.0.0.1' is missing a port. Use format: host:port (e.g. 10.0.0.1:443)".to_string())
    );
    let mut c = profile();
    c.password = String::new();
    assert_eq!(c.validate_for_connect(), Err("Username and password are required".to_string()));
    let mut c = profile();
    c.username = String::new();
    assert_eq!(c.validate_for_connect(), Err("Username and password are required".to_string()));
}

#[test]
fn default_profile() {
    let c = ServerConfig::default();
    assert_eq!(c.upstream_protocol, "http2");
    assert_eq!(c.dns_upstreams, vec!["9.9.9.9".to_string(), "149.112.112.112".to_string()]);
    assert!(c.change_system_dns);
    assert!(!c.has_ipv6 && !c.skip_verification && !c.anti_dpi);
}

#[test]
fn app_state_connect_and_disconnect() {
    let mut s = AppState::new();
    assert!(!s.current_state(true).connected);
    assert_eq!(s.take_tunnel_pid(), None);
    s.record_tunnel(4242, profile());
    assert_eq!(s.pid_to_check(), Some(4242));
    let st = s.current_state(true);
    assert!(st.connected);
    assert_eq!(st.server, "185.103.24.4:443");
    assert_eq!(st.protocol, "http2");
    let dead = s.current_state(false);
    assert!(!dead.connected);
    assert_eq!(dead.server, "");
    assert_eq!(s.config().address, "185.103.24.4:443");
    assert_eq!(s.disconnect(), Some(4242));
    assert_eq!(s.pid_to_check(), None);
    assert!(!s.current_state(true).connected);
    assert_eq!(s.disconnect(), None);
    let mut other = profile();
    other.address = "5.6.7.8:443".into();
    s.set_config(other);
    assert_eq!(s.config().address, "5.6.7.8:443");
    let cs = profile().connected_state();
    assert!(cs.connected && cs.bytes_sent == 0 && cs.bytes_received == 0);
    assert_eq!(cs.server, "185.103.24.4:443");
}

#[test]
fn client_command_lines() {
    assert_eq!(
        client_command(true, "/opt/tt", "/tmp/secular/trusttunnel_client.toml", true),
        vec!["/usr/bin/sudo", "-n", "/opt/tt", "--config", "/tmp/secular/trusttunnel_client.toml", "-s", "--loglevel", "trace"]
    );
    assert_eq!(
        client_command(false, "trusttunnel_client", "c.toml", false),
        vec!["trusttunnel_client", "--config", "c.toml", "--loglevel", "trace"]
    );
}

#[test]
fn client_binary_choice() {
    let cands = system_client_candidates();
    assert_eq!(cands, vec!["/usr/local/bin/trusttunnel_client", "/opt/homebrew/bin/trusttunnel_client"]);
    assert_eq!(pick_present(&cands, &vec![false, true]), "/opt/homebrew/bin/trusttunnel_client");
    assert_eq!(pick_present(&cands, &vec![true, true]), "/usr/local/bin/trusttunnel_client");
    assert_eq!(pick_present(&cands, &vec![false, false]), "trusttunnel_client");
    assert_eq!(client_binary(false, Some("/x".into())), "trusttunnel_client");
    assert_eq!(client_binary(true, Some("/bundle/tt".into())), "/bundle/tt");
}

#[test]
fn log_confirmation() {
    assert!(log_confirms_connection("... TLS handshake completed ..."));
    assert!(log_confirms_connection("Connection stable"));
    assert!(log_confirms_connection("the tunnel is up"));
    assert!(log_confirms_connection("client connected"));
    assert!(!log_confirms_connection("starting\nresolving endpoint\n"));
    assert!(!log_confirms_connection(""));
}

#[test]
fn debug_lines() {
    assert_eq!(debug_line(1700000000, "hello"), "[1700000000] hello\n");
    assert_eq!(debug_line(0, ""), "[0] \n");
}

#[test]
fn tray_actions() {
    let a = |s: &str, screen: Option<&str>| TrayAction { action: s.into(), screen: screen.map(|x| x.into()) };
    assert!(matches!(a("connect", None).command(), TrayCommand::EmitConnect));
    assert!(matches!(a("show", None).command(), TrayCommand::ShowWindow));
    assert!(matches!(a("hide", None).command(), TrayCommand::HideWindow));
    assert!(matches!(a("quit", None).command(), TrayCommand::Quit));
    assert!(matches!(a("nav", Some("settings")).command(), TrayCommand::Navigate(s) if s == "settings"));
    assert!(matches!(a("nav", None).command(), TrayCommand::Ignore));
    assert!(matches!(a("other", None).command(), TrayCommand::Ignore));
    assert!(matches!(tray_menu_command("tray-connect"), TrayCommand::EmitConnect));
    assert!(matches!(tray_menu_command("tray-show"), TrayCommand::ShowWindow));
    assert!(matches!(tray_menu_command("x"), TrayCommand::Ignore));
    assert!(matches!(app_menu_command("hide"), TrayCommand::HideWindow));
    assert!(matches!(app_menu_command("close"), TrayCommand::HideWindow));
    assert!(matches!(app_menu_command("minimize"), TrayCommand::MinimizeWindow));
    assert!(matches!(app_menu_command("zoom"), TrayCommand::Ignore));
}

#[test]
fn tray_rendering() {
    let p = TrayStatePayload::from_update(true, false, "vpn1".into(), "00:01:02".into(), 5, 7);
    let v = p.render();
    assert_eq!(v.tooltip, "Connected to vpn1 | 00:01:02 | \u{2193}5 \u{2191}7");
    assert_eq!(v.connect_label, "Disconnect from vpn1");
    assert!(v.connect_enabled);
    assert_eq!(v.stats_time, " Session: 00:01:02");
    assert_eq!(v.stats_pkts, " \u{2193} 5 pkts  \u{2191} 7 pkts");

    let p = TrayStatePayload::from_update(false, true, "vpn1".into(), String::new(), 0, 0);
    assert!(p.session_time.is_none());
    let v = p.render();
    assert_eq!(v.tooltip, "Connecting to vpn1...");
    assert_eq!(v.connect_label, "Connecting\u{2026}");
    assert!(!v.connect_enabled);
    assert_eq!(v.stats_time, " Session: 00:00:00");

    let p = TrayStatePayload {
        connected: false,
        connecting: false,
        server: "vpn2".into(),
        session_time: None,
        download_pkts: None,
        upload_pkts: None,
    };
    let v = p.render();
    assert_eq!(v.tooltip, "Disconnected");
    assert_eq!(v.connect_label, "Connect vpn2");
    assert!(v.connect_enabled);
    assert_eq!(v.stats_pkts, " \u{2193} 0 pkts  \u{2191} 0 pkts");
    assert_eq!(tray_icon_candidates("tray-inactive"), vec!["icons/tray-inactive.png", "icons/tray-inactive@2x.png"]);
}

#[test]
fn utun_route_lines() {
    let table = "Routing tables\n\nInternet:\nDestination        Gateway            Flags           Netif Expire\n\
default            10.0.0.1           UGScg             utun4\n\
0/1                10.0.0.1           UGSc              utun4       \r\n\
10.0.0.0/8         link#12            UCS               en0\n\
128.0/1            10.0.0.1           UGSc              utun10\n";
    let r = utun_routes(table);
    let got: Vec<(String, String)> = r.into_iter().map(|x| (x.destination, x.interface)).collect();
    assert_eq!(
        got,
        vec![
            ("default".to_string(), "utun4".to_string()),
            ("0/1".to_string(), "utun4".to_string()),
            ("128.0/1".to_string(), "utun10".to_string()),
        ]
    );
    assert!(utun_routes("").is_empty());
    assert!(utun_routes("\n   \n").is_empty());
    // A trailing carriage return is white space between fields.
    assert_eq!(utun_routes("x utun1\r")[0].interface, "utun1");
    assert_eq!(utun_routes("utun1")[0].destination, "utun1");
}

#[test]
fn whitespace_matches_std() {
    for c in ['\t', '\n', '\u{b}', '\u{c}', '\r', ' ', '\u{85}', '\u{a0}', '\u{1680}', '\u{2000}', '\u{200a}',
              '\u{2028}', '\u{2029}', '\u{202f}', '\u{205f}', '\u{3000}', 'a', '\u{200b}', '0', '\u{180e}', '\u{feff}'] {
        assert_eq!(is_whitespace(c), c.is_whitespace(), "{:?}", c);
    }
}

#[test]
fn text_helpers() {
    assert_eq!(decimal_string(0), "0");
    assert_eq!(decimal_string(7), "7");
    assert_eq!(decimal_string(18443), "18443");
    assert_eq!(decimal_string(u64::MAX), u64::MAX.to_string());
    assert_eq!(head_before_char("1.2.3.4:443", ':'), "1.2.3.4");
    assert_eq!(head_before_char("host", ':'), "host");
    assert_eq!(head_before_char(":443", ':'), "");
    assert_eq!(join_quoted(&vec!["a".into(), "b".into()]), "\"a\", \"b\"");
    assert_eq!(join_quoted(&vec![]), "");
    assert!(contains_str("abcdef", "cde"));
    assert!(!contains_str("abc", "abcd"));
    assert!(contains_str("abc", ""));
    assert!(starts_with_str("utun4", "utun"));
    assert!(!starts_with_str("utu", "utun"));
}

#[test]
fn poll_decisions() {
    assert!(matches!(poll_decision(None, false), PollDecision::KeepWaiting));
    assert!(matches!(poll_decision(Some("tunnel is up"), false), PollDecision::Confirmed));
    assert!(matches!(poll_decision(Some("starting"), false), PollDecision::ProcessDied));
    assert!(matches!(poll_decision(Some("starting"), true), PollDecision::KeepWaiting));
}

#[test]
fn system_client_search() {
    let found = find_system_trusttunnel();
    let cands = system_client_candidates();
    let present: Vec<bool> = cands.iter().map(|c| std::path::Path::new(c).exists()).collect();
    assert_eq!(found, pick_present(&cands, &present));
    assert_eq!(client_binary(true, None), found);
}

#[test]
fn initial_tray_view() {
    let v = TrayView::initial();
    assert_eq!(v.tooltip, "Secular - Disconnected");
    assert_eq!(v.connect_label, "Connect");
    assert!(v.connect_enabled);
    assert_eq!(v.stats_time, " Session: 00:00:00");
    assert_eq!(v.stats_pkts, " \u{2193} 0 pkts  \u{2191} 0 pkts");
}

#[test]
fn connect_flow_order() {
    let mut bad = profile();
    bad.username = String::new();
    assert_eq!(ValidatedConnect::start(bad).err(), Some("Username and password are required".to_string()));

    let mut state = AppState::new();
    state.record_tunnel(11, profile());
    let connect = ValidatedConnect::start(profile()).unwrap();
    assert_eq!(*connect.toml(), profile().to_toml());
    let (plan, previous) = connect.config_written(&mut state, false, None, "/tmp/c.toml");
    assert_eq!(previous, Some(11));
    assert_eq!(state.tunnel_pid, 0);
    assert_eq!(plan.binary(), "trusttunnel_client");
    assert_eq!(*plan.argv(), vec!["trusttunnel_client", "--config", "/tmp/c.toml", "--loglevel", "trace"]);
    let reply = plan.spawned(&mut state, 99);
    assert!(reply.connected);
    assert_eq!(reply.server, "185.103.24.4:443");
    assert_eq!(state.tunnel_pid, 99);
    assert!(state.connected);
}

//! Secular VPN core: configuration validation, MTU clamping, TUN and IPv6
//! leak-prevention state, the tunnel engine's connection state machine,
//! DNS leak prevention decisions, TLS fingerprint selection, and the
//! desktop client's TrustTunnel configuration and tray logic.

pub mod commands;
pub mod config;
pub mod dns;
pub mod error;
pub mod mtu;
pub mod network;
pub mod platform;
pub mod protocol;
pub mod routes;
pub mod text;
pub mod tray;
pub mod utls;

use vstd::prelude::*;

verus! {

/// Library version.
pub const VERSION: &'static str = "0.1.0";

} // verus!

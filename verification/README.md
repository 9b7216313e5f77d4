# secular-core

Verified core of the Secular VPN client, written in Verus.

- `src/` — the verified library: engine configuration and its validation,
  MTU clamping, TUN interface and IPv6 blackhole state, the tunnel engine's
  connection state machine (with the TLS and authentication parameters it
  plans), DNS proxy selection, uTLS fingerprint choice, and the desktop
  client's TrustTunnel TOML rendering, connection checks, routing-table
  reading and tray texts.
- `app/` — the runtime around it: async networking (TCP, rustls, HTTP/2),
  the UDP probe of the DNS proxy, the C ABI, serde forms of the
  configuration types, and the desktop client's process and file handling.
- `tests/` — tests of the library.
